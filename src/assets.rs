//! The asset collector: which regular files a source directory holds, each
//! named by its path relative to that directory.
use vstd::prelude::*;

verus! {

broadcast use {
    vstd::std_specs::vec::axiom_vec_decreases_to_view,
    vstd::seq::axiom_seq_index_decreases,
    vstd::seq_lib::group_seq_properties,
};

/// One entry of a directory listing, as the file system reported it.
pub enum Entry {
    /// A regular file, by its name.
    File(String),
    /// A directory, by its name, with the entries of its own listing (empty when it
    /// could not be listed).
    Dir(String, Vec<Entry>),
    /// Anything else: an entry whose metadata could not be read, or which is
    /// neither a regular file nor a directory.
    Skipped,
}

/// A relative path, as its sequence of components.
pub type RelPath = Seq<Seq<char>>;

/// Puts the component `name` in front of every path of `ps`.
pub open spec fn under(name: Seq<char>, ps: Seq<RelPath>) -> Seq<RelPath> {
    ps.map_values(|p: RelPath| seq![name] + p)
}

/// The regular files that `e` stands for, relative to the directory that listed it,
/// in depth-first order.
pub open spec fn entry_files(e: Entry) -> Seq<RelPath>
    decreases e,
{
    match e {
        Entry::File(n) => seq![seq![n@]],
        Entry::Dir(n, kids) => under(n@, listing_files(kids@)),
        Entry::Skipped => seq![],
    }
}

/// The regular files below a listing, relative to the listed directory, in the
/// order of the listing and depth first.
pub open spec fn listing_files(es: Seq<Entry>) -> Seq<RelPath>
    decreases es,
{
    if es.len() == 0 {
        seq![]
    } else {
        listing_files(es.drop_last()) + entry_files(es.last())
    }
}

/// Prefixes every path of `paths` with the component `name`.
fn prefix_paths(name: &String, paths: Vec<Vec<String>>) -> (r: Vec<Vec<String>>)
    ensures
        r.deep_view() == under(name@, paths.deep_view()),
{
    let mut r: Vec<Vec<String>> = Vec::new();
    let mut i: usize = 0;
    while i < paths.len()
        invariant
            i <= paths@.len(),
            r@.len() == i,
            forall|k: int| 0 <= k < i ==> #[trigger] r@[k].deep_view() == seq![name@] + paths@[k].deep_view(),
        decreases paths@.len() - i,
    {
        let mut p: Vec<String> = Vec::new();
        p.push(name.clone());
        let mut j: usize = 0;
        while j < paths[i].len()
            invariant
                i < paths@.len(),
                j <= paths@[i as int]@.len(),
                p@.len() == j + 1,
                p@[0]@ == name@,
                forall|k: int| 0 <= k < j ==> #[trigger] p@[k + 1]@ == paths@[i as int]@[k]@,
            decreases paths@[i as int]@.len() - j,
        {
            p.push(paths[i][j].clone());
            j = j + 1;
        }
        assert(p.deep_view() =~= seq![name@] + paths@[i as int].deep_view()) by {
            assert forall|k: int| 0 < k < p@.len() implies p@[k]@ == paths@[i as int]@[k - 1]@ by {
                assert(p@[(k - 1) + 1]@ == paths@[i as int]@[k - 1]@);
            }
        }
        r.push(p);
        i = i + 1;
    }
    assert(r.deep_view() =~= under(name@, paths.deep_view()));
    r
}

/// Whether the relative path `p` names a regular file of the tree that the listing
/// `es` spans: some entry is that file, or is a directory named by the first
/// component of `p` below which the rest of `p` names a regular file.
pub open spec fn names_file(es: Seq<Entry>, p: RelPath) -> bool
    decreases p.len(),
{
    &&& p.len() > 0
    &&& exists|i: int|
        0 <= i < es.len() && match #[trigger] es[i] {
            Entry::File(n) => p.len() == 1 && p[0] == n@,
            Entry::Dir(n, kids) => p[0] == n@ && names_file(kids@, p.drop_first()),
            Entry::Skipped => false,
        }
}

/// Whether the entry `e` leads to a regular file at the relative path `p`.
pub open spec fn entry_names(e: Entry, p: RelPath) -> bool {
    &&& p.len() > 0
    &&& match e {
        Entry::File(n) => p.len() == 1 && p[0] == n@,
        Entry::Dir(n, kids) => p[0] == n@ && names_file(kids@, p.drop_first()),
        Entry::Skipped => false,
    }
}

proof fn lemma_names_file_unfold(es: Seq<Entry>, p: RelPath)
    ensures
        names_file(es, p) <==> exists|i: int| 0 <= i < es.len() && #[trigger] entry_names(es[i], p),
{
    if names_file(es, p) {
        let i = choose|i: int|
            0 <= i < es.len() && match #[trigger] es[i] {
                Entry::File(n) => p.len() == 1 && p[0] == n@,
                Entry::Dir(n, kids) => p[0] == n@ && names_file(kids@, p.drop_first()),
                Entry::Skipped => false,
            };
        assert(entry_names(es[i], p));
    }
}

proof fn lemma_entry_files(e: Entry, p: RelPath)
    ensures
        entry_files(e).contains(p) <==> entry_names(e, p),
    decreases e,
{
    match e {
        Entry::File(n) => {
            if entry_names(e, p) {
                assert(p =~= seq![n@]);
                assert(entry_files(e)[0] == p);
            }
        },
        Entry::Dir(n, kids) => {
            let inner = listing_files(kids@);
            lemma_listing_files(kids@, p.drop_first());
            if entry_files(e).contains(p) {
                let i = choose|i: int| 0 <= i < entry_files(e).len() && entry_files(e)[i] == p;
                assert(p == seq![n@] + inner[i]);
                assert(p.drop_first() =~= inner[i]);
            }
            if entry_names(e, p) {
                let i = choose|i: int| 0 <= i < inner.len() && inner[i] == p.drop_first();
                assert(entry_files(e)[i] =~= p);
            }
        },
        Entry::Skipped => {},
    }
}

proof fn lemma_listing_files(es: Seq<Entry>, p: RelPath)
    ensures
        listing_files(es).contains(p) <==> names_file(es, p),
    decreases es,
{
    lemma_names_file_unfold(es, p);
    if es.len() > 0 {
        let init = es.drop_last();
        lemma_names_file_unfold(init, p);
        lemma_listing_files(init, p);
        lemma_entry_files(es.last(), p);
        let front = listing_files(init);
        let back = entry_files(es.last());
        assert(listing_files(es) == front + back);
        if listing_files(es).contains(p) {
            let k = choose|k: int| 0 <= k < (front + back).len() && (front + back)[k] == p;
            if k < front.len() {
                assert(front.contains(p));
                assert(names_file(init, p));
                assert(exists|i: int| 0 <= i < init.len() && #[trigger] entry_names(init[i], p));
                let i = choose|i: int| 0 <= i < init.len() && #[trigger] entry_names(init[i], p);
                assert(es[i] == init[i]);
            } else {
                assert(back[k - front.len()] == p);
                assert(entry_names(es[es.len() - 1], p));
            }
        }
        if names_file(es, p) {
            assert(exists|i: int| 0 <= i < es.len() && #[trigger] entry_names(es[i], p));
            let i = choose|i: int| 0 <= i < es.len() && #[trigger] entry_names(es[i], p);
            if i < es.len() - 1 {
                assert(init[i] == es[i]);
                assert(names_file(init, p));
                let k = choose|k: int| 0 <= k < front.len() && front[k] == p;
                assert((front + back)[k] == p);
            } else {
                let k = choose|k: int| 0 <= k < back.len() && back[k] == p;
                assert((front + back)[front.len() + k] == p);
            }
        }
    }
}

/// The collector finds exactly the regular files of a tree: a relative path is
/// among those collected from a listing if and only if it names a regular file of
/// the tree below that listing. Where the root cannot be listed, nothing is found.
pub proof fn lemma_collects_exactly_the_files(root: Option<Seq<Entry>>, p: RelPath)
    ensures
        match root {
            Some(es) => listing_files(es).contains(p) <==> names_file(es, p),
            None => !Seq::<RelPath>::empty().contains(p),
        },
{
    if let Some(es) = root {
        lemma_listing_files(es, p);
    }
}

/// Collects the regular files below a directory listing, each as its path relative
/// to the listed directory: depth first, in the order of the listing. Directories
/// are entered, skipped entries leave no trace.
pub fn collect_listing(es: &Vec<Entry>) -> (r: Vec<Vec<String>>)
    ensures
        r.deep_view() == listing_files(es@),
    decreases es,
{
    let mut r: Vec<Vec<String>> = Vec::new();
    let mut i: usize = 0;
    while i < es.len()
        invariant
            i <= es@.len(),
            r.deep_view() == listing_files(es@.take(i as int)),
        decreases es@.len() - i,
    {
        let ghost before = r.deep_view();
        assert(es@.take(i as int + 1).drop_last() =~= es@.take(i as int));
        match &es[i] {
            Entry::File(n) => {
                let mut p: Vec<String> = Vec::new();
                p.push(n.clone());
                r.push(p);
                assert(p.deep_view() =~= seq![n@]);
                assert(r.deep_view() =~= before + seq![seq![n@]]);
            },
            Entry::Dir(n, kids) => {
                proof {
                    assert(decreases_to!(es => es@[i as int]));
                }
                let inner = collect_listing(kids);
                let mut inner = prefix_paths(n, inner);
                let ghost added = inner@;
                let ghost pre = r@;
                r.append(&mut inner);
                assert(r@ == pre + added);
                assert(r.deep_view() =~= before + under(n@, listing_files(kids@)));
            },
            Entry::Skipped => {},
        }
        assert(es@.take(i as int + 1).last() == es@[i as int]);
        assert(r.deep_view() == before + entry_files(es@[i as int]));
        i = i + 1;
    }
    assert(es@.take(i as int) =~= es@);
    r
}

/// Collects the regular files below the source directory, relative to it. `root`
/// is the directory's listing, `None` where it could not be listed; then there is
/// nothing to collect.
pub fn collect_assets(root: &Option<Vec<Entry>>) -> (r: Vec<Vec<String>>)
    ensures
        r.deep_view() == match root {
            Some(es) => listing_files(es@),
            None => Seq::<RelPath>::empty(),
        },
{
    match root {
        Some(es) => collect_listing(es),
        None => {
            let r: Vec<Vec<String>> = Vec::new();
            assert(r.deep_view() =~= Seq::<RelPath>::empty());
            r
        },
    }
}

/// Where the asset with relative path `rel` goes in a project: below its `assets`
/// directory.
pub fn asset_destination(rel: &Vec<String>) -> (r: Vec<String>)
    ensures
        r@.len() == rel@.len() + 1,
        r@[0]@ == "assets"@,
        forall|i: int| 0 <= i < rel@.len() ==> r@[i + 1] == rel@[i],
{
    let mut r: Vec<String> = Vec::new();
    r.push(String::from_str("assets"));
    proof { reveal_strlit("assets"); }
    let mut i: usize = 0;
    while i < rel.len()
        invariant
            i <= rel@.len(),
            r@.len() == i + 1,
            r@[0]@ == "assets"@,
            forall|j: int| 0 <= j < i ==> r@[j + 1] == rel@[j],
        decreases rel@.len() - i,
    {
        r.push(rel[i].clone());
        i = i + 1;
    }
    r
}

/// The directory that holds `path`: all its components but the last, or `None`
/// for the empty path, which has no parent.
pub fn parent_dir(path: &Vec<String>) -> (r: Option<Vec<String>>)
    ensures
        r is None <==> path@.len() == 0,
        r matches Some(p) ==> p@ == path@.drop_last(),
{
    if path.len() == 0 {
        return None;
    }
    let mut p: Vec<String> = Vec::new();
    let mut i: usize = 0;
    while i < path.len() - 1
        invariant
            0 < path@.len(),
            i < path@.len(),
            p@ == path@.take(i as int),
        decreases path@.len() - i,
    {
        p.push(path[i].clone());
        i = i + 1;
        assert(p@ =~= path@.take(i as int));
    }
    assert(p@ =~= path@.drop_last());
    Some(p)
}

} // verus!
