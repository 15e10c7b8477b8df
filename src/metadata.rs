//! The deploy metadata store: a one-field JSON record, `{"name": ...}`, that keeps
//! the name of the application last deployed from a source directory.
use vstd::prelude::*;

verus! {

/// File name of the metadata record inside a source directory.
pub const DEPLOY_META_FILENAME: &'static str = ".spin-static-site-deploy";

#[verifier::external_type_specification]
#[verifier::external_body]
pub struct ExJsonError(serde_json::Error);

/// Why the stored name could not be had.
#[derive(Debug, Clone, Copy, PartialEq, Eq, Structural)]
pub enum MetaError {
    /// The metadata file is absent or could not be read.
    Unreadable,
    /// The metadata file does not hold JSON.
    Malformed,
}

/// Whether serde_json accepts `text` as a JSON document.
pub uninterp spec fn json_accepts(text: Seq<char>) -> bool;

/// The string that the JSON document `text` holds under the key `name`, if it is an
/// object with such a member and that member is a string.
pub uninterp spec fn name_member(text: Seq<char>) -> Option<Seq<char>>;

/// The compact JSON text of the object `{"name": name}`.
pub uninterp spec fn name_record_text(name: Seq<char>) -> Seq<char>;

/// Relies on `serde_json::from_str` into a `serde_json::Value`, then
/// `Value::get("name")` and `Value::as_str`: the string member `name` of the parsed
/// document, or the parse error.
#[verifier::external_body]
fn parse_name_member(text: &str) -> (r: Result<Option<String>, serde_json::Error>)
    ensures
        r is Ok <==> json_accepts(text@),
        r matches Ok(m) ==> match m {
            Some(s) => name_member(text@) == Some(s@),
            None => name_member(text@) is None,
        },
{
    match serde_json::from_str::<serde_json::Value>(text) {
        Ok(v) => Ok(v.get("name").and_then(serde_json::Value::as_str).map(String::from)),
        Err(e) => Err(e),
    }
}

/// Relies on `serde_json::Map::insert` and the compact `Display` of
/// `serde_json::Value`: the object `{"name": name}` as JSON text, which
/// `serde_json::from_str` reads back to the same string member.
#[verifier::external_body]
fn name_record_json(name: &str) -> (r: String)
    ensures
        r@ == name_record_text(name@),
        json_accepts(r@),
        name_member(r@) == Some(name@),
{
    let mut m = serde_json::Map::new();
    m.insert(String::from("name"), serde_json::Value::String(String::from(name)));
    serde_json::Value::Object(m).to_string()
}

/// The name that a parsed record yields: its string member `name`, or the empty
/// name where it has none.
pub open spec fn name_or_empty_spec(member: Option<Seq<char>>) -> Seq<char> {
    match member {
        Some(s) => s,
        None => Seq::empty(),
    }
}

/// What reading the record gives: `contents` is the metadata file's text, `None`
/// where the file could not be read.
pub open spec fn deploy_name_spec(contents: Option<Seq<char>>) -> Result<Seq<char>, MetaError> {
    match contents {
        None => Err(MetaError::Unreadable),
        Some(t) => if json_accepts(t) {
            Ok(name_or_empty_spec(name_member(t)))
        } else {
            Err(MetaError::Malformed)
        },
    }
}

/// The name that a parsed record yields, from its string member `name`: that
/// string, or the empty name where the record has none.
pub fn name_or_empty(member: Option<String>) -> (r: String)
    ensures
        r@ == name_or_empty_spec(match member {
            Some(s) => Some(s@),
            None => None,
        }),
{
    match member {
        Some(s) => s,
        None => String::new(),
    }
}

/// The text of a file's contents, where it could be read.
pub open spec fn text_of(contents: Option<&str>) -> Option<Seq<char>> {
    match contents {
        Some(t) => Some(t@),
        None => None,
    }
}

/// Reads the application name from the metadata file's text (`None` where the file
/// could not be read). A record without a string `name` yields the empty name.
pub fn get_deploy_name(contents: Option<&str>) -> (r: Result<String, MetaError>)
    ensures
        match r {
            Ok(n) => deploy_name_spec(text_of(contents)) == Ok::<Seq<char>, MetaError>(n@),
            Err(e) => deploy_name_spec(text_of(contents)) == Err::<Seq<char>, MetaError>(e),
        },
        contents is None ==> r == Err::<String, MetaError>(MetaError::Unreadable),
        (contents matches Some(t) && json_accepts(t@) && name_member(t@) is None) ==> (r matches Ok(
            n,
        ) && n@.len() == 0),
{
    match contents {
        None => Err(MetaError::Unreadable),
        Some(t) => match parse_name_member(t) {
            Ok(m) => Ok(name_or_empty(m)),
            Err(_) => Err(MetaError::Malformed),
        },
    }
}

/// The text of the metadata record for `name`; reading it back yields `name`.
pub fn deploy_meta_json(name: &str) -> (r: String)
    ensures
        r@ == name_record_text(name@),
        deploy_name_spec(Some(r@)) == Ok::<Seq<char>, MetaError>(name@),
{
    name_record_json(name)
}

} // verus!
