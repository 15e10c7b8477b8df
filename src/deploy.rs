//! The decisions of one deploy run: which application name to use, in which order
//! the work goes, and what the platform tool is asked to do.
use vstd::prelude::*;
use crate::metadata::{deploy_name_spec, get_deploy_name, text_of};

verus! {

/// Name of the environment variable that holds the platform tool's path.
pub const SPIN_BIN_PATH: &'static str = "SPIN_BIN_PATH";

/// Why a deploy run stops before it deploys.
#[derive(Debug, Clone, Copy, PartialEq, Eq, Structural)]
pub enum DeployError {
    /// The environment does not say where the platform tool is.
    MissingTool,
    /// No name was given and none could be read from the metadata record.
    NeedName,
}

/// Where the application name comes from.
pub enum NameSource {
    /// The name given on the command line.
    Given(String),
    /// The name stored in the source directory's metadata record, still to be read.
    Stored,
}

/// The start of a deploy run: the platform tool, and where the name comes from.
pub struct Plan {
    pub tool: String,
    pub name: NameSource,
}

/// Plans a run from the name given on the command line, if any, and the tool path
/// that the environment holds, if any. Without a tool path the run fails before any
/// other work; a given name is used as it is, and only without one is the metadata
/// record to be read.
pub fn plan_deploy(explicit: Option<String>, tool: Option<String>) -> (r: Result<Plan, DeployError>)
    ensures
        r is Err <==> tool is None,
        r matches Err(e) ==> e == DeployError::MissingTool,
        r matches Ok(p) ==> {
            &&& tool matches Some(t) && p.tool@ == t@
            &&& match explicit {
                Some(n) => p.name matches NameSource::Given(g) && g@ == n@,
                None => p.name is Stored,
            }
        },
{
    match tool {
        None => Err(DeployError::MissingTool),
        Some(t) => {
            let name = match explicit {
                Some(n) => NameSource::Given(n),
                None => NameSource::Stored,
            };
            Ok(Plan { tool: t, name })
        },
    }
}

/// The stored name, from the metadata file's text (`None` where it could not be
/// read). Every failure to get it means that a name has to be given.
pub fn resolve_stored_name(contents: Option<&str>) -> (r: Result<String, DeployError>)
    ensures
        match deploy_name_spec(text_of(contents)) {
            Ok(n) => r matches Ok(s) && s@ == n,
            Err(_) => r == Err::<String, DeployError>(DeployError::NeedName),
        },
{
    match get_deploy_name(contents) {
        Ok(n) => Ok(n),
        Err(_) => Err(DeployError::NeedName),
    }
}

/// The arguments that have the platform tool scaffold a static file server
/// application called `name`, serving every path, with all other answers left at
/// their defaults.
pub fn scaffold_args(name: &str) -> (r: Vec<String>)
    ensures
        r@.len() == 6,
        r@[0]@ == "new"@,
        r@[1]@ == "static-fileserver"@,
        r@[2]@ == name@,
        r@[3]@ == "--value"@,
        r@[4]@ == "http-path=/..."@,
        r@[5]@ == "--accept-defaults"@,
{
    let mut r: Vec<String> = Vec::new();
    r.push(String::from_str("new"));
    r.push(String::from_str("static-fileserver"));
    r.push(String::from_str(name));
    r.push(String::from_str("--value"));
    r.push(String::from_str("http-path=/..."));
    r.push(String::from_str("--accept-defaults"));
    r
}

/// The arguments that have the platform tool deploy the project in its working
/// directory.
pub fn deploy_args() -> (r: Vec<String>)
    ensures
        r@.len() == 1,
        r@[0]@ == "deploy"@,
{
    let mut r: Vec<String> = Vec::new();
    r.push(String::from_str("deploy"));
    r
}

} // verus!
