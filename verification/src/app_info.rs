//! What the application says about itself.
use vstd::prelude::*;
use crate::text::concat2;

verus! {

/// The application's version, as its package declares it.
pub const PACKAGE_VERSION: &'static str = "0.1.0";

/// The application's name, version, description and authors.
#[derive(Debug)]
pub struct AppInfo {
    /// Version.
    pub version: String,
    /// Name.
    pub name: String,
    /// Description.
    pub description: Option<String>,
    /// Authors (none are recorded).
    pub authors: Vec<String>,
}

/// The HTTP user agent for a version: `mcprouter/<version>`.
pub fn get_user_agent(version: &str) -> (r: String)
    ensures
        r@ == "mcprouter/"@ + version@,
{
    concat2("mcprouter/", version)
}

/// The HTTP user agent of this build.
pub fn get_user_agent_static() -> (r: String)
    ensures
        r@ == "mcprouter/"@ + PACKAGE_VERSION@,
{
    get_user_agent(PACKAGE_VERSION)
}

/// The application's information from its package data.
pub fn app_info(name: String, version: String, description: String) -> (r: AppInfo)
    ensures
        r.name == name,
        r.version == version,
        r.description == Some(description),
        r.authors@.len() == 0,
{
    AppInfo { version, name, description: Some(description), authors: Vec::new() }
}

} // verus!
