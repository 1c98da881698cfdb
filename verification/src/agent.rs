use vstd::prelude::*;
use vstd::string::StringExecFns;

verus! {

/// `curl::Version::get` and `curl::Version::version`: the version of the
/// transfer library that this process is linked with. It differs from one
/// installation to the next, so nothing is claimed of it.
#[verifier::external_body]
fn library_version() -> (version: String) {
    curl::Version::get().version().to_string()
}

/// The client signature of this process: [`user_agent`] of the version of the
/// transfer library in use. Whatever that version is, the signature begins
/// with the library's name and a slash.
pub fn client_signature() -> (agent: String)
    ensures
        "curl/"@.is_prefix_of(agent@),
{
    let version = library_version();
    user_agent(version.as_str())
}

/// The client signature that every request carries: the name of the transfer
/// library, a slash, and `version`, the version of that library in use.
pub fn user_agent(version: &str) -> (agent: String)
    ensures
        agent@ == "curl/"@ + version@,
{
    String::from_str("curl/").concat(version)
}

} // verus!
