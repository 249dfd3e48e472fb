use vstd::prelude::*;

verus! {

/// Relies on `directories::ProjectDirs::from` and `ProjectDirs::cache_dir`: the platform's
/// cache directory for the named application, or `None` where the operating system gives
/// no home directory. A directory whose path is not valid UTF-8 comes back as `None` too.
/// The answer depends on the environment, so nothing is promised of it.
#[verifier::external_body]
pub(crate) fn project_cache_dir(qualifier: &str, organization: &str, application: &str) -> (r:
    Option<String>) {
    directories::ProjectDirs::from(qualifier, organization, application).and_then(
        |dirs| dirs.cache_dir().to_str().map(String::from),
    )
}

} // verus!
