//! Trusted views of the host: the per-user directories that the `dirs` crate
//! reports, and file-system probes. Every result here depends on the machine
//! the process runs on, so no contract pins a value; the library's logic
//! takes these results as plain inputs and is verified for every value of
//! them.

use vstd::prelude::*;

verus! {

/// Relies on dirs::data_local_dir: the OS's per-user local-data directory,
/// or `None` where the OS reports none.
#[verifier::external_body]
pub(crate) fn host_data_local_dir() -> Option<String> {
    dirs::data_local_dir().map(|p| p.to_string_lossy().to_string())
}

/// Relies on dirs::home_dir: the user's home directory, or `None` where the
/// OS reports none.
#[verifier::external_body]
pub(crate) fn host_home_dir() -> Option<String> {
    dirs::home_dir().map(|p| p.to_string_lossy().to_string())
}

/// Relies on std::path::Path::exists: whether anything stands at `path` on
/// the host file system at the moment of the call.
#[verifier::external_body]
pub(crate) fn path_exists(path: &str) -> bool {
    std::path::Path::new(path).exists()
}

/// Relies on std::path::Path::is_file: whether a regular file stands at
/// `path` on the host file system at the moment of the call; `false` for
/// directories and for dangling links.
#[verifier::external_body]
pub(crate) fn path_is_file(path: &str) -> bool {
    std::path::Path::new(path).is_file()
}

} // verus!
