//! Companion utility core for a separately installed desktop application:
//! platform-aware discovery of the target app's data and database locations,
//! a persisted executable-path cache, process discovery and termination with
//! ordered fallback, and a debounce guard that gates window-state saves.

use vstd::prelude::*;

pub mod config;
pub mod guard;
pub mod host;
pub mod paths;
pub mod process;

verus! {

/// The operating-system kinds the resolver distinguishes.
#[derive(Clone, Copy, PartialEq, Eq, Structural, Debug)]
pub enum OsKind {
    Windows,
    Macos,
    Linux,
    Other,
}

/// The OS kind named by an OS identifier string such as the host compiler's
/// `"windows"`, `"macos"` or `"linux"`; every other identifier is `Other`.
pub open spec fn spec_os_kind(name: Seq<char>) -> OsKind {
    if name == "windows"@ {
        OsKind::Windows
    } else if name == "macos"@ {
        OsKind::Macos
    } else if name == "linux"@ {
        OsKind::Linux
    } else {
        OsKind::Other
    }
}

/// Maps an OS identifier string to its kind.
pub fn os_kind_of_name(name: &str) -> (k: OsKind)
    ensures
        k == spec_os_kind(name@),
{
    let n = String::from_str(name);
    if n == String::from_str("windows") {
        OsKind::Windows
    } else if n == String::from_str("macos") {
        OsKind::Macos
    } else if n == String::from_str("linux") {
        OsKind::Linux
    } else {
        OsKind::Other
    }
}

/// What the running environment reports of itself: its OS kind and the host's
/// architecture and family identifier strings.
pub struct PlatformProfile {
    pub os_kind: OsKind,
    pub arch: String,
    pub family: String,
}

impl PlatformProfile {
    /// A profile from the host's identifier strings.
    pub fn from_names(os_name: &str, arch: &str, family: &str) -> (p: PlatformProfile)
        ensures
            p.os_kind == spec_os_kind(os_name@),
            p.arch@ == arch@,
            p.family@ == family@,
    {
        PlatformProfile {
            os_kind: os_kind_of_name(os_name),
            arch: String::from_str(arch),
            family: String::from_str(family),
        }
    }
}

} // verus!
