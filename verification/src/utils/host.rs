//! The operating system that the build runs on.
use vstd::prelude::*;
use vstd::string::StringExecFns;

verus! {

/// The hosts that command lines differ by.
#[derive(Clone, Copy, Debug, PartialEq, Eq, Structural)]
pub enum HostPlatform {
    /// Windows, where Clang is paired with the runtime of a MinGW
    /// installation and needs Zork++'s own module map.
    Windows,
    /// Every other host.
    Other,
}

impl HostPlatform {
    /// The host whose operating system the standard library calls `name`.
    pub open spec fn of_os_name(name: Seq<char>) -> HostPlatform {
        if name == "windows"@ {
            HostPlatform::Windows
        } else {
            HostPlatform::Other
        }
    }

    /// The host whose operating system the standard library calls `name`,
    /// as in `std::env::consts::OS`.
    pub fn from_os_name(name: &str) -> (host: HostPlatform)
        ensures
            host == Self::of_os_name(name@),
    {
        if String::from_str(name) == String::from_str("windows") {
            HostPlatform::Windows
        } else {
            HostPlatform::Other
        }
    }
}

} // verus!
