//! The host platform profile: everything platform-dependent that the
//! generator and executable-path resolvers consult, folded into one
//! injected value so that both resolvers stay pure functions of their
//! arguments.

use vstd::prelude::*;

verus! {

/// The family of the host operating system, as far as build-system
/// layout conventions are concerned.
#[derive(Clone, Copy, PartialEq, Eq, Structural, Debug)]
pub enum Platform {
    /// POSIX-like targets: executables carry no suffix and the native
    /// IDE toolchain of the other family is unavailable.
    Unix,
    /// The native-executable-suffix platform: executables end in
    /// `.exe` and the Visual Studio generators are native.
    Windows,
}

/// The suffix the platform appends to executable file names.
pub open spec fn exe_suffix(plat: Platform) -> Seq<char> {
    if plat is Windows {
        ".exe"@
    } else {
        ""@
    }
}

impl Platform {
    /// Whether this is the native-executable-suffix platform.
    pub fn is_windows(&self) -> (r: bool)
        ensures
            r == (*self is Windows),
    {
        match self {
            Platform::Windows => true,
            Platform::Unix => false,
        }
    }

    /// The executable suffix of this platform as a runtime string.
    pub fn executable_suffix(&self) -> (r: &'static str)
        ensures
            r@ == exe_suffix(*self),
    {
        match self {
            Platform::Windows => ".exe",
            Platform::Unix => "",
        }
    }
}

} // verus!
