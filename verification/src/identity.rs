//! The running build's identity: release channel and platform.
//!
//! Detection of the machine's operating system and architecture happens
//! outside the library; the mapping from the detected names to a known
//! platform, and from the channel string baked into the build to a known
//! channel, is decided here.

use vstd::prelude::*;

verus! {

/// The release channel a build belongs to.
#[derive(Clone, Copy, Debug, PartialEq, Eq, Structural)]
pub enum Quality {
    Stable,
    Insiders,
    Exploration,
}

/// The operating system and architecture a build runs on.
#[derive(Clone, Copy, Debug, PartialEq, Eq, Structural)]
pub enum Platform {
    LinuxX64,
    LinuxArm64,
    LinuxArm32,
    DarwinX64,
    DarwinArm64,
    WindowsX64,
    WindowsArm64,
}

/// Whether two strings hold the same characters.
pub fn str_eq(a: &str, b: &str) -> (r: bool)
    ensures
        r == (a@ == b@),
{
    let na = a.unicode_len();
    let nb = b.unicode_len();
    if na != nb {
        return false;
    }
    let mut i: usize = 0;
    while i < na
        invariant
            i <= na,
            na == a@.len(),
            na == b@.len(),
            forall|j: int| 0 <= j < i ==> a@[j] == b@[j],
        decreases na - i,
    {
        if a.get_char(i) != b.get_char(i) {
            return false;
        }
        i += 1;
    }
    proof {
        assert(a@ =~= b@);
    }
    true
}

/// The channel a channel string names, if any.
pub open spec fn parse_quality(s: Seq<char>) -> Option<Quality> {
    if s == "stable"@ {
        Some(Quality::Stable)
    } else if s == "insiders"@ {
        Some(Quality::Insiders)
    } else if s == "exploration"@ {
        Some(Quality::Exploration)
    } else {
        None
    }
}

impl Quality {
    /// Recognises a channel string.
    pub fn parse(s: &str) -> (r: Option<Quality>)
        ensures
            r == parse_quality(s@),
    {
        if str_eq(s, "stable") {
            Some(Quality::Stable)
        } else if str_eq(s, "insiders") {
            Some(Quality::Insiders)
        } else if str_eq(s, "exploration") {
            Some(Quality::Exploration)
        } else {
            None
        }
    }
}

/// The platform a pair of operating-system and architecture names denotes,
/// if any. The names follow the spelling the Rust toolchain uses for the
/// machine it compiles for.
pub open spec fn platform_of(os: Seq<char>, arch: Seq<char>) -> Option<Platform> {
    if os == "linux"@ && arch == "x86_64"@ {
        Some(Platform::LinuxX64)
    } else if os == "linux"@ && arch == "aarch64"@ {
        Some(Platform::LinuxArm64)
    } else if os == "linux"@ && arch == "arm"@ {
        Some(Platform::LinuxArm32)
    } else if os == "macos"@ && arch == "x86_64"@ {
        Some(Platform::DarwinX64)
    } else if os == "macos"@ && arch == "aarch64"@ {
        Some(Platform::DarwinArm64)
    } else if os == "windows"@ && arch == "x86_64"@ {
        Some(Platform::WindowsX64)
    } else if os == "windows"@ && arch == "aarch64"@ {
        Some(Platform::WindowsArm64)
    } else {
        None
    }
}

impl Platform {
    /// Recognises the detected operating-system and architecture names.
    pub fn from_os_arch(os: &str, arch: &str) -> (r: Option<Platform>)
        ensures
            r == platform_of(os@, arch@),
    {
        let on_x64 = str_eq(arch, "x86_64");
        let on_arm64 = str_eq(arch, "aarch64");
        if str_eq(os, "linux") {
            if on_x64 {
                Some(Platform::LinuxX64)
            } else if on_arm64 {
                Some(Platform::LinuxArm64)
            } else if str_eq(arch, "arm") {
                Some(Platform::LinuxArm32)
            } else {
                None
            }
        } else if str_eq(os, "macos") {
            if on_x64 {
                Some(Platform::DarwinX64)
            } else if on_arm64 {
                Some(Platform::DarwinArm64)
            } else {
                None
            }
        } else if str_eq(os, "windows") {
            if on_x64 {
                Some(Platform::WindowsX64)
            } else if on_arm64 {
                Some(Platform::WindowsArm64)
            } else {
                None
            }
        } else {
            None
        }
    }
}

} // verus!
