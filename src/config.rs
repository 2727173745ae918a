use vstd::prelude::*;
use vstd::string::StrSliceExecFns;

verus! {

/// Whether the library was compiled with debug assertions on or off.
#[derive(Debug, Clone, Copy, PartialEq, Eq, Structural)]
pub enum BuildMode {
    Debug,
    Release,
}

impl BuildMode {
    /// Equality usable where no trait call is wanted.
    pub fn equals(self, rhs: BuildMode) -> (r: bool)
        ensures
            r == (self == rhs),
    {
        match (self, rhs) {
            (BuildMode::Debug, BuildMode::Debug) => true,
            (BuildMode::Release, BuildMode::Release) => true,
            _ => false,
        }
    }
}

/// The build mode selected by the `debug_assertions` compile switch.
pub open spec fn spec_build_mode(debug_assertions: bool) -> BuildMode {
    if debug_assertions {
        BuildMode::Debug
    } else {
        BuildMode::Release
    }
}

/// Retrieve the build mode for the given state of the `debug_assertions` switch.
pub fn build_mode(debug_assertions: bool) -> (r: BuildMode)
    ensures
        r == spec_build_mode(debug_assertions),
{
    if debug_assertions {
        BuildMode::Debug
    } else {
        BuildMode::Release
    }
}

/// True when compiling with `debug_assertions` on.
pub fn is_debug_mode(debug_assertions: bool) -> (r: bool)
    ensures
        r == (spec_build_mode(debug_assertions) == BuildMode::Debug),
{
    build_mode(debug_assertions).equals(BuildMode::Debug)
}

/// True when compiling with `debug_assertions` off.
pub fn is_release_mode(debug_assertions: bool) -> (r: bool)
    ensures
        r == (spec_build_mode(debug_assertions) == BuildMode::Release),
{
    build_mode(debug_assertions).equals(BuildMode::Release)
}

/// The operating systems the library is configured for.
#[derive(Debug, Clone, Copy, PartialEq, Eq, Structural)]
pub enum TargetPlatform {
    Windows,
    Mac,
    Linux,
}

impl TargetPlatform {
    /// Equality usable where no trait call is wanted.
    pub fn equals(self, rhs: TargetPlatform) -> (r: bool)
        ensures
            r == (self == rhs),
    {
        match (self, rhs) {
            (TargetPlatform::Windows, TargetPlatform::Windows) => true,
            (TargetPlatform::Mac, TargetPlatform::Mac) => true,
            (TargetPlatform::Linux, TargetPlatform::Linux) => true,
            _ => false,
        }
    }
}

/// The platform named by a `target_os` value: "windows", "macos" or "linux".
pub open spec fn spec_target_platform(os: Seq<char>) -> Option<TargetPlatform> {
    if os == "windows"@ {
        Some(TargetPlatform::Windows)
    } else if os == "macos"@ {
        Some(TargetPlatform::Mac)
    } else if os == "linux"@ {
        Some(TargetPlatform::Linux)
    } else {
        None
    }
}

/// Character-wise equality of two strings.
pub fn same_text(a: &str, b: &str) -> (r: bool)
    ensures
        r == (a@ == b@),
{
    let n = a.unicode_len();
    if n != b.unicode_len() {
        return false;
    }
    let mut i: usize = 0;
    while i < n
        invariant
            n == a@.len(),
            n == b@.len(),
            i <= n,
            a@.subrange(0, i as int) == b@.subrange(0, i as int),
        decreases n - i,
    {
        if a.get_char(i) != b.get_char(i) {
            return false;
        }
        assert(a@.subrange(0, i + 1) =~= a@.subrange(0, i as int).push(a@[i as int]));
        assert(b@.subrange(0, i + 1) =~= b@.subrange(0, i as int).push(b@[i as int]));
        i = i + 1;
    }
    assert(a@ =~= a@.subrange(0, n as int));
    assert(b@ =~= b@.subrange(0, n as int));
    true
}

/// The platform for a `target_os` value, `None` for an operating system
/// the library is not configured for.
pub fn target_platform(os: &str) -> (r: Option<TargetPlatform>)
    ensures
        r == spec_target_platform(os@),
{
    if same_text(os, "windows") {
        Some(TargetPlatform::Windows)
    } else if same_text(os, "macos") {
        Some(TargetPlatform::Mac)
    } else if same_text(os, "linux") {
        Some(TargetPlatform::Linux)
    } else {
        None
    }
}

/// True if `os` names Windows.
pub fn is_windows(os: &str) -> (r: bool)
    ensures
        r == (spec_target_platform(os@) == Some(TargetPlatform::Windows)),
{
    match target_platform(os) {
        Some(p) => p.equals(TargetPlatform::Windows),
        None => false,
    }
}

/// True if `os` names macOS.
pub fn is_mac(os: &str) -> (r: bool)
    ensures
        r == (spec_target_platform(os@) == Some(TargetPlatform::Mac)),
{
    match target_platform(os) {
        Some(p) => p.equals(TargetPlatform::Mac),
        None => false,
    }
}

/// True if `os` names Linux.
pub fn is_linux(os: &str) -> (r: bool)
    ensures
        r == (spec_target_platform(os@) == Some(TargetPlatform::Linux)),
{
    match target_platform(os) {
        Some(p) => p.equals(TargetPlatform::Linux),
        None => false,
    }
}

} // verus!
