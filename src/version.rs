use vstd::prelude::*;
use vstd::string::StrSliceExecFns;

verus! {

/// An OpenGL version as reported by the driver.
#[derive(Debug, Clone, Copy, PartialEq, Eq, Structural)]
pub struct OpenGLVersion {
    pub major: usize,
    pub minor: usize,
}

/// Whether a version offers the structured debug message log.
///
/// This is the rule as the library has always applied it: a major version
/// above 3 together with a minor version of at least 3. It rejects 3.3 and
/// 4.0 to 4.2.
pub open spec fn spec_supports_debug_message_log(v: OpenGLVersion) -> bool {
    v.major > 3 && v.minor >= 3
}

impl OpenGLVersion {
    pub fn supports_debug_message_log(&self) -> (r: bool)
        ensures
            r == spec_supports_debug_message_log(*self),
    {
        self.major > 3 && self.minor >= 3
    }

    /// Returns the latest possible OpenGL version: 4.6
    pub fn latest() -> (r: Self)
        ensures
            r == (OpenGLVersion { major: 4, minor: 6 }),
    {
        Self { major: 4, minor: 6 }
    }
}

pub open spec fn is_ascii_digit(c: char) -> bool {
    '0' <= c && c <= '9'
}

pub open spec fn digit_value(c: char) -> usize {
    (c as u32 - 48) as usize
}

/// The version encoded by a driver version string of the form
/// "MAJOR.MINOR...": the digits at character offsets 0 and 2.
pub open spec fn spec_parse_version(s: Seq<char>) -> Option<OpenGLVersion> {
    if s.len() >= 3 && is_ascii_digit(s[0]) && is_ascii_digit(s[2]) {
        Some(OpenGLVersion { major: digit_value(s[0]), minor: digit_value(s[2]) })
    } else {
        None
    }
}

/// Reads major and minor version from a driver version string; `None` when
/// the string is too short or either offset does not hold a decimal digit.
pub fn parse_version(s: &str) -> (r: Option<OpenGLVersion>)
    ensures
        r == spec_parse_version(s@),
{
    if s.unicode_len() < 3 {
        return None;
    }
    let first = s.get_char(0);
    let second = s.get_char(2);
    if '0' <= first && first <= '9' && '0' <= second && second <= '9' {
        let major = (first as u32 - 48) as usize;
        let minor = (second as u32 - 48) as usize;
        Some(OpenGLVersion { major, minor })
    } else {
        None
    }
}

/// The result of a lookup in a cache holding `cached`, where the driver
/// would report `reported` if asked.
pub open spec fn spec_lookup(cached: Option<OpenGLVersion>, reported: Seq<char>) -> Option<
    OpenGLVersion,
> {
    match cached {
        Some(v) => Some(v),
        None => spec_parse_version(reported),
    }
}

/// Process-wide memo of the driver's version: filled by the first
/// successful query and never invalidated.
pub struct VersionCache {
    version: Option<OpenGLVersion>,
}

impl View for VersionCache {
    type V = Option<OpenGLVersion>;

    closed spec fn view(&self) -> Option<OpenGLVersion> {
        self.version
    }
}

impl VersionCache {
    /// An empty cache.
    pub fn new() -> (r: Self)
        ensures
            r@ == None::<OpenGLVersion>,
    {
        VersionCache { version: None }
    }

    /// The cached version, if one has been recorded.
    pub fn cached(&self) -> (r: Option<OpenGLVersion>)
        ensures
            r == self@,
    {
        self.version
    }

    /// Returns the cached version; only when none is cached yet is `query`
    /// called for the driver's version string, which is then parsed and,
    /// if well formed, cached.
    pub fn get_opengl_version<F: FnOnce() -> String>(&mut self, query: F) -> (r: Option<
        OpenGLVersion,
    >)
        requires
            old(self)@ is None ==> query.requires(()),
        ensures
            old(self)@ is Some ==> r == old(self)@,
            old(self)@ is None ==> exists|s: String|
                #[trigger] query.ensures((), s) && r == spec_lookup(old(self)@, s@),
            final(self)@ == r,
    {
        match self.version {
            Some(v) => Some(v),
            None => {
                let reported = query();
                let parsed = parse_version(reported.as_str());
                self.version = parsed;
                parsed
            },
        }
    }
}

/// Once a lookup has produced a version, every later lookup produces the
/// same version, whatever the driver would report by then.
pub proof fn lemma_cached_version_is_stable(
    cached: Option<OpenGLVersion>,
    first_report: Seq<char>,
    later_report: Seq<char>,
)
    requires
        spec_lookup(cached, first_report) is Some,
    ensures
        spec_lookup(spec_lookup(cached, first_report), later_report) == spec_lookup(
            cached,
            first_report,
        ),
{
}

} // verus!
