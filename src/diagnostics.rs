use vstd::prelude::*;
use vstd::string::StringExecFns;

verus! {

/// A code from the driver's error-flag queue.
#[derive(Debug, Clone, Copy, PartialEq, Eq, Structural)]
pub enum ErrorCode {
    NoError,
    InvalidEnum,
    InvalidValue,
    InvalidOperation,
    InvalidFramebufferOperation,
    StackOverflow,
    StackUnderflow,
    OutOfMemory,
    /// Any value the API does not define as an error code.
    Unknown,
}

pub open spec fn spec_error_code(raw: u32) -> ErrorCode {
    if raw == 0 {
        ErrorCode::NoError
    } else if raw == 0x0500 {
        ErrorCode::InvalidEnum
    } else if raw == 0x0501 {
        ErrorCode::InvalidValue
    } else if raw == 0x0502 {
        ErrorCode::InvalidOperation
    } else if raw == 0x0503 {
        ErrorCode::StackOverflow
    } else if raw == 0x0504 {
        ErrorCode::StackUnderflow
    } else if raw == 0x0505 {
        ErrorCode::OutOfMemory
    } else if raw == 0x0506 {
        ErrorCode::InvalidFramebufferOperation
    } else {
        ErrorCode::Unknown
    }
}

pub open spec fn spec_error_code_name(c: ErrorCode) -> Seq<char> {
    match c {
        ErrorCode::NoError => "NoError"@,
        ErrorCode::InvalidEnum => "InvalidEnum"@,
        ErrorCode::InvalidValue => "InvalidValue"@,
        ErrorCode::InvalidOperation => "InvalidOperation"@,
        ErrorCode::InvalidFramebufferOperation => "InvalidFramebufferOperation"@,
        ErrorCode::StackOverflow => "StackOverflow"@,
        ErrorCode::StackUnderflow => "StackUnderflow"@,
        ErrorCode::OutOfMemory => "OutOfMemory"@,
        ErrorCode::Unknown => "Unknown"@,
    }
}

impl ErrorCode {
    /// Maps a raw error value onto the codes the API defines.
    pub fn from_raw(raw: u32) -> (r: ErrorCode)
        ensures
            r == spec_error_code(raw),
    {
        if raw == 0 {
            ErrorCode::NoError
        } else if raw == 0x0500 {
            ErrorCode::InvalidEnum
        } else if raw == 0x0501 {
            ErrorCode::InvalidValue
        } else if raw == 0x0502 {
            ErrorCode::InvalidOperation
        } else if raw == 0x0503 {
            ErrorCode::StackOverflow
        } else if raw == 0x0504 {
            ErrorCode::StackUnderflow
        } else if raw == 0x0505 {
            ErrorCode::OutOfMemory
        } else if raw == 0x0506 {
            ErrorCode::InvalidFramebufferOperation
        } else {
            ErrorCode::Unknown
        }
    }

    pub fn name(&self) -> (r: String)
        ensures
            r@ == spec_error_code_name(*self),
    {
        match self {
            ErrorCode::NoError => String::from_str("NoError"),
            ErrorCode::InvalidEnum => String::from_str("InvalidEnum"),
            ErrorCode::InvalidValue => String::from_str("InvalidValue"),
            ErrorCode::InvalidOperation => String::from_str("InvalidOperation"),
            ErrorCode::InvalidFramebufferOperation => String::from_str(
                "InvalidFramebufferOperation",
            ),
            ErrorCode::StackOverflow => String::from_str("StackOverflow"),
            ErrorCode::StackUnderflow => String::from_str("StackUnderflow"),
            ErrorCode::OutOfMemory => String::from_str("OutOfMemory"),
            ErrorCode::Unknown => String::from_str("Unknown"),
        }
    }
}

/// What the basic check reports for the codes drained from the queue: one
/// line per code.
pub open spec fn spec_basic_message(codes: Seq<ErrorCode>) -> Seq<char>
    decreases codes.len(),
{
    if codes.len() == 0 {
        Seq::empty()
    } else {
        spec_basic_message(codes.drop_last()) + spec_error_code_name(codes.last()) + "\n"@
    }
}

/// What the driver is asked for next while a check drains its queue, or
/// the check's verdict.
#[derive(Debug)]
pub enum CheckStep {
    /// Fetch the next entry of the queue.
    Poll,
    /// Print the message as a warning, then fetch the next entry.
    Warn(String),
    /// The queue is empty and held nothing fatal.
    Pass,
    /// The queue is empty; the message lists everything fatal it held.
    Fail(String),
}

/// Drains the error-flag queue: every code up to the first `NoError` is
/// collected into one message.
pub struct BasicErrorCheck {
    message: String,
    finished: bool,
    codes: Ghost<Seq<ErrorCode>>,
}

impl BasicErrorCheck {
    /// The codes collected so far.
    pub closed spec fn reported(&self) -> Seq<ErrorCode> {
        self.codes@
    }

    /// Whether the queue was found empty and the verdict given.
    pub closed spec fn is_finished(&self) -> bool {
        self.finished
    }

    pub closed spec fn wf(&self) -> bool {
        &&& self.message@ == spec_basic_message(self.codes@)
        &&& forall|i: int| 0 <= i < self.codes@.len() ==> #[trigger] self.codes@[i] != ErrorCode::NoError
    }

    pub fn new() -> (r: Self)
        ensures
            r.wf(),
            r.reported() == Seq::<ErrorCode>::empty(),
            !r.is_finished(),
    {
        BasicErrorCheck { message: String::new(), finished: false, codes: Ghost(Seq::empty()) }
    }

    /// Whether the verdict has been given.
    pub fn finished(&self) -> (r: bool)
        ensures
            r == self.is_finished(),
    {
        self.finished
    }

    /// Takes the next raw value read from the queue.
    pub fn next(&mut self, raw: u32) -> (step: CheckStep)
        requires
            old(self).wf(),
            !old(self).is_finished(),
        ensures
            final(self).wf(),
            spec_error_code(raw) != ErrorCode::NoError ==> {
                &&& step is Poll
                &&& final(self).reported() == old(self).reported().push(spec_error_code(raw))
                &&& !final(self).is_finished()
            },
            spec_error_code(raw) == ErrorCode::NoError ==> {
                &&& final(self).reported() == old(self).reported()
                &&& final(self).is_finished()
                &&& old(self).reported().len() == 0 ==> step is Pass
                &&& old(self).reported().len() > 0 ==> (step matches CheckStep::Fail(m) && m@
                    == spec_basic_message(old(self).reported()))
            },
    {
        let code = ErrorCode::from_raw(raw);
        match code {
            ErrorCode::NoError => {
                self.finished = true;
                if self.message.as_str().is_empty() {
                    proof {
                        if self.codes@.len() > 0 {
                            lemma_basic_message_nonempty(self.codes@);
                        }
                    }
                    CheckStep::Pass
                } else {
                    proof {
                        if self.codes@.len() == 0 {
                            assert(self.message@ =~= Seq::<char>::empty());
                        }
                    }
                    CheckStep::Fail(self.message.clone())
                }
            },
            _ => {
                let name = code.name();
                self.message.append(name.as_str());
                self.message.append("\n");
                let ghost old_codes = self.codes@;
                self.codes = Ghost(self.codes@.push(code));
                proof {
                    assert(self.codes@.drop_last() =~= old_codes);
                }
                CheckStep::Poll
            },
        }
    }
}

/// Where a debug message comes from.
#[derive(Debug, Clone, Copy, PartialEq, Eq, Structural)]
pub enum DebugSource {
    Api,
    WindowSystem,
    ShaderCompiler,
    ThirdParty,
    Application,
    Other,
    Unknown,
}

/// What kind of event a debug message reports.
#[derive(Debug, Clone, Copy, PartialEq, Eq, Structural)]
pub enum DebugType {
    Error,
    DeprecatedBehaviour,
    UndefinedBehaviour,
    Portability,
    Performance,
    Marker,
    PushGroup,
    PopGroup,
    Other,
    Unknown,
}

/// How serious a debug message is.
#[derive(Debug, Clone, Copy, PartialEq, Eq, Structural)]
pub enum DebugSeverity {
    High,
    Medium,
    Low,
    Notification,
    Unknown,
}

pub open spec fn spec_debug_source(raw: u32) -> DebugSource {
    if raw == 0x8246 {
        DebugSource::Api
    } else if raw == 0x8247 {
        DebugSource::WindowSystem
    } else if raw == 0x8248 {
        DebugSource::ShaderCompiler
    } else if raw == 0x8249 {
        DebugSource::ThirdParty
    } else if raw == 0x824A {
        DebugSource::Application
    } else if raw == 0x824B {
        DebugSource::Other
    } else {
        DebugSource::Unknown
    }
}

pub open spec fn spec_debug_type(raw: u32) -> DebugType {
    if raw == 0x824C {
        DebugType::Error
    } else if raw == 0x824D {
        DebugType::DeprecatedBehaviour
    } else if raw == 0x824E {
        DebugType::UndefinedBehaviour
    } else if raw == 0x824F {
        DebugType::Portability
    } else if raw == 0x8250 {
        DebugType::Performance
    } else if raw == 0x8251 {
        DebugType::Other
    } else if raw == 0x8268 {
        DebugType::Marker
    } else if raw == 0x8269 {
        DebugType::PushGroup
    } else if raw == 0x826A {
        DebugType::PopGroup
    } else {
        DebugType::Unknown
    }
}

pub open spec fn spec_debug_severity(raw: u32) -> DebugSeverity {
    if raw == 0x9146 {
        DebugSeverity::High
    } else if raw == 0x9147 {
        DebugSeverity::Medium
    } else if raw == 0x9148 {
        DebugSeverity::Low
    } else if raw == 0x826B {
        DebugSeverity::Notification
    } else {
        DebugSeverity::Unknown
    }
}

pub open spec fn spec_source_name(s: DebugSource) -> Seq<char> {
    match s {
        DebugSource::Api => "API"@,
        DebugSource::WindowSystem => "WindowSystem"@,
        DebugSource::ShaderCompiler => "ShaderCompiler"@,
        DebugSource::ThirdParty => "ThirdParty"@,
        DebugSource::Application => "Application"@,
        DebugSource::Other => "Other"@,
        DebugSource::Unknown => "Unknown"@,
    }
}

pub open spec fn spec_type_name(t: DebugType) -> Seq<char> {
    match t {
        DebugType::Error => "Error"@,
        DebugType::DeprecatedBehaviour => "DeprecatedBehaviour"@,
        DebugType::UndefinedBehaviour => "UndefinedBehaviour"@,
        DebugType::Portability => "Portability"@,
        DebugType::Performance => "Performance"@,
        DebugType::Marker => "Marker"@,
        DebugType::PushGroup => "PushGroup"@,
        DebugType::PopGroup => "PopGroup"@,
        DebugType::Other => "Other"@,
        DebugType::Unknown => "Unknown"@,
    }
}

pub open spec fn spec_severity_name(s: DebugSeverity) -> Seq<char> {
    match s {
        DebugSeverity::High => "High"@,
        DebugSeverity::Medium => "Medium"@,
        DebugSeverity::Low => "Low"@,
        DebugSeverity::Notification => "Notification"@,
        DebugSeverity::Unknown => "Unknown"@,
    }
}

impl DebugSource {
    pub fn from_raw(raw: u32) -> (r: DebugSource)
        ensures
            r == spec_debug_source(raw),
    {
        if raw == 0x8246 {
            DebugSource::Api
        } else if raw == 0x8247 {
            DebugSource::WindowSystem
        } else if raw == 0x8248 {
            DebugSource::ShaderCompiler
        } else if raw == 0x8249 {
            DebugSource::ThirdParty
        } else if raw == 0x824A {
            DebugSource::Application
        } else if raw == 0x824B {
            DebugSource::Other
        } else {
            DebugSource::Unknown
        }
    }

    pub fn name(&self) -> (r: String)
        ensures
            r@ == spec_source_name(*self),
    {
        match self {
            DebugSource::Api => String::from_str("API"),
            DebugSource::WindowSystem => String::from_str("WindowSystem"),
            DebugSource::ShaderCompiler => String::from_str("ShaderCompiler"),
            DebugSource::ThirdParty => String::from_str("ThirdParty"),
            DebugSource::Application => String::from_str("Application"),
            DebugSource::Other => String::from_str("Other"),
            DebugSource::Unknown => String::from_str("Unknown"),
        }
    }
}

impl DebugType {
    pub fn from_raw(raw: u32) -> (r: DebugType)
        ensures
            r == spec_debug_type(raw),
    {
        if raw == 0x824C {
            DebugType::Error
        } else if raw == 0x824D {
            DebugType::DeprecatedBehaviour
        } else if raw == 0x824E {
            DebugType::UndefinedBehaviour
        } else if raw == 0x824F {
            DebugType::Portability
        } else if raw == 0x8250 {
            DebugType::Performance
        } else if raw == 0x8251 {
            DebugType::Other
        } else if raw == 0x8268 {
            DebugType::Marker
        } else if raw == 0x8269 {
            DebugType::PushGroup
        } else if raw == 0x826A {
            DebugType::PopGroup
        } else {
            DebugType::Unknown
        }
    }

    pub fn name(&self) -> (r: String)
        ensures
            r@ == spec_type_name(*self),
    {
        match self {
            DebugType::Error => String::from_str("Error"),
            DebugType::DeprecatedBehaviour => String::from_str("DeprecatedBehaviour"),
            DebugType::UndefinedBehaviour => String::from_str("UndefinedBehaviour"),
            DebugType::Portability => String::from_str("Portability"),
            DebugType::Performance => String::from_str("Performance"),
            DebugType::Marker => String::from_str("Marker"),
            DebugType::PushGroup => String::from_str("PushGroup"),
            DebugType::PopGroup => String::from_str("PopGroup"),
            DebugType::Other => String::from_str("Other"),
            DebugType::Unknown => String::from_str("Unknown"),
        }
    }
}

impl DebugSeverity {
    pub fn from_raw(raw: u32) -> (r: DebugSeverity)
        ensures
            r == spec_debug_severity(raw),
    {
        if raw == 0x9146 {
            DebugSeverity::High
        } else if raw == 0x9147 {
            DebugSeverity::Medium
        } else if raw == 0x9148 {
            DebugSeverity::Low
        } else if raw == 0x826B {
            DebugSeverity::Notification
        } else {
            DebugSeverity::Unknown
        }
    }

    pub fn name(&self) -> (r: String)
        ensures
            r@ == spec_severity_name(*self),
    {
        match self {
            DebugSeverity::High => String::from_str("High"),
            DebugSeverity::Medium => String::from_str("Medium"),
            DebugSeverity::Low => String::from_str("Low"),
            DebugSeverity::Notification => String::from_str("Notification"),
            DebugSeverity::Unknown => String::from_str("Unknown"),
        }
    }
}

/// The text reported for one entry of the debug message log.
pub open spec fn spec_debug_text(
    source: DebugSource,
    debug_type: DebugType,
    severity: DebugSeverity,
    text: Seq<char>,
) -> Seq<char> {
    "Source: "@ + spec_source_name(source) + "; Type: "@ + spec_type_name(debug_type)
        + "; Severity: "@ + spec_severity_name(severity) + "\n"@ + text
}

/// One entry of the debug message log.
#[derive(Debug)]
pub struct DebugInfo {
    pub severity: DebugSeverity,
    pub message: String,
}

impl DebugInfo {
    /// Builds the entry from what the driver's log query returned: the count
    /// of messages fetched, the raw source, type and severity values, and the
    /// message text. `None` when no message was fetched.
    pub fn from_raw(
        message_count: u32,
        source: u32,
        debug_type: u32,
        severity: u32,
        text: &str,
    ) -> (r: Option<DebugInfo>)
        ensures
            message_count == 0 ==> r is None,
            message_count > 0 ==> (r matches Some(info) && info.severity == spec_debug_severity(
                severity,
            ) && info.message@ == spec_debug_text(
                spec_debug_source(source),
                spec_debug_type(debug_type),
                spec_debug_severity(severity),
                text@,
            )),
    {
        if message_count == 0 {
            return None;
        }
        let source = DebugSource::from_raw(source);
        let debug_type = DebugType::from_raw(debug_type);
        let severity = DebugSeverity::from_raw(severity);
        let mut message = String::from_str("Source: ");
        message.append(source.name().as_str());
        message.append("; Type: ");
        message.append(debug_type.name().as_str());
        message.append("; Severity: ");
        message.append(severity.name().as_str());
        message.append("\n");
        message.append(text);
        Some(DebugInfo { severity, message })
    }
}

/// What the advanced check reports for the fatal messages drained from the
/// log: each message followed by a line break.
pub open spec fn spec_advanced_message(messages: Seq<Seq<char>>) -> Seq<char>
    decreases messages.len(),
{
    if messages.len() == 0 {
        Seq::empty()
    } else {
        spec_advanced_message(messages.drop_last()) + messages.last() + "\n"@
    }
}

/// Drains the debug message log: notifications are passed on as warnings,
/// every other message is collected into one fatal report.
pub struct AdvancedErrorCheck {
    message: String,
    finished: bool,
    fatal: Ghost<Seq<Seq<char>>>,
}

impl AdvancedErrorCheck {
    /// The texts of the non-notification messages collected so far.
    pub closed spec fn collected(&self) -> Seq<Seq<char>> {
        self.fatal@
    }

    /// Whether the log was found empty and the verdict given.
    pub closed spec fn is_finished(&self) -> bool {
        self.finished
    }

    pub closed spec fn wf(&self) -> bool {
        self.message@ == spec_advanced_message(self.fatal@)
    }

    pub fn new() -> (r: Self)
        ensures
            r.wf(),
            r.collected() == Seq::<Seq<char>>::empty(),
            !r.is_finished(),
    {
        AdvancedErrorCheck { message: String::new(), finished: false, fatal: Ghost(Seq::empty()) }
    }

    /// Whether the verdict has been given.
    pub fn finished(&self) -> (r: bool)
        ensures
            r == self.is_finished(),
    {
        self.finished
    }

    /// Takes the next entry read from the log, `None` once it is empty.
    pub fn next(&mut self, entry: Option<DebugInfo>) -> (step: CheckStep)
        requires
            old(self).wf(),
            !old(self).is_finished(),
        ensures
            final(self).wf(),
            entry is Some && entry->0.severity == DebugSeverity::Notification ==> {
                &&& step matches CheckStep::Warn(m) && m@ == entry->0.message@
                &&& final(self).collected() == old(self).collected()
                &&& !final(self).is_finished()
            },
            entry is Some && entry->0.severity != DebugSeverity::Notification ==> {
                &&& step is Poll
                &&& final(self).collected() == old(self).collected().push(entry->0.message@)
                &&& !final(self).is_finished()
            },
            entry is None ==> {
                &&& final(self).collected() == old(self).collected()
                &&& final(self).is_finished()
                &&& old(self).collected().len() == 0 ==> step is Pass
                &&& old(self).collected().len() > 0 ==> (step matches CheckStep::Fail(m) && m@
                    == spec_advanced_message(old(self).collected()))
            },
    {
        match entry {
            Some(info) => {
                match info.severity {
                    DebugSeverity::Notification => CheckStep::Warn(info.message),
                    _ => {
                        self.message.append(info.message.as_str());
                        self.message.append("\n");
                        let ghost old_fatal = self.fatal@;
                        self.fatal = Ghost(self.fatal@.push(info.message@));
                        proof {
                            assert(self.fatal@.drop_last() =~= old_fatal);
                        }
                        CheckStep::Poll
                    },
                }
            },
            None => {
                self.finished = true;
                if self.message.as_str().is_empty() {
                    proof {
                        if self.fatal@.len() > 0 {
                            lemma_advanced_message_nonempty(self.fatal@);
                        }
                    }
                    CheckStep::Pass
                } else {
                    proof {
                        if self.fatal@.len() == 0 {
                            assert(self.message@ =~= Seq::<char>::empty());
                        }
                    }
                    CheckStep::Fail(self.message.clone())
                }
            },
        }
    }
}

proof fn lemma_advanced_message_nonempty(messages: Seq<Seq<char>>)
    requires
        messages.len() > 0,
    ensures
        spec_advanced_message(messages).len() > 0,
{
    reveal_strlit("\n");
}

/// The buffer size for one debug message, from the driver's reported
/// maximum; a negative report gives an empty buffer.
pub open spec fn spec_message_capacity(reported: i32) -> usize {
    if reported < 0 {
        0
    } else {
        reported as usize
    }
}

/// Process-wide memo of the driver's maximum debug message length: queried
/// on first use and never invalidated.
pub struct MessageLengthCache {
    length: Option<usize>,
}

impl View for MessageLengthCache {
    type V = Option<usize>;

    closed spec fn view(&self) -> Option<usize> {
        self.length
    }
}

impl MessageLengthCache {
    pub fn new() -> (r: Self)
        ensures
            r@ == None::<usize>,
    {
        MessageLengthCache { length: None }
    }

    /// The maximum message length; `query` is called for the driver's value
    /// only when none is cached yet.
    pub fn max_message_length<F: FnOnce() -> i32>(&mut self, query: F) -> (r: usize)
        requires
            old(self)@ is None ==> query.requires(()),
        ensures
            old(self)@ is Some ==> r == old(self)@->0,
            old(self)@ is None ==> exists|v: i32|
                #[trigger] query.ensures((), v) && r == spec_message_capacity(v),
            final(self)@ == Some(r),
    {
        match self.length {
            Some(n) => n,
            None => {
                let reported = query();
                let n: usize = if reported < 0 {
                    0
                } else {
                    reported as usize
                };
                self.length = Some(n);
                n
            },
        }
    }
}

proof fn lemma_basic_message_nonempty(codes: Seq<ErrorCode>)
    requires
        codes.len() > 0,
    ensures
        spec_basic_message(codes).len() > 0,
{
    reveal_strlit("\n");
}

} // verus!
