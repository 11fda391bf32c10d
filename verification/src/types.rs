//! The telemetry events of the ingest wire protocol and the enumerations
//! they carry, with the names under which each enumeration travels.

use vstd::prelude::*;

verus! {

/// The platform an event comes from.
#[derive(Clone, Copy, Debug, PartialEq, Eq, Structural)]
pub enum Platform {
    Web,
    Android,
    Ios,
}

/// Severity of a log line.
#[derive(Clone, Copy, Debug, PartialEq, Eq, Structural)]
pub enum LogLevel {
    Debug,
    Info,
    Warn,
    Error,
    Fatal,
}

/// Severity of a reported exception.
#[derive(Clone, Copy, Debug, PartialEq, Eq, Structural)]
pub enum IssueLevel {
    Info,
    Warning,
    Error,
    Fatal,
}

/// Kind of a real-user-monitoring event.
#[derive(Clone, Copy, Debug, PartialEq, Eq, Structural)]
pub enum RumEventType {
    Vital,
    PageView,
    ScreenView,
    Custom,
}

/// The wire name of a platform.
pub open spec fn platform_name(p: Platform) -> Seq<char> {
    match p {
        Platform::Web => "web"@,
        Platform::Android => "android"@,
        Platform::Ios => "ios"@,
    }
}

/// The platform whose wire name is `s`.
pub open spec fn platform_from_name(s: Seq<char>) -> Option<Platform> {
    if s == "web"@ {
        Some(Platform::Web)
    } else if s == "android"@ {
        Some(Platform::Android)
    } else if s == "ios"@ {
        Some(Platform::Ios)
    } else {
        None
    }
}

/// The wire name of a log level.
pub open spec fn log_level_name(l: LogLevel) -> Seq<char> {
    match l {
        LogLevel::Debug => "debug"@,
        LogLevel::Info => "info"@,
        LogLevel::Warn => "warn"@,
        LogLevel::Error => "error"@,
        LogLevel::Fatal => "fatal"@,
    }
}

/// The log level that `s` names; `warning` is read as `warn`.
pub open spec fn log_level_from_name(s: Seq<char>) -> Option<LogLevel> {
    if s == "debug"@ {
        Some(LogLevel::Debug)
    } else if s == "info"@ {
        Some(LogLevel::Info)
    } else if s == "warn"@ || s == "warning"@ {
        Some(LogLevel::Warn)
    } else if s == "error"@ {
        Some(LogLevel::Error)
    } else if s == "fatal"@ {
        Some(LogLevel::Fatal)
    } else {
        None
    }
}

/// The wire name of an issue level.
pub open spec fn issue_level_name(l: IssueLevel) -> Seq<char> {
    match l {
        IssueLevel::Info => "info"@,
        IssueLevel::Warning => "warning"@,
        IssueLevel::Error => "error"@,
        IssueLevel::Fatal => "fatal"@,
    }
}

/// The issue level that `s` names; `warn` is read as `warning`.
pub open spec fn issue_level_from_name(s: Seq<char>) -> Option<IssueLevel> {
    if s == "info"@ {
        Some(IssueLevel::Info)
    } else if s == "warning"@ || s == "warn"@ {
        Some(IssueLevel::Warning)
    } else if s == "error"@ {
        Some(IssueLevel::Error)
    } else if s == "fatal"@ {
        Some(IssueLevel::Fatal)
    } else {
        None
    }
}

/// The wire name of a RUM event type.
pub open spec fn rum_event_type_name(t: RumEventType) -> Seq<char> {
    match t {
        RumEventType::Vital => "vital"@,
        RumEventType::PageView => "page_view"@,
        RumEventType::ScreenView => "screen_view"@,
        RumEventType::Custom => "custom"@,
    }
}

proof fn lemma_wire_names()
    ensures
        "web"@ =~= seq!['w', 'e', 'b'],
        "android"@ =~= seq!['a', 'n', 'd', 'r', 'o', 'i', 'd'],
        "ios"@ =~= seq!['i', 'o', 's'],
        "debug"@ =~= seq!['d', 'e', 'b', 'u', 'g'],
        "info"@ =~= seq!['i', 'n', 'f', 'o'],
        "warn"@ =~= seq!['w', 'a', 'r', 'n'],
        "warning"@ =~= seq!['w', 'a', 'r', 'n', 'i', 'n', 'g'],
        "error"@ =~= seq!['e', 'r', 'r', 'o', 'r'],
        "fatal"@ =~= seq!['f', 'a', 't', 'a', 'l'],
{
    reveal_strlit("web");
    reveal_strlit("android");
    reveal_strlit("ios");
    reveal_strlit("debug");
    reveal_strlit("info");
    reveal_strlit("warn");
    reveal_strlit("warning");
    reveal_strlit("error");
    reveal_strlit("fatal");
}

/// Every platform is read back from its wire name, and a wire name is read
/// only as the platform that carries it.
pub proof fn law_platform_names_round_trip(p: Platform, s: Seq<char>)
    ensures
        platform_from_name(platform_name(p)) == Some(p),
        platform_from_name(s) matches Some(q) ==> platform_name(q) == s,
{
    lemma_wire_names();
}

/// Every log level is read back from its wire name; a name is read as a
/// level only when it is that level's wire name, or `warning` for `warn`.
pub proof fn law_log_level_names_round_trip(l: LogLevel, s: Seq<char>)
    ensures
        log_level_from_name(log_level_name(l)) == Some(l),
        log_level_from_name(s) matches Some(m) ==> s == log_level_name(m) || (m == LogLevel::Warn
            && s == "warning"@),
{
    lemma_wire_names();
}

/// Every issue level is read back from its wire name; a name is read as a
/// level only when it is that level's wire name, or `warn` for `warning`.
pub proof fn law_issue_level_names_round_trip(l: IssueLevel, s: Seq<char>)
    ensures
        issue_level_from_name(issue_level_name(l)) == Some(l),
        issue_level_from_name(s) matches Some(m) ==> s == issue_level_name(m) || (m
            == IssueLevel::Warning && s == "warn"@),
{
    lemma_wire_names();
}

/// The error text for a name that no variant carries.
pub open spec fn unknown_name_error(what: Seq<char>, s: Seq<char>) -> Seq<char> {
    "unknown "@ + what + ": "@ + s
}

fn unknown_name(what: &str, s: &str) -> (r: String)
    ensures
        r@ == unknown_name_error(what@, s@),
{
    let mut r = String::from_str("unknown ");
    r.append(what);
    r.append(": ");
    r.append(s);
    r
}

impl Platform {
    /// The wire name.
    pub fn as_str(&self) -> (r: &'static str)
        ensures
            r@ == platform_name(*self),
    {
        match self {
            Platform::Web => "web",
            Platform::Android => "android",
            Platform::Ios => "ios",
        }
    }

    /// The wire name, as the `Display` of the platform shows it.
    pub fn to_string(&self) -> (r: String)
        ensures
            r@ == platform_name(*self),
    {
        String::from_str(self.as_str())
    }

    /// Reads a wire name; any other text is refused with
    /// `unknown platform: <text>`.
    pub fn parse_name(s: &str) -> (r: Result<Platform, String>)
        ensures
            match platform_from_name(s@) {
                Some(p) => r == Ok::<Platform, String>(p),
                None => r matches Err(e) && e@ == unknown_name_error("platform"@, s@),
            },
    {
        if crate::text::str_eq(s, "web") {
            Ok(Platform::Web)
        } else if crate::text::str_eq(s, "android") {
            Ok(Platform::Android)
        } else if crate::text::str_eq(s, "ios") {
            Ok(Platform::Ios)
        } else {
            Err(unknown_name("platform", s))
        }
    }
}

impl std::str::FromStr for Platform {
    type Err = String;

    fn from_str(s: &str) -> (r: Result<Platform, String>)
        ensures
            match platform_from_name(s@) {
                Some(p) => r == Ok::<Platform, String>(p),
                None => (r matches Err(e) && e@ == unknown_name_error("platform"@, s@)),
            },
    {
        Platform::parse_name(s)
    }
}

impl LogLevel {
    /// The wire name.
    pub fn as_str(&self) -> (r: &'static str)
        ensures
            r@ == log_level_name(*self),
    {
        match self {
            LogLevel::Debug => "debug",
            LogLevel::Info => "info",
            LogLevel::Warn => "warn",
            LogLevel::Error => "error",
            LogLevel::Fatal => "fatal",
        }
    }

    /// The wire name, as the `Display` of the level shows it.
    pub fn to_string(&self) -> (r: String)
        ensures
            r@ == log_level_name(*self),
    {
        String::from_str(self.as_str())
    }

    /// Reads a level name (`warning` stands for `warn`); any other text is
    /// refused with `unknown log level: <text>`.
    pub fn parse_name(s: &str) -> (r: Result<LogLevel, String>)
        ensures
            match log_level_from_name(s@) {
                Some(l) => r == Ok::<LogLevel, String>(l),
                None => r matches Err(e) && e@ == unknown_name_error("log level"@, s@),
            },
    {
        if crate::text::str_eq(s, "debug") {
            Ok(LogLevel::Debug)
        } else if crate::text::str_eq(s, "info") {
            Ok(LogLevel::Info)
        } else if crate::text::str_eq(s, "warn") || crate::text::str_eq(s, "warning") {
            Ok(LogLevel::Warn)
        } else if crate::text::str_eq(s, "error") {
            Ok(LogLevel::Error)
        } else if crate::text::str_eq(s, "fatal") {
            Ok(LogLevel::Fatal)
        } else {
            Err(unknown_name("log level", s))
        }
    }
}

impl std::str::FromStr for LogLevel {
    type Err = String;

    fn from_str(s: &str) -> (r: Result<LogLevel, String>)
        ensures
            match log_level_from_name(s@) {
                Some(l) => r == Ok::<LogLevel, String>(l),
                None => (r matches Err(e) && e@ == unknown_name_error("log level"@, s@)),
            },
    {
        LogLevel::parse_name(s)
    }
}

impl IssueLevel {
    /// The wire name.
    pub fn as_str(&self) -> (r: &'static str)
        ensures
            r@ == issue_level_name(*self),
    {
        match self {
            IssueLevel::Info => "info",
            IssueLevel::Warning => "warning",
            IssueLevel::Error => "error",
            IssueLevel::Fatal => "fatal",
        }
    }

    /// The wire name, as the `Display` of the level shows it.
    pub fn to_string(&self) -> (r: String)
        ensures
            r@ == issue_level_name(*self),
    {
        String::from_str(self.as_str())
    }

    /// Reads a level name (`warn` stands for `warning`); any other text is
    /// refused with `unknown issue level: <text>`.
    pub fn parse_name(s: &str) -> (r: Result<IssueLevel, String>)
        ensures
            match issue_level_from_name(s@) {
                Some(l) => r == Ok::<IssueLevel, String>(l),
                None => r matches Err(e) && e@ == unknown_name_error("issue level"@, s@),
            },
    {
        if crate::text::str_eq(s, "info") {
            Ok(IssueLevel::Info)
        } else if crate::text::str_eq(s, "warning") || crate::text::str_eq(s, "warn") {
            Ok(IssueLevel::Warning)
        } else if crate::text::str_eq(s, "error") {
            Ok(IssueLevel::Error)
        } else if crate::text::str_eq(s, "fatal") {
            Ok(IssueLevel::Fatal)
        } else {
            Err(unknown_name("issue level", s))
        }
    }
}

impl std::str::FromStr for IssueLevel {
    type Err = String;

    fn from_str(s: &str) -> (r: Result<IssueLevel, String>)
        ensures
            match issue_level_from_name(s@) {
                Some(l) => r == Ok::<IssueLevel, String>(l),
                None => (r matches Err(e) && e@ == unknown_name_error("issue level"@, s@)),
            },
    {
        IssueLevel::parse_name(s)
    }
}

impl RumEventType {
    /// The wire name.
    pub fn as_str(&self) -> (r: &'static str)
        ensures
            r@ == rum_event_type_name(*self),
    {
        match self {
            RumEventType::Vital => "vital",
            RumEventType::PageView => "page_view",
            RumEventType::ScreenView => "screen_view",
            RumEventType::Custom => "custom",
        }
    }
}

/// A user session.
#[derive(Clone, Debug, PartialEq)]
pub struct Session {
    pub session_key: String,
    pub platform: Platform,
    pub release: Option<String>,
    pub device_os: Option<String>,
    pub country: Option<String>,
    pub started_at: u64,
}

/// A real-user-monitoring event. Its measured value travels as a JSON
/// number; here it is held as the IEEE 754 bit pattern of that `f64`.
#[derive(Clone, Debug, PartialEq)]
pub struct RumEvent {
    pub event_type: RumEventType,
    pub name: String,
    pub value_bits: Option<u64>,
    pub platform: Platform,
    pub route: Option<String>,
    pub session_key: Option<String>,
    pub release: Option<String>,
    pub timestamp: u64,
}

/// One traced API request.
#[derive(Clone, Debug, PartialEq)]
pub struct ApiSpan {
    pub method: String,
    pub route: String,
    pub status: u16,
    pub duration_ms: u64,
    pub platform: Platform,
    pub trace_id: Option<String>,
    pub span_id: Option<String>,
    pub parent_span_id: Option<String>,
    pub name: Option<String>,
    pub op: Option<String>,
    pub session_key: Option<String>,
    pub release: Option<String>,
    pub timestamp: u64,
}

/// A reported exception.
#[derive(Clone, Debug, PartialEq)]
pub struct Exception {
    pub message: String,
    pub stack: Option<String>,
    pub platform: Platform,
    pub route: Option<String>,
    pub level: Option<IssueLevel>,
    pub session_key: Option<String>,
    pub trace_id: Option<String>,
    pub release: Option<String>,
    pub timestamp: u64,
}

/// A structured log line.
#[derive(Clone, Debug, PartialEq)]
pub struct LogEvent {
    pub level: LogLevel,
    pub message: String,
    pub attrs_json: Option<String>,
    pub platform: Platform,
    pub release: Option<String>,
    pub session_key: Option<String>,
    pub trace_id: Option<String>,
    pub timestamp: u64,
}

/// What one ingest request carries.
#[derive(Clone, Debug, PartialEq)]
pub struct IngestBatch {
    pub sessions: Vec<Session>,
    pub rum_events: Vec<RumEvent>,
    pub api_spans: Vec<ApiSpan>,
    pub exceptions: Vec<Exception>,
    pub logs: Vec<LogEvent>,
}

impl IngestBatch {
    /// A batch that carries no event.
    pub open spec fn is_empty_batch(&self) -> bool {
        &&& self.sessions@.len() == 0
        &&& self.rum_events@.len() == 0
        &&& self.api_spans@.len() == 0
        &&& self.exceptions@.len() == 0
        &&& self.logs@.len() == 0
    }

    /// The number of events of all kinds.
    pub open spec fn event_count(&self) -> nat {
        self.sessions@.len() + self.rum_events@.len() + self.api_spans@.len()
            + self.exceptions@.len() + self.logs@.len()
    }
}

impl Default for IngestBatch {
    fn default() -> (b: IngestBatch)
        ensures
            b.is_empty_batch(),
    {
        IngestBatch {
            sessions: Vec::new(),
            rum_events: Vec::new(),
            api_spans: Vec::new(),
            exceptions: Vec::new(),
            logs: Vec::new(),
        }
    }
}

} // verus!
