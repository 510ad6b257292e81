//! Logging vocabulary: correlation contexts that travel with a request,
//! output formats and levels with their textual names, and the logging
//! configuration.
//!
//! Installing a subscriber and entering spans happen outside this module.

use vstd::prelude::*;
use crate::error::{Error, Result};
use crate::shared_types::IntoText;
use crate::text::{
    ascii_lower, eq_ignore_ascii_case, eq_ignore_ascii_case_spec, owned, push_char, push_str,
};

verus! {

// ============================================================================
// Correlation identifiers
// ============================================================================

/// A lowercase hexadecimal digit.
pub open spec fn is_lower_hex(c: char) -> bool {
    ('0' <= c && c <= '9') || ('a' <= c && c <= 'f')
}

/// The positions of the hyphens in a hyphenated UUID.
pub open spec fn is_uuid_hyphen_position(i: int) -> bool {
    i == 8 || i == 13 || i == 18 || i == 23
}

/// The text of a random (version 4, RFC 4122 variant) UUID in lowercase
/// hyphenated form: `xxxxxxxx-xxxx-4xxx-[89ab]xxx-xxxxxxxxxxxx`.
pub open spec fn is_uuid_v4_text(s: Seq<char>) -> bool {
    &&& s.len() == 36
    &&& forall|i: int|
        0 <= i < 36 ==> if is_uuid_hyphen_position(i) {
            s[i] == '-'
        } else {
            is_lower_hex(#[trigger] s[i])
        }
    &&& s[14] == '4'
    &&& (s[19] == '8' || s[19] == '9' || s[19] == 'a' || s[19] == 'b')
}

/// `Uuid::new_v4().to_string()`: the uuid crate draws 122 random bits,
/// fixes the version nibble to 4 and the variant bits to `10`, and
/// displays the value as 36 lowercase characters with hyphens after the
/// 8th, 12th, 16th and 20th hexadecimal digit.  Which bits were drawn is
/// left unsaid.
#[verifier::external_body]
fn random_uuid_text() -> (r: String)
    ensures
        is_uuid_v4_text(r@),
{
    uuid::Uuid::new_v4().to_string()
}

/// A new correlation identifier: the text of a random version-4 UUID.
pub fn generate_correlation_id() -> (r: String)
    ensures
        is_uuid_v4_text(r@),
{
    random_uuid_text()
}

/// A short correlation identifier: the first eight characters of a
/// random version-4 UUID.
pub fn generate_short_correlation_id() -> (r: String)
    ensures
        r@.len() == 8,
        forall|i: int| 0 <= i < 8 ==> is_lower_hex(#[trigger] r@[i]),
        exists|u: Seq<char>| is_uuid_v4_text(u) && r@ == u.subrange(0, 8),
{
    let full = random_uuid_text();
    let mut r = String::new();
    let mut i: usize = 0;
    while i < 8
        invariant
            is_uuid_v4_text(full@),
            i <= 8,
            r@ == full@.subrange(0, i as int),
        decreases 8 - i,
    {
        push_char(&mut r, full.as_str().get_char(i));
        i = i + 1;
        assert(r@ =~= full@.subrange(0, i as int));
    }
    assert(forall|k: int| 0 <= k < 8 ==> !is_uuid_hyphen_position(k));
    assert(forall|k: int| 0 <= k < 8 ==> is_lower_hex(#[trigger] r@[k])) by {
        assert forall|k: int| 0 <= k < 8 implies is_lower_hex(#[trigger] r@[k]) by {
            assert(r@[k] == full@[k]);
        }
    }
    r
}

// ============================================================================
// LogContext
// ============================================================================

/// Log context for correlation and tracing: a correlation identifier and
/// the service, layer, module and agent an operation runs under.
#[derive(Debug, Clone)]
pub struct LogContext {
    /// Unique correlation ID for request tracing.
    pub correlation_id: String,
    /// Service identifier (e.g. "maintenance-engine").
    pub service_id: Option<String>,
    /// Layer identifier (e.g. "L1").
    pub layer: Option<String>,
    /// Module identifier (e.g. "M03").
    pub module: Option<String>,
    /// Agent identity for attribution.
    pub agent_id: Option<String>,
}

/// The text of an optional string.
pub open spec fn opt_text(o: Option<String>) -> Option<Seq<char>> {
    match o {
        Some(s) => Some(s@),
        None => None,
    }
}

/// The values of a [`LogContext`].
pub struct LogContextView {
    pub correlation_id: Seq<char>,
    pub service_id: Option<Seq<char>>,
    pub layer: Option<Seq<char>>,
    pub module: Option<Seq<char>>,
    pub agent_id: Option<Seq<char>>,
}

impl View for LogContext {
    type V = LogContextView;

    open spec fn view(&self) -> LogContextView {
        LogContextView {
            correlation_id: self.correlation_id@,
            service_id: opt_text(self.service_id),
            layer: opt_text(self.layer),
            module: opt_text(self.module),
            agent_id: opt_text(self.agent_id),
        }
    }
}

fn clone_opt(o: &Option<String>) -> (r: Option<String>)
    ensures
        opt_text(r) == opt_text(*o),
{
    match o {
        Some(s) => Some(s.clone()),
        None => None,
    }
}

/// `" key=value"` when the value is present, else nothing.
pub open spec fn field_text(key: Seq<char>, v: Option<Seq<char>>) -> Seq<char> {
    match v {
        Some(t) => " "@ + key + "="@ + t,
        None => Seq::empty(),
    }
}

/// The text a context displays as:
/// `corr_id=<id>[ service=<s>][ layer=<l>][ module=<m>][ agent=<a>]`.
pub open spec fn context_text(c: LogContextView) -> Seq<char> {
    "corr_id="@ + c.correlation_id + field_text("service"@, c.service_id) + field_text(
        "layer"@,
        c.layer,
    ) + field_text("module"@, c.module) + field_text("agent"@, c.agent_id)
}

fn push_field(out: &mut String, key: &str, v: &Option<String>)
    ensures
        final(out)@ == old(out)@ + field_text(key@, opt_text(*v)),
{
    match v {
        Some(t) => {
            push_char(out, ' ');
            push_str(out, key);
            push_char(out, '=');
            push_str(out, t.as_str());
            assert(final(out)@ =~= old(out)@ + field_text(key@, opt_text(*v))) by {
                reveal_strlit(" ");
                reveal_strlit("=");
            }
        },
        None => {
            assert(final(out)@ =~= old(out)@ + field_text(key@, opt_text(*v)));
        },
    }
}

impl LogContext {
    /// A context with a fresh correlation ID and nothing else set.
    pub fn new() -> (r: Self)
        ensures
            is_uuid_v4_text(r@.correlation_id),
            r@.service_id is None,
            r@.layer is None,
            r@.module is None,
            r@.agent_id is None,
    {
        LogContext {
            correlation_id: generate_correlation_id(),
            service_id: None,
            layer: None,
            module: None,
            agent_id: None,
        }
    }

    /// A context with a fresh correlation ID and the given service, layer
    /// and module.
    pub fn with_context(service_id: impl IntoText, layer: impl IntoText, module: impl IntoText) -> (r:
        Self)
        ensures
            is_uuid_v4_text(r@.correlation_id),
            r@.service_id == Some(service_id.text()),
            r@.layer == Some(layer.text()),
            r@.module == Some(module.text()),
            r@.agent_id is None,
    {
        LogContext {
            correlation_id: generate_correlation_id(),
            service_id: Some(service_id.into_text()),
            layer: Some(layer.into_text()),
            module: Some(module.into_text()),
            agent_id: None,
        }
    }

    /// A child context carrying every value of this one.
    pub fn child_context(&self) -> (r: Self)
        ensures
            r@ == self@,
    {
        LogContext {
            correlation_id: self.correlation_id.clone(),
            service_id: clone_opt(&self.service_id),
            layer: clone_opt(&self.layer),
            module: clone_opt(&self.module),
            agent_id: clone_opt(&self.agent_id),
        }
    }

    /// A child context with a new module.
    pub fn with_module(&self, module: impl IntoText) -> (r: Self)
        ensures
            r@ == (LogContextView { module: Some(module.text()), ..self@ }),
    {
        LogContext {
            correlation_id: self.correlation_id.clone(),
            service_id: clone_opt(&self.service_id),
            layer: clone_opt(&self.layer),
            module: Some(module.into_text()),
            agent_id: clone_opt(&self.agent_id),
        }
    }

    /// A child context with a new layer.
    pub fn with_layer(&self, layer: impl IntoText) -> (r: Self)
        ensures
            r@ == (LogContextView { layer: Some(layer.text()), ..self@ }),
    {
        LogContext {
            correlation_id: self.correlation_id.clone(),
            service_id: clone_opt(&self.service_id),
            layer: Some(layer.into_text()),
            module: clone_opt(&self.module),
            agent_id: clone_opt(&self.agent_id),
        }
    }

    /// A child context with an agent identity.
    pub fn with_agent(&self, agent_id: impl IntoText) -> (r: Self)
        ensures
            r@ == (LogContextView { agent_id: Some(agent_id.text()), ..self@ }),
    {
        LogContext {
            correlation_id: self.correlation_id.clone(),
            service_id: clone_opt(&self.service_id),
            layer: clone_opt(&self.layer),
            module: clone_opt(&self.module),
            agent_id: Some(agent_id.into_text()),
        }
    }

    /// The text this context displays as.
    pub fn to_display_string(&self) -> (r: String)
        ensures
            r@ == context_text(self@),
    {
        let mut out = owned("corr_id=");
        push_str(&mut out, self.correlation_id.as_str());
        push_field(&mut out, "service", &self.service_id);
        push_field(&mut out, "layer", &self.layer);
        push_field(&mut out, "module", &self.module);
        push_field(&mut out, "agent", &self.agent_id);
        out
    }
}

impl Default for LogContext {
    fn default() -> (r: Self)
        ensures
            r@.correlation_id.len() == 0,
            r@.service_id is None,
            r@.layer is None,
            r@.module is None,
            r@.agent_id is None,
    {
        LogContext {
            correlation_id: String::new(),
            service_id: None,
            layer: None,
            module: None,
            agent_id: None,
        }
    }
}

// ============================================================================
// LogFormat
// ============================================================================

/// Log output format.
#[derive(Debug, Clone, Copy, PartialEq, Eq)]
pub enum LogFormat {
    /// JSON format for structured log aggregation (production).
    Json,
    /// Human-readable pretty format (development).
    Pretty,
    /// Compact single-line format.
    Compact,
}

/// The name of a format.
pub open spec fn format_name(f: LogFormat) -> Seq<char> {
    match f {
        LogFormat::Json => "json"@,
        LogFormat::Pretty => "pretty"@,
        LogFormat::Compact => "compact"@,
    }
}

/// The format a name denotes, in any ASCII letter case.
pub open spec fn format_named(s: Seq<char>) -> Option<LogFormat> {
    if eq_ignore_ascii_case_spec(s, "json"@) {
        Some(LogFormat::Json)
    } else if eq_ignore_ascii_case_spec(s, "pretty"@) {
        Some(LogFormat::Pretty)
    } else if eq_ignore_ascii_case_spec(s, "compact"@) {
        Some(LogFormat::Compact)
    } else {
        None
    }
}

/// Appends `prefix` and `s` to a new string.
fn prefixed(prefix: &str, s: &str) -> (r: String)
    ensures
        r@ == prefix@ + s@,
{
    let mut m = owned(prefix);
    push_str(&mut m, s);
    m
}

impl LogFormat {
    /// Parses a format name, ignoring ASCII letter case.  (Full Unicode
    /// lower-casing agrees with ASCII lower-casing on these names: no
    /// non-ASCII character lower-cases to one of their letters.)
    pub fn parse_str(s: &str) -> (r: Result<Self>)
        ensures
            match format_named(s@) {
                Some(f) => r == Ok::<LogFormat, Error>(f),
                None => r matches Err(Error::Config(m)) && m@ == "Unknown log format: "@ + s@,
            },
    {
        if eq_ignore_ascii_case(s, "json") {
            Ok(LogFormat::Json)
        } else if eq_ignore_ascii_case(s, "pretty") {
            Ok(LogFormat::Pretty)
        } else if eq_ignore_ascii_case(s, "compact") {
            Ok(LogFormat::Compact)
        } else {
            Err(Error::Config(prefixed("Unknown log format: ", s)))
        }
    }

    /// The format's name.
    pub fn to_display_string(&self) -> (r: String)
        ensures
            r@ == format_name(*self),
    {
        match self {
            LogFormat::Json => owned("json"),
            LogFormat::Pretty => owned("pretty"),
            LogFormat::Compact => owned("compact"),
        }
    }
}

impl Default for LogFormat {
    fn default() -> (r: Self)
        ensures
            r == LogFormat::Pretty,
    {
        LogFormat::Pretty
    }
}

impl std::str::FromStr for LogFormat {
    type Err = Error;

    fn from_str(s: &str) -> (r: Result<Self>)
        ensures
            match format_named(s@) {
                Some(f) => r == Ok::<LogFormat, Error>(f),
                None => r matches Err(Error::Config(m)) && m@ == "Unknown log format: "@ + s@,
            },
    {
        Self::parse_str(s)
    }
}

/// Parsing a format's name gives the format back.
pub proof fn lemma_format_name_roundtrip(f: LogFormat)
    ensures
        format_named(format_name(f)) == Some(f),
{
    reveal_strlit("json");
    reveal_strlit("pretty");
    reveal_strlit("compact");
    match f {
        LogFormat::Json => {},
        LogFormat::Pretty => {
            assert("pretty"@.len() != "json"@.len());
        },
        LogFormat::Compact => {
            assert("compact"@.len() != "json"@.len());
            assert("compact"@.len() != "pretty"@.len());
        },
    }
}

// ============================================================================
// LogLevel
// ============================================================================

/// Log level, from the most verbose to the least.
#[derive(Debug, Clone, Copy, PartialEq, Eq, PartialOrd, Ord)]
pub enum LogLevel {
    /// Trace level, most verbose.
    Trace,
    /// Debug level.
    Debug,
    /// Info level (default).
    Info,
    /// Warning level.
    Warn,
    /// Error level, least verbose.
    Error,
}

/// The position of a level in the order of declaration, which is the
/// order that `<` follows.
pub open spec fn level_rank(l: LogLevel) -> int {
    match l {
        LogLevel::Trace => 0,
        LogLevel::Debug => 1,
        LogLevel::Info => 2,
        LogLevel::Warn => 3,
        LogLevel::Error => 4,
    }
}

/// The name of a level.
pub open spec fn level_name(l: LogLevel) -> Seq<char> {
    match l {
        LogLevel::Trace => "trace"@,
        LogLevel::Debug => "debug"@,
        LogLevel::Info => "info"@,
        LogLevel::Warn => "warn"@,
        LogLevel::Error => "error"@,
    }
}

/// The level a name denotes, in any ASCII letter case; `warning` is
/// accepted for `warn`.
pub open spec fn level_named(s: Seq<char>) -> Option<LogLevel> {
    if eq_ignore_ascii_case_spec(s, "trace"@) {
        Some(LogLevel::Trace)
    } else if eq_ignore_ascii_case_spec(s, "debug"@) {
        Some(LogLevel::Debug)
    } else if eq_ignore_ascii_case_spec(s, "info"@) {
        Some(LogLevel::Info)
    } else if eq_ignore_ascii_case_spec(s, "warn"@) || eq_ignore_ascii_case_spec(s, "warning"@) {
        Some(LogLevel::Warn)
    } else if eq_ignore_ascii_case_spec(s, "error"@) {
        Some(LogLevel::Error)
    } else {
        None
    }
}

#[verifier::external_type_specification]
#[verifier::external_body]
pub struct ExTracingLevel(tracing::Level);

impl LogLevel {
    /// Parses a level name, ignoring ASCII letter case (which agrees with
    /// Unicode lower-casing on these names).
    pub fn parse_str(s: &str) -> (r: Result<Self>)
        ensures
            match level_named(s@) {
                Some(l) => r == Ok::<LogLevel, Error>(l),
                None => r matches Err(Error::Config(m)) && m@ == "Unknown log level: "@ + s@,
            },
    {
        if eq_ignore_ascii_case(s, "trace") {
            Ok(LogLevel::Trace)
        } else if eq_ignore_ascii_case(s, "debug") {
            Ok(LogLevel::Debug)
        } else if eq_ignore_ascii_case(s, "info") {
            Ok(LogLevel::Info)
        } else if eq_ignore_ascii_case(s, "warn") || eq_ignore_ascii_case(s, "warning") {
            Ok(LogLevel::Warn)
        } else if eq_ignore_ascii_case(s, "error") {
            Ok(LogLevel::Error)
        } else {
            Err(Error::Config(prefixed("Unknown log level: ", s)))
        }
    }

    /// The `tracing` level of the same name (`Level::TRACE` for `Trace`,
    /// and so on); which constant is handed back is left unsaid here.
    #[verifier::external_body]
    pub fn to_tracing_level(self) -> tracing::Level {
        match self {
            LogLevel::Trace => tracing::Level::TRACE,
            LogLevel::Debug => tracing::Level::DEBUG,
            LogLevel::Info => tracing::Level::INFO,
            LogLevel::Warn => tracing::Level::WARN,
            LogLevel::Error => tracing::Level::ERROR,
        }
    }

    /// The level's position in the order from `Trace` to `Error`.
    pub fn rank(&self) -> (r: u8)
        ensures
            r == level_rank(*self),
    {
        match self {
            LogLevel::Trace => 0,
            LogLevel::Debug => 1,
            LogLevel::Info => 2,
            LogLevel::Warn => 3,
            LogLevel::Error => 4,
        }
    }

    /// The level's name.
    pub fn to_display_string(&self) -> (r: String)
        ensures
            r@ == level_name(*self),
    {
        match self {
            LogLevel::Trace => owned("trace"),
            LogLevel::Debug => owned("debug"),
            LogLevel::Info => owned("info"),
            LogLevel::Warn => owned("warn"),
            LogLevel::Error => owned("error"),
        }
    }
}

impl Default for LogLevel {
    fn default() -> (r: Self)
        ensures
            r == LogLevel::Info,
    {
        LogLevel::Info
    }
}

impl std::str::FromStr for LogLevel {
    type Err = Error;

    fn from_str(s: &str) -> (r: Result<Self>)
        ensures
            match level_named(s@) {
                Some(l) => r == Ok::<LogLevel, Error>(l),
                None => r matches Err(Error::Config(m)) && m@ == "Unknown log level: "@ + s@,
            },
    {
        Self::parse_str(s)
    }
}

/// Parsing a level's name gives the level back.
pub proof fn lemma_level_name_roundtrip(l: LogLevel)
    ensures
        level_named(level_name(l)) == Some(l),
{
    reveal_strlit("trace");
    reveal_strlit("debug");
    reveal_strlit("info");
    reveal_strlit("warn");
    reveal_strlit("warning");
    reveal_strlit("error");
    match l {
        LogLevel::Trace => {
            assert(eq_ignore_ascii_case_spec("trace"@, "trace"@));
        },
        LogLevel::Debug => {
            assert(ascii_lower("debug"@[0]) != ascii_lower("trace"@[0]));
        },
        LogLevel::Info => {},
        LogLevel::Warn => {
            assert(ascii_lower("warn"@[0]) != ascii_lower("info"@[0]));
        },
        LogLevel::Error => {
            assert(ascii_lower("error"@[0]) != ascii_lower("trace"@[0]));
            assert(ascii_lower("error"@[0]) != ascii_lower("debug"@[0]));
        },
    }
}

/// Distinct levels have distinct ranks, and ranks run from `Trace` (0) to
/// `Error` (4).
pub proof fn lemma_level_rank_injective(a: LogLevel, b: LogLevel)
    ensures
        level_rank(a) == level_rank(b) <==> a == b,
        0 <= level_rank(a) <= 4,
{
}

// ============================================================================
// LogConfig
// ============================================================================

/// Logging configuration.
#[derive(Debug, Clone)]
pub struct LogConfig {
    /// Log level filter (e.g. "info", "debug", "trace").
    pub level: String,
    /// Output format.
    pub format: LogFormat,
    /// Include timestamps in output.
    pub include_timestamps: bool,
    /// Include target module paths.
    pub include_targets: bool,
    /// Include file and line numbers.
    pub include_file_line: bool,
    /// Include thread IDs.
    pub include_thread_ids: bool,
    /// Include span entry/exit events.
    pub include_span_events: bool,
}

/// The values of a [`LogConfig`].
pub struct LogConfigView {
    pub level: Seq<char>,
    pub format: LogFormat,
    pub include_timestamps: bool,
    pub include_targets: bool,
    pub include_file_line: bool,
    pub include_thread_ids: bool,
    pub include_span_events: bool,
}

impl View for LogConfig {
    type V = LogConfigView;

    open spec fn view(&self) -> LogConfigView {
        LogConfigView {
            level: self.level@,
            format: self.format,
            include_timestamps: self.include_timestamps,
            include_targets: self.include_targets,
            include_file_line: self.include_file_line,
            include_thread_ids: self.include_thread_ids,
            include_span_events: self.include_span_events,
        }
    }
}

impl Default for LogConfig {
    fn default() -> (r: Self)
        ensures
            r@ == (LogConfigView {
                level: "info"@,
                format: LogFormat::Pretty,
                include_timestamps: true,
                include_targets: true,
                include_file_line: false,
                include_thread_ids: false,
                include_span_events: false,
            }),
    {
        LogConfig {
            level: owned("info"),
            format: LogFormat::Pretty,
            include_timestamps: true,
            include_targets: true,
            include_file_line: false,
            include_thread_ids: false,
            include_span_events: false,
        }
    }
}

impl LogConfig {
    /// Development settings: debug level, pretty format, file and line.
    pub fn development() -> (r: Self)
        ensures
            r@ == (LogConfigView {
                level: "debug"@,
                format: LogFormat::Pretty,
                include_timestamps: true,
                include_targets: true,
                include_file_line: true,
                include_thread_ids: false,
                include_span_events: false,
            }),
    {
        LogConfig {
            level: owned("debug"),
            format: LogFormat::Pretty,
            include_timestamps: true,
            include_targets: true,
            include_file_line: true,
            include_thread_ids: false,
            include_span_events: false,
        }
    }

    /// Production settings: info level, JSON format, thread IDs.
    pub fn production() -> (r: Self)
        ensures
            r@ == (LogConfigView {
                level: "info"@,
                format: LogFormat::Json,
                include_timestamps: true,
                include_targets: true,
                include_file_line: false,
                include_thread_ids: true,
                include_span_events: false,
            }),
    {
        LogConfig {
            level: owned("info"),
            format: LogFormat::Json,
            include_timestamps: true,
            include_targets: true,
            include_file_line: false,
            include_thread_ids: true,
            include_span_events: false,
        }
    }

    /// Checks that the level names a log level.
    pub fn validate(&self) -> (r: Result<()>)
        ensures
            match level_named(self@.level) {
                Some(_) => r is Ok,
                None => r matches Err(Error::Config(m)) && m@ == "Unknown log level: "@
                    + self@.level,
            },
    {
        match LogLevel::parse_str(self.level.as_str()) {
            Ok(_) => Ok(()),
            Err(e) => Err(e),
        }
    }
}

} // verus!
