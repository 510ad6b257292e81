//! Error taxonomy: the unified error type, its severity, and its
//! classification by retryability, transience, numeric code and category.

use vstd::prelude::*;
use crate::text::{decimal, occurs_at, owned, push_decimal, push_str, seq_contains, contains, str_eq};

verus! {

// ============================================================================
// Severity
// ============================================================================

/// Severity of an error, ordered from least to most severe.
#[derive(Debug, Clone, Copy, PartialEq, Eq, PartialOrd, Ord, Hash, Structural)]
pub enum Severity {
    /// Informational; no action required.
    Low,
    /// Should be monitored.
    Medium,
    /// Requires attention.
    High,
    /// Immediate action required.
    Critical,
}

/// Rank of a severity, `0` for `Low` up to `3` for `Critical`.
pub open spec fn severity_rank(s: Severity) -> nat {
    match s {
        Severity::Low => 0,
        Severity::Medium => 1,
        Severity::High => 2,
        Severity::Critical => 3,
    }
}

pub open spec fn severity_name(s: Severity) -> Seq<char> {
    match s {
        Severity::Low => "LOW"@,
        Severity::Medium => "MEDIUM"@,
        Severity::High => "HIGH"@,
        Severity::Critical => "CRITICAL"@,
    }
}

impl Severity {
    /// Rank in severity order, `0` for `Low` up to `3` for `Critical`.
    pub fn rank(self) -> (r: u8)
        ensures
            r == severity_rank(self),
    {
        match self {
            Severity::Low => 0,
            Severity::Medium => 1,
            Severity::High => 2,
            Severity::Critical => 3,
        }
    }

    /// `LOW`, `MEDIUM`, `HIGH` or `CRITICAL`.
    pub fn to_display_string(self) -> (r: String)
        ensures
            r@ == severity_name(self),
    {
        match self {
            Severity::Low => owned("LOW"),
            Severity::Medium => owned("MEDIUM"),
            Severity::High => owned("HIGH"),
            Severity::Critical => owned("CRITICAL"),
        }
    }
}

// ============================================================================
// Error
// ============================================================================

/// Unified error type.
///
/// A tensor validation failure carries the offending value as the bit
/// pattern of the 64-bit float (`value_bits`) and as the text that the
/// float prints as (`value_text`); an I/O failure carries the name of its
/// `std::io::ErrorKind` variant and the text of the I/O error.
#[derive(Debug)]
pub enum Error {
    /// Configuration error.
    Config(String),
    /// Database operation error.
    Database(String),
    /// Network or wire communication error.
    Network { target: String, message: String },
    /// Circuit breaker is open.
    CircuitOpen { service_id: String, retry_after_ms: u64 },
    /// Consensus quorum not reached.
    ConsensusQuorum { required: u32, received: u32 },
    /// PBFT view change required.
    ViewChange { current_view: u64, new_view: u64 },
    /// Hebbian pathway not found.
    PathwayNotFound { source: String, target: String },
    /// Tensor validation error.
    TensorValidation { dimension: usize, value_bits: u64, value_text: String },
    /// Service not found.
    ServiceNotFound(String),
    /// Health check failed.
    HealthCheckFailed { service_id: String, reason: String },
    /// Escalation required.
    EscalationRequired { from_tier: String, to_tier: String, reason: String },
    /// Timeout.
    Timeout { operation: String, timeout_ms: u64 },
    /// Pipeline operation error.
    Pipeline(String),
    /// Validation error.
    Validation(String),
    /// I/O error.
    Io { kind: String, message: String },
    /// Generic error.
    Other(String),
}

/// The result type used throughout the library.
pub type Result<T> = core::result::Result<T, Error>;

/// Equality of errors: same variant and equal fields; tensor values are
/// compared by their bit patterns.
pub open spec fn error_eq(a: Error, b: Error) -> bool {
    match (a, b) {
        (Error::Config(x), Error::Config(y)) => x@ == y@,
        (Error::Database(x), Error::Database(y)) => x@ == y@,
        (Error::Pipeline(x), Error::Pipeline(y)) => x@ == y@,
        (Error::Validation(x), Error::Validation(y)) => x@ == y@,
        (Error::ServiceNotFound(x), Error::ServiceNotFound(y)) => x@ == y@,
        (Error::Other(x), Error::Other(y)) => x@ == y@,
        (Error::Network { target: t1, message: m1 }, Error::Network { target: t2, message: m2 }) =>
            t1@ == t2@ && m1@ == m2@,
        (
            Error::PathwayNotFound { source: t1, target: m1 },
            Error::PathwayNotFound { source: t2, target: m2 },
        ) => t1@ == t2@ && m1@ == m2@,
        (
            Error::HealthCheckFailed { service_id: s1, reason: r1 },
            Error::HealthCheckFailed { service_id: s2, reason: r2 },
        ) => s1@ == s2@ && r1@ == r2@,
        (
            Error::CircuitOpen { service_id: s1, retry_after_ms: r1 },
            Error::CircuitOpen { service_id: s2, retry_after_ms: r2 },
        ) => s1@ == s2@ && r1 == r2,
        (
            Error::ConsensusQuorum { required: r1, received: v1 },
            Error::ConsensusQuorum { required: r2, received: v2 },
        ) => r1 == r2 && v1 == v2,
        (
            Error::ViewChange { current_view: c1, new_view: n1 },
            Error::ViewChange { current_view: c2, new_view: n2 },
        ) => c1 == c2 && n1 == n2,
        (
            Error::TensorValidation { dimension: d1, value_bits: v1, value_text: _ },
            Error::TensorValidation { dimension: d2, value_bits: v2, value_text: _ },
        ) => d1 == d2 && v1 == v2,
        (
            Error::EscalationRequired { from_tier: f1, to_tier: t1, reason: r1 },
            Error::EscalationRequired { from_tier: f2, to_tier: t2, reason: r2 },
        ) => f1@ == f2@ && t1@ == t2@ && r1@ == r2@,
        (
            Error::Timeout { operation: o1, timeout_ms: t1 },
            Error::Timeout { operation: o2, timeout_ms: t2 },
        ) => o1@ == o2@ && t1 == t2,
        (Error::Io { kind: k1, message: m1 }, Error::Io { kind: k2, message: m2 }) => k1@ == k2@
            && m1@ == m2@,
        _ => false,
    }
}

/// The text an error displays as.
pub open spec fn error_text(e: Error) -> Seq<char> {
    match e {
        Error::Config(m) => "Configuration error: "@ + m@,
        Error::Database(m) => "Database error: "@ + m@,
        Error::Network { target, message } => "Network error to "@ + target@ + ": "@ + message@,
        Error::CircuitOpen { service_id, retry_after_ms } => "Circuit breaker open for "@
            + service_id@ + ", retry after "@ + decimal(retry_after_ms as nat) + "ms"@,
        Error::ConsensusQuorum { required, received } => "Consensus quorum not reached: "@
            + decimal(received as nat) + "/"@ + decimal(required as nat),
        Error::ViewChange { current_view, new_view } => "View change required: "@ + decimal(
            current_view as nat,
        ) + " -> "@ + decimal(new_view as nat),
        Error::PathwayNotFound { source, target } => "Hebbian pathway not found: "@ + source@
            + " -> "@ + target@,
        Error::TensorValidation { dimension, value_bits: _, value_text } =>
            "Tensor validation failed: dimension "@ + decimal(dimension as nat)
                + " has invalid value "@ + value_text@,
        Error::ServiceNotFound(id) => "Service not found: "@ + id@,
        Error::HealthCheckFailed { service_id, reason } => "Health check failed for "@
            + service_id@ + ": "@ + reason@,
        Error::EscalationRequired { from_tier, to_tier, reason } => "Escalation required from "@
            + from_tier@ + " to "@ + to_tier@ + ": "@ + reason@,
        Error::Timeout { operation, timeout_ms } => "Operation '"@ + operation@
            + "' timed out after "@ + decimal(timeout_ms as nat) + "ms"@,
        Error::Pipeline(m) => "Pipeline error: "@ + m@,
        Error::Validation(m) => "Validation error: "@ + m@,
        Error::Io { kind: _, message } => "IO error: "@ + message@,
        Error::Other(m) => m@,
    }
}

/// I/O error kinds after which the operation may be retried.
pub open spec fn io_kind_retryable(kind: Seq<char>) -> bool {
    kind == "ConnectionRefused"@ || kind == "ConnectionReset"@ || kind == "TimedOut"@ || kind
        == "Interrupted"@ || kind == "WouldBlock"@
}

/// I/O error kinds that are likely to resolve on their own.
pub open spec fn io_kind_transient(kind: Seq<char>) -> bool {
    kind == "TimedOut"@ || kind == "WouldBlock"@ || kind == "Interrupted"@
}

pub open spec fn error_retryable(e: Error) -> bool {
    match e {
        Error::Network { .. } | Error::CircuitOpen { .. } | Error::Timeout { .. }
        | Error::ConsensusQuorum { .. } => true,
        Error::Io { kind, message: _ } => io_kind_retryable(kind@),
        Error::Database(m) => seq_contains(m@, "locked"@) || seq_contains(m@, "busy"@),
        _ => false,
    }
}

pub open spec fn error_transient(e: Error) -> bool {
    match e {
        Error::Network { .. } | Error::CircuitOpen { .. } | Error::Timeout { .. }
        | Error::ConsensusQuorum { .. } => true,
        Error::Io { kind, message: _ } => io_kind_transient(kind@),
        _ => false,
    }
}

pub open spec fn error_severity(e: Error) -> Severity {
    match e {
        Error::ViewChange { .. } | Error::EscalationRequired { .. } => Severity::Critical,
        Error::HealthCheckFailed { .. } | Error::Pipeline(_) | Error::ConsensusQuorum { .. } =>
            Severity::High,
        Error::Network { .. } | Error::CircuitOpen { .. } | Error::Timeout { .. }
        | Error::Database(_) | Error::TensorValidation { .. } | Error::Io { .. } =>
            Severity::Medium,
        _ => Severity::Low,
    }
}

pub open spec fn error_code_of(e: Error) -> u32 {
    match e {
        Error::Config(_) => 1000,
        Error::Database(_) => 1100,
        Error::Network { .. } => 1200,
        Error::CircuitOpen { .. } => 1201,
        Error::Timeout { .. } => 1202,
        Error::ConsensusQuorum { .. } => 1300,
        Error::ViewChange { .. } => 1301,
        Error::PathwayNotFound { .. } => 1400,
        Error::TensorValidation { .. } => 1401,
        Error::Validation(_) => 1500,
        Error::Io { .. } => 1600,
        Error::Pipeline(_) => 1700,
        Error::ServiceNotFound(_) => 1800,
        Error::HealthCheckFailed { .. } => 1801,
        Error::EscalationRequired { .. } => 1802,
        Error::Other(_) => 1900,
    }
}

pub open spec fn error_category_of(e: Error) -> Seq<char> {
    match e {
        Error::Config(_) => "config"@,
        Error::Database(_) => "database"@,
        Error::Network { .. } | Error::CircuitOpen { .. } | Error::Timeout { .. } => "network"@,
        Error::ConsensusQuorum { .. } | Error::ViewChange { .. } => "consensus"@,
        Error::PathwayNotFound { .. } | Error::TensorValidation { .. } => "learning"@,
        Error::Validation(_) => "validation"@,
        Error::Io { .. } => "io"@,
        _ => "other"@,
    }
}

/// The category that a numeric error code's range stands for.
pub open spec fn category_of_code(code: u32) -> Seq<char> {
    if code == 1000 {
        "config"@
    } else if code == 1100 {
        "database"@
    } else if 1200 <= code < 1300 {
        "network"@
    } else if 1300 <= code < 1400 {
        "consensus"@
    } else if 1400 <= code < 1500 {
        "learning"@
    } else if code == 1500 {
        "validation"@
    } else if code == 1600 {
        "io"@
    } else {
        "other"@
    }
}

/// An error that is likely to resolve on its own may always be retried.
pub proof fn lemma_transient_is_retryable(e: Error)
    ensures
        error_transient(e) ==> error_retryable(e),
{
}

/// The numeric code's range determines the category: every error's
/// category is the one its code range stands for.
pub proof fn lemma_code_range_gives_category(e: Error)
    ensures
        error_category_of(e) == category_of_code(error_code_of(e)),
        1000 <= error_code_of(e) < 2000,
{
}

/// Retryable errors are neither critical nor merely informational.
pub proof fn lemma_retryable_severity(e: Error)
    ensures
        error_retryable(e) ==> (error_severity(e) == Severity::Medium || error_severity(e)
            == Severity::High),
{
}

/// No two kinds of error share a numeric code: errors with the same code
/// are of the same kind.
pub proof fn lemma_error_codes_distinct(a: Error, b: Error)
    ensures
        error_code_of(a) == error_code_of(b) ==> {
            &&& (a is Config <==> b is Config)
            &&& (a is Database <==> b is Database)
            &&& (a is Network <==> b is Network)
            &&& (a is CircuitOpen <==> b is CircuitOpen)
            &&& (a is ConsensusQuorum <==> b is ConsensusQuorum)
            &&& (a is ViewChange <==> b is ViewChange)
            &&& (a is PathwayNotFound <==> b is PathwayNotFound)
            &&& (a is TensorValidation <==> b is TensorValidation)
            &&& (a is ServiceNotFound <==> b is ServiceNotFound)
            &&& (a is HealthCheckFailed <==> b is HealthCheckFailed)
            &&& (a is EscalationRequired <==> b is EscalationRequired)
            &&& (a is Timeout <==> b is Timeout)
            &&& (a is Pipeline <==> b is Pipeline)
            &&& (a is Validation <==> b is Validation)
            &&& (a is Io <==> b is Io)
            &&& (a is Other <==> b is Other)
        },
{
}

/// A database error is retryable exactly when its message mentions a lock
/// or a busy database: any message of the form `x + "locked" + y` or
/// `x + "busy" + y` is retryable, and a message that holds neither word is
/// not.
pub proof fn lemma_database_retryable_words(e: Error, x: Seq<char>, y: Seq<char>)
    requires
        e is Database,
    ensures
        e->Database_0@ == x + "locked"@ + y ==> error_retryable(e),
        e->Database_0@ == x + "busy"@ + y ==> error_retryable(e),
        !seq_contains(e->Database_0@, "locked"@) && !seq_contains(e->Database_0@, "busy"@)
            ==> !error_retryable(e),
{
    let m = e->Database_0@;
    if m == x + "locked"@ + y {
        assert(m.subrange(x.len() as int, (x.len() + "locked"@.len()) as int) =~= "locked"@);
        assert(occurs_at(m, "locked"@, x.len() as int));
    }
    if m == x + "busy"@ + y {
        assert(m.subrange(x.len() as int, (x.len() + "busy"@.len()) as int) =~= "busy"@);
        assert(occurs_at(m, "busy"@, x.len() as int));
    }
}

/// Operational classification of errors.
pub trait ErrorClassifier {
    /// Whether the operation that caused this error can be retried.
    fn is_retryable(&self) -> bool;

    /// Whether the error is likely to resolve on its own.
    fn is_transient(&self) -> bool;

    /// The severity of this error.
    fn severity(&self) -> Severity;

    /// Numeric error code; 0 unless the type gives its own.
    fn error_code(&self) -> (r: u32)
        default_ensures
            r == 0,
    {
        0
    }

    /// Error category name; `"other"` unless the type gives its own.
    fn error_category(&self) -> (r: &'static str)
        default_ensures
            r@ == "other"@,
    {
        "other"
    }
}

fn io_kind_is_retryable(kind: &str) -> (r: bool)
    ensures
        r == io_kind_retryable(kind@),
{
    str_eq(kind, "ConnectionRefused") || str_eq(kind, "ConnectionReset") || str_eq(kind, "TimedOut")
        || str_eq(kind, "Interrupted") || str_eq(kind, "WouldBlock")
}

fn io_kind_is_transient(kind: &str) -> (r: bool)
    ensures
        r == io_kind_transient(kind@),
{
    str_eq(kind, "TimedOut") || str_eq(kind, "WouldBlock") || str_eq(kind, "Interrupted")
}

impl ErrorClassifier for Error {
    fn is_retryable(&self) -> (r: bool)
        ensures
            r == error_retryable(*self),
    {
        match self {
            Error::Network { .. } | Error::CircuitOpen { .. } | Error::Timeout { .. }
            | Error::ConsensusQuorum { .. } => true,
            Error::Io { kind, message: _ } => io_kind_is_retryable(kind.as_str()),
            Error::Database(m) => contains(m.as_str(), "locked") || contains(m.as_str(), "busy"),
            _ => false,
        }
    }

    fn is_transient(&self) -> (r: bool)
        ensures
            r == error_transient(*self),
    {
        match self {
            Error::Network { .. } | Error::CircuitOpen { .. } | Error::Timeout { .. }
            | Error::ConsensusQuorum { .. } => true,
            Error::Io { kind, message: _ } => io_kind_is_transient(kind.as_str()),
            _ => false,
        }
    }

    fn severity(&self) -> (r: Severity)
        ensures
            r == error_severity(*self),
    {
        match self {
            Error::ViewChange { .. } | Error::EscalationRequired { .. } => Severity::Critical,
            Error::HealthCheckFailed { .. } | Error::Pipeline(_) | Error::ConsensusQuorum { .. } =>
                Severity::High,
            Error::Network { .. } | Error::CircuitOpen { .. } | Error::Timeout { .. }
            | Error::Database(_) | Error::TensorValidation { .. } | Error::Io { .. } =>
                Severity::Medium,
            _ => Severity::Low,
        }
    }

    fn error_code(&self) -> (r: u32)
        ensures
            r == error_code_of(*self),
    {
        match self {
            Error::Config(_) => 1000,
            Error::Database(_) => 1100,
            Error::Network { .. } => 1200,
            Error::CircuitOpen { .. } => 1201,
            Error::Timeout { .. } => 1202,
            Error::ConsensusQuorum { .. } => 1300,
            Error::ViewChange { .. } => 1301,
            Error::PathwayNotFound { .. } => 1400,
            Error::TensorValidation { .. } => 1401,
            Error::Validation(_) => 1500,
            Error::Io { .. } => 1600,
            Error::Pipeline(_) => 1700,
            Error::ServiceNotFound(_) => 1800,
            Error::HealthCheckFailed { .. } => 1801,
            Error::EscalationRequired { .. } => 1802,
            Error::Other(_) => 1900,
        }
    }

    fn error_category(&self) -> (r: &'static str)
        ensures
            r@ == error_category_of(*self),
    {
        match self {
            Error::Config(_) => "config",
            Error::Database(_) => "database",
            Error::Network { .. } | Error::CircuitOpen { .. } | Error::Timeout { .. } => "network",
            Error::ConsensusQuorum { .. } | Error::ViewChange { .. } => "consensus",
            Error::PathwayNotFound { .. } | Error::TensorValidation { .. } => "learning",
            Error::Validation(_) => "validation",
            Error::Io { .. } => "io",
            _ => "other",
        }
    }
}

impl Error {
    /// The text this error displays as.
    pub fn to_display_string(&self) -> (r: String)
        ensures
            r@ == error_text(*self),
    {
        let mut s = String::new();
        match self {
            Error::Config(m) => {
                push_str(&mut s, "Configuration error: ");
                push_str(&mut s, m.as_str());
            },
            Error::Database(m) => {
                push_str(&mut s, "Database error: ");
                push_str(&mut s, m.as_str());
            },
            Error::Network { target, message } => {
                push_str(&mut s, "Network error to ");
                push_str(&mut s, target.as_str());
                push_str(&mut s, ": ");
                push_str(&mut s, message.as_str());
            },
            Error::CircuitOpen { service_id, retry_after_ms } => {
                push_str(&mut s, "Circuit breaker open for ");
                push_str(&mut s, service_id.as_str());
                push_str(&mut s, ", retry after ");
                push_decimal(&mut s, *retry_after_ms);
                push_str(&mut s, "ms");
            },
            Error::ConsensusQuorum { required, received } => {
                push_str(&mut s, "Consensus quorum not reached: ");
                push_decimal(&mut s, *received as u64);
                push_str(&mut s, "/");
                push_decimal(&mut s, *required as u64);
            },
            Error::ViewChange { current_view, new_view } => {
                push_str(&mut s, "View change required: ");
                push_decimal(&mut s, *current_view);
                push_str(&mut s, " -> ");
                push_decimal(&mut s, *new_view);
            },
            Error::PathwayNotFound { source, target } => {
                push_str(&mut s, "Hebbian pathway not found: ");
                push_str(&mut s, source.as_str());
                push_str(&mut s, " -> ");
                push_str(&mut s, target.as_str());
            },
            Error::TensorValidation { dimension, value_bits: _, value_text } => {
                push_str(&mut s, "Tensor validation failed: dimension ");
                push_decimal(&mut s, *dimension as u64);
                push_str(&mut s, " has invalid value ");
                push_str(&mut s, value_text.as_str());
            },
            Error::ServiceNotFound(id) => {
                push_str(&mut s, "Service not found: ");
                push_str(&mut s, id.as_str());
            },
            Error::HealthCheckFailed { service_id, reason } => {
                push_str(&mut s, "Health check failed for ");
                push_str(&mut s, service_id.as_str());
                push_str(&mut s, ": ");
                push_str(&mut s, reason.as_str());
            },
            Error::EscalationRequired { from_tier, to_tier, reason } => {
                push_str(&mut s, "Escalation required from ");
                push_str(&mut s, from_tier.as_str());
                push_str(&mut s, " to ");
                push_str(&mut s, to_tier.as_str());
                push_str(&mut s, ": ");
                push_str(&mut s, reason.as_str());
            },
            Error::Timeout { operation, timeout_ms } => {
                push_str(&mut s, "Operation '");
                push_str(&mut s, operation.as_str());
                push_str(&mut s, "' timed out after ");
                push_decimal(&mut s, *timeout_ms);
                push_str(&mut s, "ms");
            },
            Error::Pipeline(m) => {
                push_str(&mut s, "Pipeline error: ");
                push_str(&mut s, m.as_str());
            },
            Error::Validation(m) => {
                push_str(&mut s, "Validation error: ");
                push_str(&mut s, m.as_str());
            },
            Error::Io { kind: _, message } => {
                push_str(&mut s, "IO error: ");
                push_str(&mut s, message.as_str());
            },
            Error::Other(m) => {
                push_str(&mut s, m.as_str());
            },
        }
        assert(s@ =~= error_text(*self));
        s
    }
}

impl Clone for Error {
    fn clone(&self) -> (r: Self)
        ensures
            r == *self,
    {
        match self {
            Error::Config(m) => Error::Config(m.clone()),
            Error::Database(m) => Error::Database(m.clone()),
            Error::Network { target, message } => Error::Network {
                target: target.clone(),
                message: message.clone(),
            },
            Error::CircuitOpen { service_id, retry_after_ms } => Error::CircuitOpen {
                service_id: service_id.clone(),
                retry_after_ms: *retry_after_ms,
            },
            Error::ConsensusQuorum { required, received } => Error::ConsensusQuorum {
                required: *required,
                received: *received,
            },
            Error::ViewChange { current_view, new_view } => Error::ViewChange {
                current_view: *current_view,
                new_view: *new_view,
            },
            Error::PathwayNotFound { source, target } => Error::PathwayNotFound {
                source: source.clone(),
                target: target.clone(),
            },
            Error::TensorValidation { dimension, value_bits, value_text } =>
                Error::TensorValidation {
                dimension: *dimension,
                value_bits: *value_bits,
                value_text: value_text.clone(),
            },
            Error::ServiceNotFound(m) => Error::ServiceNotFound(m.clone()),
            Error::HealthCheckFailed { service_id, reason } => Error::HealthCheckFailed {
                service_id: service_id.clone(),
                reason: reason.clone(),
            },
            Error::EscalationRequired { from_tier, to_tier, reason } =>
                Error::EscalationRequired {
                from_tier: from_tier.clone(),
                to_tier: to_tier.clone(),
                reason: reason.clone(),
            },
            Error::Timeout { operation, timeout_ms } => Error::Timeout {
                operation: operation.clone(),
                timeout_ms: *timeout_ms,
            },
            Error::Pipeline(m) => Error::Pipeline(m.clone()),
            Error::Validation(m) => Error::Validation(m.clone()),
            Error::Io { kind, message } => Error::Io { kind: kind.clone(), message: message.clone() },
            Error::Other(m) => Error::Other(m.clone()),
        }
    }
}

fn string_eq(a: &String, b: &String) -> (r: bool)
    ensures
        r == (a@ == b@),
{
    str_eq(a.as_str(), b.as_str())
}

impl PartialEq for Error {
    fn eq(&self, other: &Self) -> (r: bool) {
        match (self, other) {
            (Error::Config(x), Error::Config(y)) => string_eq(x, y),
            (Error::Database(x), Error::Database(y)) => string_eq(x, y),
            (Error::Pipeline(x), Error::Pipeline(y)) => string_eq(x, y),
            (Error::Validation(x), Error::Validation(y)) => string_eq(x, y),
            (Error::ServiceNotFound(x), Error::ServiceNotFound(y)) => string_eq(x, y),
            (Error::Other(x), Error::Other(y)) => string_eq(x, y),
            (
                Error::Network { target: t1, message: m1 },
                Error::Network { target: t2, message: m2 },
            ) => string_eq(t1, t2) && string_eq(m1, m2),
            (
                Error::PathwayNotFound { source: t1, target: m1 },
                Error::PathwayNotFound { source: t2, target: m2 },
            ) => string_eq(t1, t2) && string_eq(m1, m2),
            (
                Error::HealthCheckFailed { service_id: s1, reason: r1 },
                Error::HealthCheckFailed { service_id: s2, reason: r2 },
            ) => string_eq(s1, s2) && string_eq(r1, r2),
            (
                Error::CircuitOpen { service_id: s1, retry_after_ms: r1 },
                Error::CircuitOpen { service_id: s2, retry_after_ms: r2 },
            ) => string_eq(s1, s2) && *r1 == *r2,
            (
                Error::ConsensusQuorum { required: r1, received: v1 },
                Error::ConsensusQuorum { required: r2, received: v2 },
            ) => *r1 == *r2 && *v1 == *v2,
            (
                Error::ViewChange { current_view: c1, new_view: n1 },
                Error::ViewChange { current_view: c2, new_view: n2 },
            ) => *c1 == *c2 && *n1 == *n2,
            (
                Error::TensorValidation { dimension: d1, value_bits: v1, value_text: _ },
                Error::TensorValidation { dimension: d2, value_bits: v2, value_text: _ },
            ) => *d1 == *d2 && *v1 == *v2,
            (
                Error::EscalationRequired { from_tier: f1, to_tier: t1, reason: r1 },
                Error::EscalationRequired { from_tier: f2, to_tier: t2, reason: r2 },
            ) => string_eq(f1, f2) && string_eq(t1, t2) && string_eq(r1, r2),
            (
                Error::Timeout { operation: o1, timeout_ms: t1 },
                Error::Timeout { operation: o2, timeout_ms: t2 },
            ) => string_eq(o1, o2) && *t1 == *t2,
            (Error::Io { kind: k1, message: m1 }, Error::Io { kind: k2, message: m2 }) =>
                string_eq(k1, k2) && string_eq(m1, m2),
            _ => false,
        }
    }
}

impl vstd::std_specs::cmp::PartialEqSpecImpl for Error {
    open spec fn obeys_eq_spec() -> bool {
        true
    }

    open spec fn eq_spec(&self, other: &Error) -> bool {
        error_eq(*self, *other)
    }
}

impl Eq for Error {

}

impl From<String> for Error {
    fn from(s: String) -> (r: Error) {
        Error::Other(s)
    }
}

impl vstd::std_specs::convert::FromSpecImpl<String> for Error {
    open spec fn obeys_from_spec() -> bool {
        true
    }

    open spec fn from_spec(v: String) -> Error {
        Error::Other(v)
    }
}

} // verus!
