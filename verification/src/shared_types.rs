//! Vocabulary types shared across modules: module identities, agent
//! identities, monotone tick timestamps, the names of the twelve tensor
//! dimensions, and a bitmap of covered dimensions.

use vstd::prelude::*;
use vstd::string::*;
use crate::text::{
    all_digits, decimal, digit_char, digits_value, owned, parse_unsigned_bounded, push_char, push_decimal, push_str,
    seq_starts_with, starts_with, str_eq,
};

verus! {

// ============================================================================
// Text arguments
// ============================================================================

/// Arguments that become an owned `String`: string slices and strings.
pub trait IntoText: Sized {
    spec fn text(&self) -> Seq<char>;

    fn into_text(self) -> (r: String)
        ensures
            r@ == self.text(),
    ;
}

impl<'a> IntoText for &'a str {
    open spec fn text(&self) -> Seq<char> {
        (**self)@
    }

    fn into_text(self) -> (r: String) {
        owned(self)
    }
}

impl IntoText for String {
    open spec fn text(&self) -> Seq<char> {
        self@
    }

    fn into_text(self) -> (r: String) {
        self
    }
}

// ============================================================================
// ModuleId
// ============================================================================

/// Typed identity of a module (`"M01"` .. `"M47"`).
#[derive(Debug, Clone, Copy, PartialEq, Eq, Hash, PartialOrd, Ord)]
pub struct ModuleId(&'static str);

impl View for ModuleId {
    type V = Seq<char>;

    closed spec fn view(&self) -> Seq<char> {
        self.0@
    }
}

/// The number that follows the leading `M` of a module identifier: the rest
/// must be one or more ASCII digits, denoting a value that fits in a `u8`.
pub open spec fn module_number(s: Seq<char>) -> Option<nat> {
    let d = s.drop_first();
    if s.len() > 0 && s[0] == 'M' && d.len() > 0 && all_digits(d) && digits_value(d) <= 255 {
        Some(digits_value(d))
    } else {
        None
    }
}

/// The layer (1-based) that a module number belongs to.
pub open spec fn layer_of_module(n: nat) -> Option<u8> {
    if (1 <= n && n <= 6) || n == 43 {
        Some(1u8)
    } else if 7 <= n && n <= 12 {
        Some(2u8)
    } else if 13 <= n && n <= 18 {
        Some(3u8)
    } else if (19 <= n && n <= 24) || n == 46 || n == 47 {
        Some(4u8)
    } else if 25 <= n && n <= 30 {
        Some(5u8)
    } else if 31 <= n && n <= 36 {
        Some(6u8)
    } else if (37 <= n && n <= 42) || n == 44 || n == 45 {
        Some(7u8)
    } else {
        None
    }
}

/// An identifier `M` followed by two decimal digits names the module with
/// that two-digit number (`M07` is module 7, `M42` module 42).
pub proof fn lemma_two_digit_module_number(n: nat)
    requires
        n < 100,
    ensures
        module_number(seq!['M', digit_char(n / 10), digit_char(n % 10)]) == Some(n),
{
    let s = seq!['M', digit_char(n / 10), digit_char(n % 10)];
    let d = s.drop_first();
    assert(d =~= seq![digit_char(n / 10), digit_char(n % 10)]);
    assert(d.drop_last() =~= seq![digit_char(n / 10)]);
    assert(d.drop_last().drop_last() =~= Seq::<char>::empty());
    reveal_with_fuel(digits_value, 3);
    assert(digits_value(d) == (n / 10) * 10 + n % 10);
}

/// The modules are numbered in runs of six per layer: modules 1 to 42 sit
/// in layer `(n - 1) / 6 + 1` (M01-M06 in L1, ..., M31-M36 in L6, M37-M42
/// in L7); the later additions M43 (L1), M44-M45 (L7) and M46-M47 (L4)
/// sit outside the runs; any other number has no layer.
pub proof fn lemma_module_layer_ranges(n: nat)
    ensures
        1 <= n <= 42 ==> layer_of_module(n) == Some((((n - 1) / 6) + 1) as u8),
        n == 43 ==> layer_of_module(n) == Some(1u8),
        n == 44 || n == 45 ==> layer_of_module(n) == Some(7u8),
        n == 46 || n == 47 ==> layer_of_module(n) == Some(4u8),
        n == 0 || n > 47 ==> layer_of_module(n) is None,
{
}

/// The identifiers of all known modules, in order.
pub open spec fn all_module_names() -> Seq<Seq<char>> {
    seq!["M01"@, "M02"@, "M03"@, "M04"@, "M05"@, "M06"@, "M07"@, "M08"@, "M09"@, "M10"@, "M11"@, "M12"@, "M13"@, "M14"@, "M15"@, "M16"@, "M17"@, "M18"@, "M19"@, "M20"@, "M21"@, "M22"@, "M23"@, "M24"@, "M25"@, "M26"@, "M27"@, "M28"@, "M29"@, "M30"@, "M31"@, "M32"@, "M33"@, "M34"@, "M35"@, "M36"@, "M37"@, "M38"@, "M39"@, "M40"@, "M41"@, "M42"@, "M43"@, "M44"@, "M45"@, "M46"@, "M47"@]
}

impl ModuleId {
    /// M01: Error Taxonomy
    #[allow(non_snake_case)]
    pub fn M01() -> (r: Self)
        ensures
            r@ == "M01"@,
    {
        Self("M01")
    }
    /// M02: Configuration
    #[allow(non_snake_case)]
    pub fn M02() -> (r: Self)
        ensures
            r@ == "M02"@,
    {
        Self("M02")
    }
    /// M03: Logging
    #[allow(non_snake_case)]
    pub fn M03() -> (r: Self)
        ensures
            r@ == "M03"@,
    {
        Self("M03")
    }
    /// M04: Metrics
    #[allow(non_snake_case)]
    pub fn M04() -> (r: Self)
        ensures
            r@ == "M04"@,
    {
        Self("M04")
    }
    /// M05: State Persistence
    #[allow(non_snake_case)]
    pub fn M05() -> (r: Self)
        ensures
            r@ == "M05"@,
    {
        Self("M05")
    }
    /// M06: Resource Manager
    #[allow(non_snake_case)]
    pub fn M06() -> (r: Self)
        ensures
            r@ == "M06"@,
    {
        Self("M06")
    }
    /// M07: Service Types
    #[allow(non_snake_case)]
    pub fn M07() -> (r: Self)
        ensures
            r@ == "M07"@,
    {
        Self("M07")
    }
    /// M08: Health Monitor
    #[allow(non_snake_case)]
    pub fn M08() -> (r: Self)
        ensures
            r@ == "M08"@,
    {
        Self("M08")
    }
    /// M09: Lifecycle Manager
    #[allow(non_snake_case)]
    pub fn M09() -> (r: Self)
        ensures
            r@ == "M09"@,
    {
        Self("M09")
    }
    /// M10: Service Discovery
    #[allow(non_snake_case)]
    pub fn M10() -> (r: Self)
        ensures
            r@ == "M10"@,
    {
        Self("M10")
    }
    /// M11: Load Balancer
    #[allow(non_snake_case)]
    pub fn M11() -> (r: Self)
        ensures
            r@ == "M11"@,
    {
        Self("M11")
    }
    /// M12: Circuit Breaker
    #[allow(non_snake_case)]
    pub fn M12() -> (r: Self)
        ensures
            r@ == "M12"@,
    {
        Self("M12")
    }
    /// M13: Pipeline Manager
    #[allow(non_snake_case)]
    pub fn M13() -> (r: Self)
        ensures
            r@ == "M13"@,
    {
        Self("M13")
    }
    /// M14: Remediation Engine
    #[allow(non_snake_case)]
    pub fn M14() -> (r: Self)
        ensures
            r@ == "M14"@,
    {
        Self("M14")
    }
    /// M15: Confidence Calculator
    #[allow(non_snake_case)]
    pub fn M15() -> (r: Self)
        ensures
            r@ == "M15"@,
    {
        Self("M15")
    }
    /// M16: Action Executor
    #[allow(non_snake_case)]
    pub fn M16() -> (r: Self)
        ensures
            r@ == "M16"@,
    {
        Self("M16")
    }
    /// M17: Outcome Recorder
    #[allow(non_snake_case)]
    pub fn M17() -> (r: Self)
        ensures
            r@ == "M17"@,
    {
        Self("M17")
    }
    /// M18: Feedback Loop
    #[allow(non_snake_case)]
    pub fn M18() -> (r: Self)
        ensures
            r@ == "M18"@,
    {
        Self("M18")
    }
    /// M19: REST Client
    #[allow(non_snake_case)]
    pub fn M19() -> (r: Self)
        ensures
            r@ == "M19"@,
    {
        Self("M19")
    }
    /// M20: gRPC Client
    #[allow(non_snake_case)]
    pub fn M20() -> (r: Self)
        ensures
            r@ == "M20"@,
    {
        Self("M20")
    }
    /// M21: WebSocket Client
    #[allow(non_snake_case)]
    pub fn M21() -> (r: Self)
        ensures
            r@ == "M21"@,
    {
        Self("M21")
    }
    /// M22: IPC Manager
    #[allow(non_snake_case)]
    pub fn M22() -> (r: Self)
        ensures
            r@ == "M22"@,
    {
        Self("M22")
    }
    /// M23: Event Bus
    #[allow(non_snake_case)]
    pub fn M23() -> (r: Self)
        ensures
            r@ == "M23"@,
    {
        Self("M23")
    }
    /// M24: Bridge Manager
    #[allow(non_snake_case)]
    pub fn M24() -> (r: Self)
        ensures
            r@ == "M24"@,
    {
        Self("M24")
    }
    /// M25: Hebbian Manager
    #[allow(non_snake_case)]
    pub fn M25() -> (r: Self)
        ensures
            r@ == "M25"@,
    {
        Self("M25")
    }
    /// M26: STDP Processor
    #[allow(non_snake_case)]
    pub fn M26() -> (r: Self)
        ensures
            r@ == "M26"@,
    {
        Self("M26")
    }
    /// M27: Pattern Recognizer
    #[allow(non_snake_case)]
    pub fn M27() -> (r: Self)
        ensures
            r@ == "M27"@,
    {
        Self("M27")
    }
    /// M28: Pathway Pruner
    #[allow(non_snake_case)]
    pub fn M28() -> (r: Self)
        ensures
            r@ == "M28"@,
    {
        Self("M28")
    }
    /// M29: Memory Consolidator
    #[allow(non_snake_case)]
    pub fn M29() -> (r: Self)
        ensures
            r@ == "M29"@,
    {
        Self("M29")
    }
    /// M30: Anti-Pattern Detector
    #[allow(non_snake_case)]
    pub fn M30() -> (r: Self)
        ensures
            r@ == "M30"@,
    {
        Self("M30")
    }
    /// M31: PBFT Manager
    #[allow(non_snake_case)]
    pub fn M31() -> (r: Self)
        ensures
            r@ == "M31"@,
    {
        Self("M31")
    }
    /// M32: Agent Coordinator
    #[allow(non_snake_case)]
    pub fn M32() -> (r: Self)
        ensures
            r@ == "M32"@,
    {
        Self("M32")
    }
    /// M33: Vote Collector
    #[allow(non_snake_case)]
    pub fn M33() -> (r: Self)
        ensures
            r@ == "M33"@,
    {
        Self("M33")
    }
    /// M34: View Change Handler
    #[allow(non_snake_case)]
    pub fn M34() -> (r: Self)
        ensures
            r@ == "M34"@,
    {
        Self("M34")
    }
    /// M35: Dissent Tracker
    #[allow(non_snake_case)]
    pub fn M35() -> (r: Self)
        ensures
            r@ == "M35"@,
    {
        Self("M35")
    }
    /// M36: Quorum Calculator
    #[allow(non_snake_case)]
    pub fn M36() -> (r: Self)
        ensures
            r@ == "M36"@,
    {
        Self("M36")
    }
    /// M37: Log Correlator
    #[allow(non_snake_case)]
    pub fn M37() -> (r: Self)
        ensures
            r@ == "M37"@,
    {
        Self("M37")
    }
    /// M38: Emergence Detector
    #[allow(non_snake_case)]
    pub fn M38() -> (r: Self)
        ensures
            r@ == "M38"@,
    {
        Self("M38")
    }
    /// M39: Evolution Chamber
    #[allow(non_snake_case)]
    pub fn M39() -> (r: Self)
        ensures
            r@ == "M39"@,
    {
        Self("M39")
    }
    /// M40: Thermal Controller
    #[allow(non_snake_case)]
    pub fn M40() -> (r: Self)
        ensures
            r@ == "M40"@,
    {
        Self("M40")
    }
    /// M41: Decay Auditor
    #[allow(non_snake_case)]
    pub fn M41() -> (r: Self)
        ensures
            r@ == "M41"@,
    {
        Self("M41")
    }
    /// M42: Diagnostics Engine
    #[allow(non_snake_case)]
    pub fn M42() -> (r: Self)
        ensures
            r@ == "M42"@,
    {
        Self("M42")
    }
    /// M43: NAM Utilities
    #[allow(non_snake_case)]
    pub fn M43() -> (r: Self)
        ensures
            r@ == "M43"@,
    {
        Self("M43")
    }
    /// M44: Observer Bus
    #[allow(non_snake_case)]
    pub fn M44() -> (r: Self)
        ensures
            r@ == "M44"@,
    {
        Self("M44")
    }
    /// M45: Fitness Evaluator
    #[allow(non_snake_case)]
    pub fn M45() -> (r: Self)
        ensures
            r@ == "M45"@,
    {
        Self("M45")
    }
    /// M46: Peer Bridge
    #[allow(non_snake_case)]
    pub fn M46() -> (r: Self)
        ensures
            r@ == "M46"@,
    {
        Self("M46")
    }
    /// M47: Tool Registrar
    #[allow(non_snake_case)]
    pub fn M47() -> (r: Self)
        ensures
            r@ == "M47"@,
    {
        Self("M47")
    }
    /// All known module identities in order.
    pub fn all() -> (r: Vec<Self>)
        ensures
            r.len() == 47,
            forall|i: int| 0 <= i < 47 ==> #[trigger] r@[i]@ == all_module_names()[i],
    {
        let mut v: Vec<Self> = Vec::new();
        v.push(Self::M01());
        v.push(Self::M02());
        v.push(Self::M03());
        v.push(Self::M04());
        v.push(Self::M05());
        v.push(Self::M06());
        v.push(Self::M07());
        v.push(Self::M08());
        v.push(Self::M09());
        v.push(Self::M10());
        v.push(Self::M11());
        v.push(Self::M12());
        v.push(Self::M13());
        v.push(Self::M14());
        v.push(Self::M15());
        v.push(Self::M16());
        v.push(Self::M17());
        v.push(Self::M18());
        v.push(Self::M19());
        v.push(Self::M20());
        v.push(Self::M21());
        v.push(Self::M22());
        v.push(Self::M23());
        v.push(Self::M24());
        v.push(Self::M25());
        v.push(Self::M26());
        v.push(Self::M27());
        v.push(Self::M28());
        v.push(Self::M29());
        v.push(Self::M30());
        v.push(Self::M31());
        v.push(Self::M32());
        v.push(Self::M33());
        v.push(Self::M34());
        v.push(Self::M35());
        v.push(Self::M36());
        v.push(Self::M37());
        v.push(Self::M38());
        v.push(Self::M39());
        v.push(Self::M40());
        v.push(Self::M41());
        v.push(Self::M42());
        v.push(Self::M43());
        v.push(Self::M44());
        v.push(Self::M45());
        v.push(Self::M46());
        v.push(Self::M47());
        assert(v@.len() == 47);
        proof {
            assert forall|i: int| 0 <= i < 47 implies #[trigger] v@[i]@ == all_module_names()[i] by {}
        }
        v
    }

    /// A module identity from a static string.
    pub fn new(id: &'static str) -> (r: Self)
        ensures
            r@ == id@,
    {
        Self(id)
    }

    /// The identifier's text, as it displays.
    pub fn to_display_string(&self) -> (r: String)
        ensures
            r@ == self@,
    {
        owned(self.0)
    }

    /// The raw identifier.
    pub fn as_str(&self) -> (r: &'static str)
        ensures
            r@ == self@,
    {
        self.0
    }

    /// The numeric suffix after `M`, if the identifier has that shape.
    pub fn number(&self) -> (r: Option<u8>)
        ensures
            match module_number(self@) {
                Some(n) => r == Some(n as u8),
                None => r is None,
            },
    {
        let s = self.0;
        let n = s.unicode_len();
        if n == 0 || s.get_char(0) != 'M' {
            return None;
        }
        let rest = s.substring_char(1, n);
        assert(rest@ =~= self@.drop_first());
        if n > 1 && rest.get_char(0) == '+' {
            return None;
        }
        match parse_unsigned_bounded(rest, 255) {
            Some(v) => Some(v as u8),
            None => None,
        }
    }

    /// The layer (1-based) this module belongs to.
    pub fn layer(&self) -> (r: Option<u8>)
        ensures
            r == (match module_number(self@) {
                Some(n) => layer_of_module(n),
                None => None,
            }),
    {
        match self.number() {
            None => None,
            Some(n) => {
                if (1 <= n && n <= 6) || n == 43 {
                    Some(1)
                } else if 7 <= n && n <= 12 {
                    Some(2)
                } else if 13 <= n && n <= 18 {
                    Some(3)
                } else if (19 <= n && n <= 24) || n == 46 || n == 47 {
                    Some(4)
                } else if 25 <= n && n <= 30 {
                    Some(5)
                } else if 31 <= n && n <= 36 {
                    Some(6)
                } else if (37 <= n && n <= 42) || n == 44 || n == 45 {
                    Some(7)
                } else {
                    None
                }
            },
        }
    }
}

// ============================================================================
// AgentId
// ============================================================================

/// Operational identity of an agent, written `prefix:name` with the prefixes
/// `sys:`, `human:`, `svc:` and `agent:`.
#[derive(Debug, Clone, PartialEq, Eq, Hash, PartialOrd, Ord)]
pub struct AgentId(String);

impl View for AgentId {
    type V = Seq<char>;

    closed spec fn view(&self) -> Seq<char> {
        self.0@
    }
}

/// `p` is the part of `s` before its first `:` (all of `s` when it has none).
pub open spec fn is_colon_prefix(s: Seq<char>, p: Seq<char>) -> bool {
    &&& seq_starts_with(s, p)
    &&& forall|i: int| 0 <= i < p.len() ==> p[i] != ':'
    &&& p.len() == s.len() || s[p.len() as int] == ':'
}

impl AgentId {
    /// The system agent, `sys:system`.
    pub fn system() -> (r: Self)
        ensures
            r@ == "sys:system"@,
    {
        Self(owned("sys:system"))
    }

    /// The human agent, `human:@0.A`.
    pub fn human() -> (r: Self)
        ensures
            r@ == "human:@0.A"@,
    {
        Self(owned("human:@0.A"))
    }

    /// A service agent, `svc:<service_id>`.
    pub fn service(service_id: &str) -> (r: Self)
        ensures
            r@ == "svc:"@ + service_id@,
    {
        let mut s = owned("svc:");
        push_str(&mut s, service_id);
        Self(s)
    }

    /// A fleet agent, `agent:<agent_id>`.
    pub fn agent(agent_id: &str) -> (r: Self)
        ensures
            r@ == "agent:"@ + agent_id@,
    {
        let mut s = owned("agent:");
        push_str(&mut s, agent_id);
        Self(s)
    }

    /// An identity from an arbitrary string.
    pub fn from_raw(raw: impl IntoText) -> (r: Self)
        ensures
            r@ == raw.text(),
    {
        Self(raw.into_text())
    }

    /// The raw identifier.
    pub fn as_str(&self) -> (r: &str)
        ensures
            r@ == self@,
    {
        self.0.as_str()
    }

    /// Everything before the first `:`.
    pub fn prefix(&self) -> (r: &str)
        ensures
            is_colon_prefix(self@, r@),
    {
        let s = self.0.as_str();
        let n = s.unicode_len();
        let mut i: usize = 0;
        while i < n
            invariant
                n == s@.len(),
                s@ == self@,
                i <= n,
                forall|j: int| 0 <= j < i ==> s@[j] != ':',
            ensures
                i <= n,
                forall|j: int| 0 <= j < i ==> s@[j] != ':',
                i == n || s@[i as int] == ':',
            decreases n - i,
        {
            if s.get_char(i) == ':' {
                break;
            }
            i = i + 1;
        }
        let r = s.substring_char(0, i);
        assert(s@.subrange(0, i as int) =~= r@);
        assert(self@.subrange(0, r@.len() as int) =~= r@);
        r
    }

    /// Whether this is the system agent (prefix `sys:`).
    pub fn is_system(&self) -> (r: bool)
        ensures
            r == seq_starts_with(self@, "sys:"@),
    {
        starts_with(self.0.as_str(), "sys:")
    }

    /// Whether this is a human agent (prefix `human:`).
    pub fn is_human(&self) -> (r: bool)
        ensures
            r == seq_starts_with(self@, "human:"@),
    {
        starts_with(self.0.as_str(), "human:")
    }

    /// Whether this is a service agent (prefix `svc:`).
    pub fn is_service(&self) -> (r: bool)
        ensures
            r == seq_starts_with(self@, "svc:"@),
    {
        starts_with(self.0.as_str(), "svc:")
    }

    /// Whether this is a fleet agent (prefix `agent:`).
    pub fn is_agent(&self) -> (r: bool)
        ensures
            r == seq_starts_with(self@, "agent:"@),
    {
        starts_with(self.0.as_str(), "agent:")
    }

    /// The identifier as an owned string.
    pub fn to_display_string(&self) -> (r: String)
        ensures
            r@ == self@,
    {
        self.0.clone()
    }
}

impl AsRef<str> for AgentId {
    fn as_ref(&self) -> (r: &str)
        ensures
            r@ == self@,
    {
        self.0.as_str()
    }
}

impl AsRef<str> for ModuleId {
    fn as_ref(&self) -> (r: &str)
        ensures
            r@ == self@,
    {
        self.0
    }
}

impl From<AgentId> for String {
    fn from(id: AgentId) -> (r: String)
        ensures
            r@ == id@,
    {
        id.0
    }
}

impl vstd::std_specs::convert::FromSpecImpl<AgentId> for String {
    open spec fn obeys_from_spec() -> bool {
        true
    }

    closed spec fn from_spec(v: AgentId) -> String {
        v.0
    }
}

// ============================================================================
// Timestamp
// ============================================================================

/// Monotone cycle-counter timestamp (a tick count, not wall-clock time).
#[derive(Debug, Clone, Copy, PartialEq, Eq, PartialOrd, Ord, Hash)]
pub struct Timestamp(u64);

impl View for Timestamp {
    type V = u64;

    closed spec fn view(&self) -> u64 {
        self.0
    }
}

impl Timestamp {
    /// The zero timestamp.
    pub fn zero() -> (r: Self)
        ensures
            r@ == 0,
    {
        Self(0)
    }

    /// A timestamp from a raw tick value.
    pub fn from_raw(ticks: u64) -> (r: Self)
        ensures
            r@ == ticks,
    {
        Self(ticks)
    }

    /// The raw tick value.
    pub fn ticks(&self) -> (r: u64)
        ensures
            r == self@,
    {
        self.0
    }

    /// Ticks elapsed since `earlier`, `0` when `earlier` is later.
    pub fn elapsed_since(&self, earlier: Self) -> (r: u64)
        ensures
            r == (if self@ >= earlier@ { (self@ - earlier@) as u64 } else { 0u64 }),
    {
        self.0.saturating_sub(earlier.0)
    }

    /// Whether the two timestamps are at most `window` ticks apart.
    pub fn within_window(&self, other: Self, window: u64) -> (r: bool)
        ensures
            r == (if self@ >= other@ { self@ - other@ <= window } else { other@ - self@ <= window }),
    {
        let d = if self.0 >= other.0 {
            self.0 - other.0
        } else {
            other.0 - self.0
        };
        d <= window
    }

    /// `T<ticks>`.
    pub fn to_display_string(&self) -> (r: String)
        ensures
            r@ == seq!['T'] + decimal(self@ as nat),
    {
        let mut s = String::new();
        push_char(&mut s, 'T');
        push_decimal(&mut s, self.0);
        assert(s@ =~= seq!['T'] + decimal(self@ as nat));
        s
    }
}

impl Default for Timestamp {
    fn default() -> (r: Self)
        ensures
            r@ == 0,
    {
        Self(0)
    }
}

// ============================================================================
// DimensionIndex
// ============================================================================

/// Named index into the twelve tensor dimensions.
#[derive(Debug, Clone, Copy, PartialEq, Eq, Hash, Structural)]
pub enum DimensionIndex {
    /// D0: Service identifier (normalized hash)
    ServiceId,
    /// D1: Port (port/65535)
    Port,
    /// D2: Tier (tier/6)
    Tier,
    /// D3: Dependency count (log normalized)
    DependencyCount,
    /// D4: Agent count (agents/40)
    AgentCount,
    /// D5: Protocol (enum encoding)
    Protocol,
    /// D6: Health score (0-1)
    HealthScore,
    /// D7: Uptime ratio (0-1)
    Uptime,
    /// D8: Synergy score (0-1)
    Synergy,
    /// D9: Latency (1 - `latency_ms` / 2000)
    Latency,
    /// D10: Error rate (0-1)
    ErrorRate,
    /// D11: Temporal context (time encoding)
    TemporalContext,
}

/// Zero-based position of a dimension.
pub open spec fn dim_index(d: DimensionIndex) -> nat {
    match d {
        DimensionIndex::ServiceId => 0,
        DimensionIndex::Port => 1,
        DimensionIndex::Tier => 2,
        DimensionIndex::DependencyCount => 3,
        DimensionIndex::AgentCount => 4,
        DimensionIndex::Protocol => 5,
        DimensionIndex::HealthScore => 6,
        DimensionIndex::Uptime => 7,
        DimensionIndex::Synergy => 8,
        DimensionIndex::Latency => 9,
        DimensionIndex::ErrorRate => 10,
        DimensionIndex::TemporalContext => 11,
    }
}

/// Name of a dimension.
pub open spec fn dim_name(d: DimensionIndex) -> Seq<char> {
    match d {
        DimensionIndex::ServiceId => "service_id"@,
        DimensionIndex::Port => "port"@,
        DimensionIndex::Tier => "tier"@,
        DimensionIndex::DependencyCount => "dependency_count"@,
        DimensionIndex::AgentCount => "agent_count"@,
        DimensionIndex::Protocol => "protocol"@,
        DimensionIndex::HealthScore => "health_score"@,
        DimensionIndex::Uptime => "uptime"@,
        DimensionIndex::Synergy => "synergy"@,
        DimensionIndex::Latency => "latency"@,
        DimensionIndex::ErrorRate => "error_rate"@,
        DimensionIndex::TemporalContext => "temporal_context"@,
    }
}

/// The dimension at position `i` (for `i < 12`).
pub open spec fn dim_at(i: nat) -> DimensionIndex {
    if i == 0 {
        DimensionIndex::ServiceId
    } else if i == 1 {
        DimensionIndex::Port
    } else if i == 2 {
        DimensionIndex::Tier
    } else if i == 3 {
        DimensionIndex::DependencyCount
    } else if i == 4 {
        DimensionIndex::AgentCount
    } else if i == 5 {
        DimensionIndex::Protocol
    } else if i == 6 {
        DimensionIndex::HealthScore
    } else if i == 7 {
        DimensionIndex::Uptime
    } else if i == 8 {
        DimensionIndex::Synergy
    } else if i == 9 {
        DimensionIndex::Latency
    } else if i == 10 {
        DimensionIndex::ErrorRate
    } else {
        DimensionIndex::TemporalContext
    }
}

/// The dimension with the given name, if any.
pub open spec fn dim_named(name: Seq<char>) -> Option<DimensionIndex> {
    if name == "service_id"@ {
        Some(DimensionIndex::ServiceId)
    } else if name == "port"@ {
        Some(DimensionIndex::Port)
    } else if name == "tier"@ {
        Some(DimensionIndex::Tier)
    } else if name == "dependency_count"@ {
        Some(DimensionIndex::DependencyCount)
    } else if name == "agent_count"@ {
        Some(DimensionIndex::AgentCount)
    } else if name == "protocol"@ {
        Some(DimensionIndex::Protocol)
    } else if name == "health_score"@ {
        Some(DimensionIndex::HealthScore)
    } else if name == "uptime"@ {
        Some(DimensionIndex::Uptime)
    } else if name == "synergy"@ {
        Some(DimensionIndex::Synergy)
    } else if name == "latency"@ {
        Some(DimensionIndex::Latency)
    } else if name == "error_rate"@ {
        Some(DimensionIndex::ErrorRate)
    } else if name == "temporal_context"@ {
        Some(DimensionIndex::TemporalContext)
    } else {
        None
    }
}

impl DimensionIndex {
    /// All twelve dimensions in index order.
    pub fn all() -> (r: [Self; 12])
        ensures
            forall|i: int| 0 <= i < 12 ==> #[trigger] r@[i] == dim_at(i as nat),
    {
        [Self::ServiceId, Self::Port, Self::Tier, Self::DependencyCount, Self::AgentCount, Self::Protocol, Self::HealthScore, Self::Uptime, Self::Synergy, Self::Latency, Self::ErrorRate, Self::TemporalContext]
    }

    /// The zero-based index of this dimension.
    pub fn index(self) -> (r: usize)
        ensures
            r == dim_index(self),
    {
        match self {
            Self::ServiceId => 0,
            Self::Port => 1,
            Self::Tier => 2,
            Self::DependencyCount => 3,
            Self::AgentCount => 4,
            Self::Protocol => 5,
            Self::HealthScore => 6,
            Self::Uptime => 7,
            Self::Synergy => 8,
            Self::Latency => 9,
            Self::ErrorRate => 10,
            Self::TemporalContext => 11,
        }
    }

    /// The name of this dimension.
    pub fn name(self) -> (r: &'static str)
        ensures
            r@ == dim_name(self),
    {
        match self {
            Self::ServiceId => "service_id",
            Self::Port => "port",
            Self::Tier => "tier",
            Self::DependencyCount => "dependency_count",
            Self::AgentCount => "agent_count",
            Self::Protocol => "protocol",
            Self::HealthScore => "health_score",
            Self::Uptime => "uptime",
            Self::Synergy => "synergy",
            Self::Latency => "latency",
            Self::ErrorRate => "error_rate",
            Self::TemporalContext => "temporal_context",
        }
    }

    /// The dimension at `index`, `None` when `index >= 12`.
    pub fn from_index(index: usize) -> (r: Option<Self>)
        ensures
            r == (if index < 12 { Some(dim_at(index as nat)) } else { None }),
    {
        match index {
            0 => Some(Self::ServiceId),
            1 => Some(Self::Port),
            2 => Some(Self::Tier),
            3 => Some(Self::DependencyCount),
            4 => Some(Self::AgentCount),
            5 => Some(Self::Protocol),
            6 => Some(Self::HealthScore),
            7 => Some(Self::Uptime),
            8 => Some(Self::Synergy),
            9 => Some(Self::Latency),
            10 => Some(Self::ErrorRate),
            11 => Some(Self::TemporalContext),
            _ => None,
        }
    }

    /// The dimension with the given name, `None` when the name is unknown.
    pub fn from_name(name: &str) -> (r: Option<Self>)
        ensures
            r == dim_named(name@),
    {
        if str_eq(name, "service_id") {
            return Some(Self::ServiceId);
        }
        if str_eq(name, "port") {
            return Some(Self::Port);
        }
        if str_eq(name, "tier") {
            return Some(Self::Tier);
        }
        if str_eq(name, "dependency_count") {
            return Some(Self::DependencyCount);
        }
        if str_eq(name, "agent_count") {
            return Some(Self::AgentCount);
        }
        if str_eq(name, "protocol") {
            return Some(Self::Protocol);
        }
        if str_eq(name, "health_score") {
            return Some(Self::HealthScore);
        }
        if str_eq(name, "uptime") {
            return Some(Self::Uptime);
        }
        if str_eq(name, "synergy") {
            return Some(Self::Synergy);
        }
        if str_eq(name, "latency") {
            return Some(Self::Latency);
        }
        if str_eq(name, "error_rate") {
            return Some(Self::ErrorRate);
        }
        if str_eq(name, "temporal_context") {
            return Some(Self::TemporalContext);
        }
        None
    }

    /// `D<index>:<name>`.
    pub fn to_display_string(self) -> (r: String)
        ensures
            r@ == seq!['D'] + decimal(dim_index(self)) + seq![':'] + dim_name(self),
    {
        let mut s = String::new();
        push_char(&mut s, 'D');
        push_decimal(&mut s, self.index() as u64);
        push_char(&mut s, ':');
        push_str(&mut s, self.name());
        assert(s@ =~= seq!['D'] + decimal(dim_index(self)) + seq![':'] + dim_name(self));
        s
    }
}

/// Index and position agree: the dimension at a dimension's index is that
/// dimension, and every position below twelve is the index of its dimension.
pub proof fn lemma_dim_index_roundtrip(d: DimensionIndex, i: nat)
    ensures
        dim_index(d) < 12,
        dim_at(dim_index(d)) == d,
        i < 12 ==> dim_index(dim_at(i)) == i,
{
}

/// Names identify dimensions: looking up a dimension's name gives the
/// dimension back, so no two dimensions share a name.
pub proof fn lemma_dim_name_roundtrip(d: DimensionIndex)
    ensures
        dim_named(dim_name(d)) == Some(d),
{
    match d {
        DimensionIndex::ServiceId => {
        },
        DimensionIndex::Port => {
            assert("port"@.len() != "service_id"@.len()) by {
                reveal_strlit("port");
                reveal_strlit("service_id");
            }
        },
        DimensionIndex::Tier => {
            assert("tier"@.len() != "service_id"@.len()) by {
                reveal_strlit("tier");
                reveal_strlit("service_id");
            }
            assert("tier"@[0] != "port"@[0]) by {
                reveal_strlit("tier");
                reveal_strlit("port");
            }
        },
        DimensionIndex::DependencyCount => {
            assert("dependency_count"@.len() != "service_id"@.len()) by {
                reveal_strlit("dependency_count");
                reveal_strlit("service_id");
            }
            assert("dependency_count"@.len() != "port"@.len()) by {
                reveal_strlit("dependency_count");
                reveal_strlit("port");
            }
            assert("dependency_count"@.len() != "tier"@.len()) by {
                reveal_strlit("dependency_count");
                reveal_strlit("tier");
            }
        },
        DimensionIndex::AgentCount => {
            assert("agent_count"@.len() != "service_id"@.len()) by {
                reveal_strlit("agent_count");
                reveal_strlit("service_id");
            }
            assert("agent_count"@.len() != "port"@.len()) by {
                reveal_strlit("agent_count");
                reveal_strlit("port");
            }
            assert("agent_count"@.len() != "tier"@.len()) by {
                reveal_strlit("agent_count");
                reveal_strlit("tier");
            }
            assert("agent_count"@.len() != "dependency_count"@.len()) by {
                reveal_strlit("agent_count");
                reveal_strlit("dependency_count");
            }
        },
        DimensionIndex::Protocol => {
            assert("protocol"@.len() != "service_id"@.len()) by {
                reveal_strlit("protocol");
                reveal_strlit("service_id");
            }
            assert("protocol"@.len() != "port"@.len()) by {
                reveal_strlit("protocol");
                reveal_strlit("port");
            }
            assert("protocol"@.len() != "tier"@.len()) by {
                reveal_strlit("protocol");
                reveal_strlit("tier");
            }
            assert("protocol"@.len() != "dependency_count"@.len()) by {
                reveal_strlit("protocol");
                reveal_strlit("dependency_count");
            }
            assert("protocol"@.len() != "agent_count"@.len()) by {
                reveal_strlit("protocol");
                reveal_strlit("agent_count");
            }
        },
        DimensionIndex::HealthScore => {
            assert("health_score"@.len() != "service_id"@.len()) by {
                reveal_strlit("health_score");
                reveal_strlit("service_id");
            }
            assert("health_score"@.len() != "port"@.len()) by {
                reveal_strlit("health_score");
                reveal_strlit("port");
            }
            assert("health_score"@.len() != "tier"@.len()) by {
                reveal_strlit("health_score");
                reveal_strlit("tier");
            }
            assert("health_score"@.len() != "dependency_count"@.len()) by {
                reveal_strlit("health_score");
                reveal_strlit("dependency_count");
            }
            assert("health_score"@.len() != "agent_count"@.len()) by {
                reveal_strlit("health_score");
                reveal_strlit("agent_count");
            }
            assert("health_score"@.len() != "protocol"@.len()) by {
                reveal_strlit("health_score");
                reveal_strlit("protocol");
            }
        },
        DimensionIndex::Uptime => {
            assert("uptime"@.len() != "service_id"@.len()) by {
                reveal_strlit("uptime");
                reveal_strlit("service_id");
            }
            assert("uptime"@.len() != "port"@.len()) by {
                reveal_strlit("uptime");
                reveal_strlit("port");
            }
            assert("uptime"@.len() != "tier"@.len()) by {
                reveal_strlit("uptime");
                reveal_strlit("tier");
            }
            assert("uptime"@.len() != "dependency_count"@.len()) by {
                reveal_strlit("uptime");
                reveal_strlit("dependency_count");
            }
            assert("uptime"@.len() != "agent_count"@.len()) by {
                reveal_strlit("uptime");
                reveal_strlit("agent_count");
            }
            assert("uptime"@.len() != "protocol"@.len()) by {
                reveal_strlit("uptime");
                reveal_strlit("protocol");
            }
            assert("uptime"@.len() != "health_score"@.len()) by {
                reveal_strlit("uptime");
                reveal_strlit("health_score");
            }
        },
        DimensionIndex::Synergy => {
            assert("synergy"@.len() != "service_id"@.len()) by {
                reveal_strlit("synergy");
                reveal_strlit("service_id");
            }
            assert("synergy"@.len() != "port"@.len()) by {
                reveal_strlit("synergy");
                reveal_strlit("port");
            }
            assert("synergy"@.len() != "tier"@.len()) by {
                reveal_strlit("synergy");
                reveal_strlit("tier");
            }
            assert("synergy"@.len() != "dependency_count"@.len()) by {
                reveal_strlit("synergy");
                reveal_strlit("dependency_count");
            }
            assert("synergy"@.len() != "agent_count"@.len()) by {
                reveal_strlit("synergy");
                reveal_strlit("agent_count");
            }
            assert("synergy"@.len() != "protocol"@.len()) by {
                reveal_strlit("synergy");
                reveal_strlit("protocol");
            }
            assert("synergy"@.len() != "health_score"@.len()) by {
                reveal_strlit("synergy");
                reveal_strlit("health_score");
            }
            assert("synergy"@.len() != "uptime"@.len()) by {
                reveal_strlit("synergy");
                reveal_strlit("uptime");
            }
        },
        DimensionIndex::Latency => {
            assert("latency"@.len() != "service_id"@.len()) by {
                reveal_strlit("latency");
                reveal_strlit("service_id");
            }
            assert("latency"@.len() != "port"@.len()) by {
                reveal_strlit("latency");
                reveal_strlit("port");
            }
            assert("latency"@.len() != "tier"@.len()) by {
                reveal_strlit("latency");
                reveal_strlit("tier");
            }
            assert("latency"@.len() != "dependency_count"@.len()) by {
                reveal_strlit("latency");
                reveal_strlit("dependency_count");
            }
            assert("latency"@.len() != "agent_count"@.len()) by {
                reveal_strlit("latency");
                reveal_strlit("agent_count");
            }
            assert("latency"@.len() != "protocol"@.len()) by {
                reveal_strlit("latency");
                reveal_strlit("protocol");
            }
            assert("latency"@.len() != "health_score"@.len()) by {
                reveal_strlit("latency");
                reveal_strlit("health_score");
            }
            assert("latency"@.len() != "uptime"@.len()) by {
                reveal_strlit("latency");
                reveal_strlit("uptime");
            }
            assert("latency"@[0] != "synergy"@[0]) by {
                reveal_strlit("latency");
                reveal_strlit("synergy");
            }
        },
        DimensionIndex::ErrorRate => {
            assert("error_rate"@[0] != "service_id"@[0]) by {
                reveal_strlit("error_rate");
                reveal_strlit("service_id");
            }
            assert("error_rate"@.len() != "port"@.len()) by {
                reveal_strlit("error_rate");
                reveal_strlit("port");
            }
            assert("error_rate"@.len() != "tier"@.len()) by {
                reveal_strlit("error_rate");
                reveal_strlit("tier");
            }
            assert("error_rate"@.len() != "dependency_count"@.len()) by {
                reveal_strlit("error_rate");
                reveal_strlit("dependency_count");
            }
            assert("error_rate"@.len() != "agent_count"@.len()) by {
                reveal_strlit("error_rate");
                reveal_strlit("agent_count");
            }
            assert("error_rate"@.len() != "protocol"@.len()) by {
                reveal_strlit("error_rate");
                reveal_strlit("protocol");
            }
            assert("error_rate"@.len() != "health_score"@.len()) by {
                reveal_strlit("error_rate");
                reveal_strlit("health_score");
            }
            assert("error_rate"@.len() != "uptime"@.len()) by {
                reveal_strlit("error_rate");
                reveal_strlit("uptime");
            }
            assert("error_rate"@.len() != "synergy"@.len()) by {
                reveal_strlit("error_rate");
                reveal_strlit("synergy");
            }
            assert("error_rate"@.len() != "latency"@.len()) by {
                reveal_strlit("error_rate");
                reveal_strlit("latency");
            }
        },
        DimensionIndex::TemporalContext => {
            assert("temporal_context"@.len() != "service_id"@.len()) by {
                reveal_strlit("temporal_context");
                reveal_strlit("service_id");
            }
            assert("temporal_context"@.len() != "port"@.len()) by {
                reveal_strlit("temporal_context");
                reveal_strlit("port");
            }
            assert("temporal_context"@.len() != "tier"@.len()) by {
                reveal_strlit("temporal_context");
                reveal_strlit("tier");
            }
            assert("temporal_context"@[0] != "dependency_count"@[0]) by {
                reveal_strlit("temporal_context");
                reveal_strlit("dependency_count");
            }
            assert("temporal_context"@.len() != "agent_count"@.len()) by {
                reveal_strlit("temporal_context");
                reveal_strlit("agent_count");
            }
            assert("temporal_context"@.len() != "protocol"@.len()) by {
                reveal_strlit("temporal_context");
                reveal_strlit("protocol");
            }
            assert("temporal_context"@.len() != "health_score"@.len()) by {
                reveal_strlit("temporal_context");
                reveal_strlit("health_score");
            }
            assert("temporal_context"@.len() != "uptime"@.len()) by {
                reveal_strlit("temporal_context");
                reveal_strlit("uptime");
            }
            assert("temporal_context"@.len() != "synergy"@.len()) by {
                reveal_strlit("temporal_context");
                reveal_strlit("synergy");
            }
            assert("temporal_context"@.len() != "latency"@.len()) by {
                reveal_strlit("temporal_context");
                reveal_strlit("latency");
            }
            assert("temporal_context"@.len() != "error_rate"@.len()) by {
                reveal_strlit("temporal_context");
                reveal_strlit("error_rate");
            }
        },
    }
}

// ============================================================================
// CoverageBitmap
// ============================================================================

/// Whether bit `i` of `b` is set.
pub open spec fn bit_set(b: u16, i: u16) -> bool {
    (b >> i) & 1u16 == 1u16
}

/// The mask of the twelve dimension bits.
pub open spec fn coverage_mask() -> u16 {
    0x0FFFu16
}

/// Number of set bits among the lowest `n` bits of `b`.
pub open spec fn count_bits(b: u16, n: nat) -> nat
    decreases n,
{
    if n == 0 {
        0
    } else {
        count_bits(b, (n - 1) as nat) + if bit_set(b, (n - 1) as u16) {
            1nat
        } else {
            0nat
        }
    }
}

/// The dimensions among the first `n` whose bit is set (or clear, when
/// `set` is false), in index order.
pub open spec fn dims_with_bit(b: u16, n: nat, set: bool) -> Seq<DimensionIndex>
    decreases n,
{
    if n == 0 {
        Seq::empty()
    } else if bit_set(b, (n - 1) as u16) == set {
        dims_with_bit(b, (n - 1) as nat, set).push(dim_at((n - 1) as nat))
    } else {
        dims_with_bit(b, (n - 1) as nat, set)
    }
}

proof fn lemma_bits(a: u16, b: u16, i: u16)
    requires
        i < 16,
    ensures
        bit_set(a | b, i) == (bit_set(a, i) || bit_set(b, i)),
        bit_set(a & b, i) == (bit_set(a, i) && bit_set(b, i)),
        bit_set(a & 0x0FFFu16, i) == (i < 12 && bit_set(a, i)),
{
    assert(bit_set(a | b, i) == (bit_set(a, i) || bit_set(b, i))) by (bit_vector)
        requires
            i < 16,
    ;
    assert(bit_set(a & b, i) == (bit_set(a, i) && bit_set(b, i))) by (bit_vector)
        requires
            i < 16,
    ;
    assert(bit_set(a & 0x0FFFu16, i) == (i < 12 && bit_set(a, i))) by (bit_vector)
        requires
            i < 16,
    ;
}

proof fn lemma_single_bit(k: u16, i: u16)
    requires
        k < 16,
        i < 16,
    ensures
        bit_set(1u16 << k, i) == (i == k),
{
    assert(bit_set(1u16 << k, i) == (i == k)) by (bit_vector)
        requires
            k < 16,
            i < 16,
    ;
}

proof fn lemma_masked_high_bits(a: u16)
    ensures
        (a & 0x0FFFu16) <= 0x0FFFu16,
        forall|i: u16| 12 <= i < 16 ==> !bit_set(a & 0x0FFFu16, i),
{
    assert((a & 0x0FFFu16) <= 0x0FFFu16) by (bit_vector);
    assert forall|i: u16| 12 <= i < 16 implies !bit_set(a & 0x0FFFu16, i) by {
        lemma_bits(a, a, i);
    }
}

/// Every one of the first `n` dimensions is either covered or not: the
/// covered ones number `count_bits(b, n)`, and together with the uncovered
/// ones they are all `n`.
pub proof fn lemma_coverage_partition(b: u16, n: nat)
    ensures
        dims_with_bit(b, n, true).len() == count_bits(b, n),
        dims_with_bit(b, n, true).len() + dims_with_bit(b, n, false).len() == n,
    decreases n,
{
    if n > 0 {
        lemma_coverage_partition(b, (n - 1) as nat);
    }
}

/// Bitmap of which of the twelve tensor dimensions are populated.
#[derive(Debug, Clone, Copy, PartialEq, Eq, Hash, Structural)]
pub struct CoverageBitmap(u16);

impl View for CoverageBitmap {
    type V = u16;

    closed spec fn view(&self) -> u16 {
        self.0
    }
}

impl CoverageBitmap {
    /// Only the twelve dimension bits are ever set.
    #[verifier::type_invariant]
    spec fn wf(self) -> bool {
        self.0 <= 0x0FFFu16
    }

    /// Whether the bitmap marks dimension `d` as covered.
    pub open spec fn covers(self, d: DimensionIndex) -> bool {
        bit_set(self@, dim_index(d) as u16)
    }

    /// The empty bitmap.
    pub fn empty() -> (r: Self)
        ensures
            r@ == 0,
            forall|d: DimensionIndex| !r.covers(d),
    {
        assert forall|d: DimensionIndex| !bit_set(0u16, dim_index(d) as u16) by {
            let i = dim_index(d) as u16;
            assert(!bit_set(0u16, i)) by (bit_vector);
        }
        Self(0)
    }

    /// The bitmap covering all twelve dimensions.
    pub fn full() -> (r: Self)
        ensures
            r@ == coverage_mask(),
            forall|d: DimensionIndex| r.covers(d),
    {
        assert forall|d: DimensionIndex| bit_set(0x0FFFu16, dim_index(d) as u16) by {
            let i = dim_index(d) as u16;
            assert(i < 12 ==> bit_set(0x0FFFu16, i)) by (bit_vector);
        }
        Self(0x0FFF)
    }

    /// A bitmap from raw bits, keeping only the twelve dimension bits.
    pub fn from_raw(bits: u16) -> (r: Self)
        ensures
            r@ == bits & coverage_mask(),
    {
        proof {
            lemma_masked_high_bits(bits);
        }
        Self(bits & 0x0FFF)
    }

    /// The raw bits.
    pub fn raw(self) -> (r: u16)
        ensures
            r == self@,
            r <= coverage_mask(),
    {
        proof {
            use_type_invariant(&self);
        }
        self.0
    }

    /// This bitmap with dimension `dim` also covered.
    pub fn with_dimension(self, dim: DimensionIndex) -> (r: Self)
        ensures
            forall|d: DimensionIndex| r.covers(d) == (self.covers(d) || d == dim),
            r@ == (self@ | (1u16 << (dim_index(dim) as u16))) & coverage_mask(),
    {
        proof {
            use_type_invariant(&self);
            lemma_masked_high_bits(self.0 | (1u16 << (dim_index(dim) as u16)));
        }
        let k = dim.index() as u16;
        let bit: u16 = 1u16 << k;
        let r = Self((self.0 | bit) & 0x0FFF);
        proof {
            assert forall|d: DimensionIndex| r.covers(d) == (self.covers(d) || d == dim) by {
                let i = dim_index(d) as u16;
                lemma_bits(self.0 | bit, self.0 | bit, i);
                lemma_bits(self.0, bit, i);
                lemma_single_bit(k, i);
                lemma_dim_index_roundtrip(d, 0);
                lemma_dim_index_roundtrip(dim, 0);
            }
        }
        r
    }

    /// Whether dimension `dim` is covered.
    pub fn is_covered(self, dim: DimensionIndex) -> (r: bool)
        ensures
            r == self.covers(dim),
    {
        let k = dim.index() as u16;
        (self.0 >> k) & 1 == 1
    }

    /// Number of covered dimensions.
    pub fn count(self) -> (r: u32)
        ensures
            r == count_bits(self@, 12),
            r <= 12,
    {
        let mut i: u16 = 0;
        let mut c: u32 = 0;
        while i < 12
            invariant
                i <= 12,
                c == count_bits(self@, i as nat),
                c <= i,
            decreases 12 - i,
        {
            if (self.0 >> i) & 1 == 1 {
                c = c + 1;
            }
            i = i + 1;
        }
        c
    }

    /// Dimensions covered by either bitmap.
    pub fn union(self, other: Self) -> (r: Self)
        ensures
            forall|d: DimensionIndex| r.covers(d) == (self.covers(d) || other.covers(d)),
            r@ == (self@ | other@) & coverage_mask(),
    {
        proof {
            lemma_masked_high_bits(self.0 | other.0);
        }
        let r = Self((self.0 | other.0) & 0x0FFF);
        proof {
            assert forall|d: DimensionIndex| r.covers(d) == (self.covers(d) || other.covers(d)) by {
                let i = dim_index(d) as u16;
                lemma_bits(self.0 | other.0, self.0 | other.0, i);
                lemma_bits(self.0, other.0, i);
            }
        }
        r
    }

    /// Dimensions covered by both bitmaps.
    pub fn intersection(self, other: Self) -> (r: Self)
        ensures
            forall|d: DimensionIndex| r.covers(d) == (self.covers(d) && other.covers(d)),
            r@ == self@ & other@,
    {
        proof {
            use_type_invariant(&self);
            use_type_invariant(&other);
            let a = self.0;
            let b = other.0;
            assert((a & b) <= 0x0FFFu16) by (bit_vector)
                requires
                    a <= 0x0FFFu16,
            ;
        }
        let r = Self(self.0 & other.0);
        proof {
            assert forall|d: DimensionIndex| r.covers(d) == (self.covers(d) && other.covers(d)) by {
                let i = dim_index(d) as u16;
                lemma_bits(self.0, other.0, i);
            }
        }
        r
    }

    /// The covered dimensions in index order.
    pub fn covered_dimensions(self) -> (r: Vec<DimensionIndex>)
        ensures
            r@ == dims_with_bit(self@, 12, true),
    {
        self.dimensions_with(true)
    }

    /// The uncovered dimensions in index order.
    pub fn uncovered_dimensions(self) -> (r: Vec<DimensionIndex>)
        ensures
            r@ == dims_with_bit(self@, 12, false),
    {
        self.dimensions_with(false)
    }

    fn dimensions_with(self, set: bool) -> (r: Vec<DimensionIndex>)
        ensures
            r@ == dims_with_bit(self@, 12, set),
    {
        let all = DimensionIndex::all();
        let mut v: Vec<DimensionIndex> = Vec::new();
        let mut i: u16 = 0;
        while i < 12
            invariant
                i <= 12,
                v@ == dims_with_bit(self@, i as nat, set),
                forall|j: int| 0 <= j < 12 ==> #[trigger] all@[j] == dim_at(j as nat),
            decreases 12 - i,
        {
            let b = (self.0 >> i) & 1 == 1;
            if b == set {
                v.push(all[i as usize]);
            }
            i = i + 1;
        }
        v
    }

    /// `Coverage(<count>/12 = <percent>%)`, the percentage of covered
    /// dimensions rounded to the nearest whole number.  (With twelve
    /// dimensions the exact percentage `25 * count / 3` is never halfway
    /// between two whole numbers, so rounding the floating-point ratio and
    /// rounding the exact fraction agree.)
    pub fn to_display_string(self) -> (r: String)
        ensures
            r@ == "Coverage("@ + decimal(count_bits(self@, 12)) + "/12 = "@ + decimal(
                coverage_percent(count_bits(self@, 12)),
            ) + "%)"@,
    {
        let c = self.count();
        let mut s = owned("Coverage(");
        push_decimal(&mut s, c as u64);
        push_str(&mut s, "/12 = ");
        let pct: u64 = (50 * (c as u64) + 3) / 6;
        push_decimal(&mut s, pct);
        push_str(&mut s, "%)");
        s
    }
}

/// The percentage `100 * count / 12` rounded to the nearest whole number.
pub open spec fn coverage_percent(count: nat) -> nat {
    (50 * count + 3) / 6
}

impl Default for CoverageBitmap {
    fn default() -> (r: Self)
        ensures
            r@ == 0,
    {
        Self(0)
    }
}

} // verus!
