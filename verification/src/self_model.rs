//! Self-model vocabulary: the engine's architecture descriptor, the status
//! of its capabilities and their summary, the names and module counts of
//! its layers, and the checks on capability names and layer indices.

use vstd::prelude::*;
use crate::error::{Error, Result};
use crate::text::{decimal, owned, push_decimal, push_str};

verus! {

/// Default number of modules in the engine.
pub const DEFAULT_MODULE_COUNT: u8 = 48;

/// Default number of layers in the engine.
pub const DEFAULT_LAYER_COUNT: u8 = 8;

/// Default capability capacity.
pub const DEFAULT_CAPABILITY_CAPACITY: usize = 64;

/// Engine version string.
pub const ENGINE_VERSION: &'static str = "2.0.0";

/// Module identifier for self-model health reports.
pub const SELF_MODEL_MODULE_ID: &'static str = "M48";

/// Layer names indexed by layer number (0-based).
pub const LAYER_NAMES: [&'static str; 8] = [
    "Foundation",
    "Services",
    "Core Logic",
    "Integration",
    "Learning",
    "Consensus",
    "Observer",
    "Nexus",
];

// ============================================================================
// CapabilityStatus
// ============================================================================

/// Status of a capability within the engine.
#[derive(Debug, Clone, Copy, PartialEq, Eq, Hash)]
pub enum CapabilityStatus {
    /// Fully operational.
    Ready,
    /// Partially functional or experiencing issues.
    Degraded,
    /// Not available.
    Unavailable,
    /// Not yet determined.
    Unknown,
}

/// The name a status displays as.
pub open spec fn status_name(s: CapabilityStatus) -> Seq<char> {
    match s {
        CapabilityStatus::Ready => "READY"@,
        CapabilityStatus::Degraded => "DEGRADED"@,
        CapabilityStatus::Unavailable => "UNAVAILABLE"@,
        CapabilityStatus::Unknown => "UNKNOWN"@,
    }
}

impl CapabilityStatus {
    /// The status's display name.
    pub fn to_display_string(&self) -> (r: String)
        ensures
            r@ == status_name(*self),
    {
        match self {
            CapabilityStatus::Ready => owned("READY"),
            CapabilityStatus::Degraded => owned("DEGRADED"),
            CapabilityStatus::Unavailable => owned("UNAVAILABLE"),
            CapabilityStatus::Unknown => owned("UNKNOWN"),
        }
    }
}

impl Default for CapabilityStatus {
    fn default() -> (r: Self)
        ensures
            r == CapabilityStatus::Unknown,
    {
        CapabilityStatus::Unknown
    }
}

// ============================================================================
// CapabilitySummary
// ============================================================================

/// Aggregated summary of tracked capabilities.
#[derive(Debug, Clone, PartialEq, Eq)]
pub struct CapabilitySummary {
    /// Total number of tracked capabilities.
    pub total: usize,
    /// Number in the `Ready` state.
    pub ready: usize,
    /// Number in the `Degraded` state.
    pub degraded: usize,
    /// Number in the `Unavailable` state.
    pub unavailable: usize,
    /// Number in the `Unknown` state.
    pub unknown: usize,
}

/// How many of `s` equal `x`.
pub open spec fn count_status(s: Seq<CapabilityStatus>, x: CapabilityStatus) -> nat
    decreases s.len(),
{
    if s.len() == 0 {
        0
    } else {
        count_status(s.drop_last(), x) + if s.last() == x {
            1nat
        } else {
            0nat
        }
    }
}

/// The four counts add up to the number of statuses.
pub proof fn lemma_status_counts_sum(s: Seq<CapabilityStatus>)
    ensures
        count_status(s, CapabilityStatus::Ready) + count_status(s, CapabilityStatus::Degraded)
            + count_status(s, CapabilityStatus::Unavailable) + count_status(
            s,
            CapabilityStatus::Unknown,
        ) == s.len(),
    decreases s.len(),
{
    if s.len() > 0 {
        lemma_status_counts_sum(s.drop_last());
    }
}

proof fn lemma_count_bounded(s: Seq<CapabilityStatus>, x: CapabilityStatus)
    ensures
        count_status(s, x) <= s.len(),
    decreases s.len(),
{
    if s.len() > 0 {
        lemma_count_bounded(s.drop_last(), x);
    }
}

impl CapabilitySummary {
    /// Counts the capabilities in each status.
    pub fn from_statuses(statuses: &[CapabilityStatus]) -> (r: Self)
        ensures
            r.total == statuses@.len(),
            r.ready == count_status(statuses@, CapabilityStatus::Ready),
            r.degraded == count_status(statuses@, CapabilityStatus::Degraded),
            r.unavailable == count_status(statuses@, CapabilityStatus::Unavailable),
            r.unknown == count_status(statuses@, CapabilityStatus::Unknown),
    {
        let mut ready: usize = 0;
        let mut degraded: usize = 0;
        let mut unavailable: usize = 0;
        let mut unknown: usize = 0;
        let mut i: usize = 0;
        while i < statuses.len()
            invariant
                i <= statuses@.len(),
                ready == count_status(statuses@.take(i as int), CapabilityStatus::Ready),
                degraded == count_status(statuses@.take(i as int), CapabilityStatus::Degraded),
                unavailable == count_status(
                    statuses@.take(i as int),
                    CapabilityStatus::Unavailable,
                ),
                unknown == count_status(statuses@.take(i as int), CapabilityStatus::Unknown),
            decreases statuses@.len() - i,
        {
            proof {
                let t = statuses@.take(i + 1);
                assert(t.drop_last() =~= statuses@.take(i as int));
                lemma_count_bounded(statuses@.take(i as int), CapabilityStatus::Ready);
                lemma_count_bounded(statuses@.take(i as int), CapabilityStatus::Degraded);
                lemma_count_bounded(statuses@.take(i as int), CapabilityStatus::Unavailable);
                lemma_count_bounded(statuses@.take(i as int), CapabilityStatus::Unknown);
            }
            match statuses[i] {
                CapabilityStatus::Ready => ready = ready + 1,
                CapabilityStatus::Degraded => degraded = degraded + 1,
                CapabilityStatus::Unavailable => unavailable = unavailable + 1,
                CapabilityStatus::Unknown => unknown = unknown + 1,
            }
            i = i + 1;
        }
        assert(statuses@.take(i as int) =~= statuses@);
        CapabilitySummary { total: statuses.len(), ready, degraded, unavailable, unknown }
    }
}

// ============================================================================
// ArchitectureDescriptor
// ============================================================================

/// High-level architecture of the engine.
#[derive(Debug, Clone, PartialEq, Eq)]
pub struct ArchitectureDescriptor {
    /// Total number of layers (default 8).
    pub layer_count: u8,
    /// Total number of modules (default 48).
    pub module_count: u8,
    /// NAM compliance requirements satisfied by this architecture.
    pub nam_requirements: Vec<String>,
    /// Engine version string.
    pub version: &'static str,
}

/// The NAM requirements every architecture lists by default.
pub open spec fn default_nam_requirements() -> Seq<Seq<char>> {
    seq![
        "R1:SelfQuery"@,
        "R2:HebbianRouting"@,
        "R3:DissentCapture"@,
        "R4:FieldVisualization"@,
        "R5:HumanAsAgent"@,
    ]
}

/// The text an architecture displays as:
/// `ME v<version> (<layers> layers, <modules> modules, <n> NAM reqs)`.
pub open spec fn architecture_text(version: Seq<char>, layers: u8, modules: u8, reqs: nat) -> Seq<
    char,
> {
    "ME v"@ + version + " ("@ + decimal(layers as nat) + " layers, "@ + decimal(modules as nat)
        + " modules, "@ + decimal(reqs) + " NAM reqs)"@
}

impl Default for ArchitectureDescriptor {
    fn default() -> (r: Self)
        ensures
            r.layer_count == DEFAULT_LAYER_COUNT,
            r.module_count == DEFAULT_MODULE_COUNT,
            r.nam_requirements@.map_values(|s: String| s@) == default_nam_requirements(),
            r.version@ == ENGINE_VERSION@,
    {
        let mut reqs: Vec<String> = Vec::new();
        reqs.push(owned("R1:SelfQuery"));
        reqs.push(owned("R2:HebbianRouting"));
        reqs.push(owned("R3:DissentCapture"));
        reqs.push(owned("R4:FieldVisualization"));
        reqs.push(owned("R5:HumanAsAgent"));
        assert(reqs@.map_values(|s: String| s@) =~= default_nam_requirements());
        ArchitectureDescriptor {
            layer_count: DEFAULT_LAYER_COUNT,
            module_count: DEFAULT_MODULE_COUNT,
            nam_requirements: reqs,
            version: ENGINE_VERSION,
        }
    }
}

impl ArchitectureDescriptor {
    /// The descriptor's display text.
    pub fn to_display_string(&self) -> (r: String)
        ensures
            r@ == architecture_text(
                self.version@,
                self.layer_count,
                self.module_count,
                self.nam_requirements@.len(),
            ),
    {
        let mut out = owned("ME v");
        push_str(&mut out, self.version);
        push_str(&mut out, " (");
        push_decimal(&mut out, self.layer_count as u64);
        push_str(&mut out, " layers, ");
        push_decimal(&mut out, self.module_count as u64);
        push_str(&mut out, " modules, ");
        push_decimal(&mut out, self.nam_requirements.len() as u64);
        push_str(&mut out, " NAM reqs)");
        out
    }
}

// ============================================================================
// Layers
// ============================================================================

/// The number of modules in each layer: 10 in the foundation, 4 in the
/// services layer, 8 in integration, 6 in each other layer, 0 past the
/// last layer.
pub open spec fn layer_module_count(layer: u8) -> u8 {
    if layer == 0 {
        10
    } else if layer == 1 {
        4
    } else if layer == 3 {
        8
    } else if layer <= 7 {
        6
    } else {
        0
    }
}

/// The approximate module count of a layer.
pub fn modules_per_layer(layer: u8) -> (r: u8)
    ensures
        r == layer_module_count(layer),
{
    match layer {
        0 => 10,
        1 => 4,
        3 => 8,
        2 | 4 | 5 | 6 | 7 => 6,
        _ => 0,
    }
}

/// Checks that a capability name is non-empty.
pub fn validate_capability_name(name: &str) -> (r: Result<()>)
    ensures
        name@.len() == 0 ==> (r matches Err(Error::Validation(m)) && m@
            == "capability name must not be empty"@),
        name@.len() > 0 ==> r is Ok,
{
    if name.unicode_len() == 0 {
        Err(Error::Validation(owned("capability name must not be empty")))
    } else {
        Ok(())
    }
}

/// Checks that a layer index is at most 7.
pub fn validate_layer(layer: u8) -> (r: Result<()>)
    ensures
        layer > 7 ==> (r matches Err(Error::Validation(m)) && m@ == "layer index "@ + decimal(
            layer as nat,
        ) + " out of range (max 7)"@),
        layer <= 7 ==> r is Ok,
{
    if layer > 7 {
        let mut m = owned("layer index ");
        push_decimal(&mut m, layer as u64);
        push_str(&mut m, " out of range (max 7)");
        Err(Error::Validation(m))
    } else {
        Ok(())
    }
}

} // verus!
