//! Results reported by the engine's orchestration cycles.

use vstd::prelude::*;

verus! {

/// Outcome of one learning cycle.
#[derive(Clone, Debug)]
pub struct LearningCycleResult {
    /// Number of pathways whose strength decayed.
    pub pathways_decayed: usize,
    /// Number of STDP timing pairs processed.
    pub timing_pairs_processed: usize,
    /// Number of anti-pattern detections raised.
    pub antipatterns_detected: usize,
}

impl LearningCycleResult {
    /// Whether any learning activity occurred.
    pub fn had_activity(&self) -> (r: bool)
        ensures
            r == (self.pathways_decayed > 0 || self.timing_pairs_processed > 0
                || self.antipatterns_detected > 0),
    {
        self.pathways_decayed > 0 || self.timing_pairs_processed > 0 || self.antipatterns_detected
            > 0
    }
}

} // verus!
