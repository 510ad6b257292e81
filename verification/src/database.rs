//! Records kept by the persistence layer that hold no measurements: links
//! between correlated events and the summary of a health check over the
//! configured databases.

use vstd::prelude::*;

verus! {

/// A log-correlator link between events.
#[derive(Clone, Debug)]
pub struct CorrelationEntry {
    /// Unique correlation identifier.
    pub id: String,
    /// Correlation channel name.
    pub channel: String,
    /// Type of the correlated event.
    pub event_type: String,
    /// Number of linked events in this correlation.
    pub link_count: u32,
    /// ISO-8601 timestamp.
    pub timestamp: String,
}

/// Summary report from a database health check.
#[derive(Clone, Debug)]
pub struct DatabaseHealthReport {
    /// Total number of databases checked.
    pub total_databases: usize,
    /// Number of healthy databases.
    pub healthy_databases: usize,
    /// Whether every database is healthy.
    pub all_healthy: bool,
    /// ISO-8601 timestamp of the check.
    pub checked_at: String,
}

/// How many of the checks passed.
pub open spec fn passed_count(checks: Seq<bool>) -> nat
    decreases checks.len(),
{
    if checks.len() == 0 {
        0
    } else {
        passed_count(checks.drop_last()) + if checks.last() {
            1nat
        } else {
            0nat
        }
    }
}

/// Every check passed exactly when the passed count is the number of
/// checks.
pub proof fn lemma_all_passed_iff_count(checks: Seq<bool>)
    ensures
        (passed_count(checks) == checks.len()) <==> (forall|i: int|
            0 <= i < checks.len() ==> #[trigger] checks[i]),
        passed_count(checks) <= checks.len(),
    decreases checks.len(),
{
    if checks.len() > 0 {
        let init = checks.drop_last();
        lemma_all_passed_iff_count(init);
        if forall|i: int| 0 <= i < checks.len() ==> #[trigger] checks[i] {
            assert forall|i: int| 0 <= i < init.len() implies #[trigger] init[i] by {
                assert(init[i] == checks[i]);
            }
        }
        if passed_count(checks) == checks.len() {
            assert forall|i: int| 0 <= i < checks.len() implies #[trigger] checks[i] by {
                if i < init.len() {
                    assert(init[i] == checks[i]);
                }
            }
        }
    }
}

impl DatabaseHealthReport {
    /// The report on one health check per database, taken at `checked_at`.
    pub fn from_checks(checks: &[bool], checked_at: String) -> (r: Self)
        ensures
            r.total_databases == checks@.len(),
            r.healthy_databases == passed_count(checks@),
            r.all_healthy == (passed_count(checks@) == checks@.len()),
            r.checked_at@ == checked_at@,
    {
        let mut healthy: usize = 0;
        let mut i: usize = 0;
        while i < checks.len()
            invariant
                i <= checks@.len(),
                healthy == passed_count(checks@.take(i as int)),
            decreases checks@.len() - i,
        {
            proof {
                lemma_all_passed_iff_count(checks@.take(i as int));
                assert(checks@.take(i + 1).drop_last() =~= checks@.take(i as int));
            }
            if checks[i] {
                healthy = healthy + 1;
            }
            i = i + 1;
        }
        assert(checks@.take(i as int) =~= checks@);
        let total = checks.len();
        DatabaseHealthReport {
            total_databases: total,
            healthy_databases: healthy,
            all_healthy: healthy == total,
            checked_at,
        }
    }
}

} // verus!
