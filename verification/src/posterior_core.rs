//! Evidence channels of the migration posterior and the ledger summary of a
//! batch of posterior decisions.
//!
//! The posterior itself is computed in floating point outside this library;
//! the channel identities and the counting of decisions are stated here.

use vstd::prelude::*;
use vstd::string::*;

verus! {

/// Schema version for posterior-core reports.
pub const POSTERIOR_CORE_SCHEMA_VERSION: &'static str = "posterior-core-v1";

/// An evidence channel feeding the posterior.
#[derive(Debug, Clone, Copy, PartialEq, Eq, PartialOrd, Ord, Hash, Structural)]
pub enum EvidenceChannel {
    /// Semantic differential (state transitions, side effects).
    Semantic,
    /// Visual / terminal-output comparison.
    Visual,
    /// Performance comparison.
    Performance,
    /// Accessibility parity.
    Accessibility,
    /// Determinism / replay stability.
    Determinism,
}

impl EvidenceChannel {
    /// Every channel, in canonical aggregation order.
    pub const ALL: [EvidenceChannel; 5] = [
        EvidenceChannel::Semantic,
        EvidenceChannel::Visual,
        EvidenceChannel::Performance,
        EvidenceChannel::Accessibility,
        EvidenceChannel::Determinism,
    ];

    /// Stable lowercase tag.
    pub open spec fn tag(self) -> Seq<char> {
        match self {
            EvidenceChannel::Semantic => "semantic"@,
            EvidenceChannel::Visual => "visual"@,
            EvidenceChannel::Performance => "performance"@,
            EvidenceChannel::Accessibility => "accessibility"@,
            EvidenceChannel::Determinism => "determinism"@,
        }
    }

    /// Stable lowercase tag.
    pub fn as_str(self) -> (s: &'static str)
        ensures
            s@ == self.tag(),
    {
        match self {
            EvidenceChannel::Semantic => "semantic",
            EvidenceChannel::Visual => "visual",
            EvidenceChannel::Performance => "performance",
            EvidenceChannel::Accessibility => "accessibility",
            EvidenceChannel::Determinism => "determinism",
        }
    }

    /// Canonical aggregation index.
    pub open spec fn index(self) -> nat {
        match self {
            EvidenceChannel::Semantic => 0,
            EvidenceChannel::Visual => 1,
            EvidenceChannel::Performance => 2,
            EvidenceChannel::Accessibility => 3,
            EvidenceChannel::Determinism => 4,
        }
    }

    /// Canonical aggregation index (for deterministic tie-breaks).
    pub fn order_index(self) -> (i: usize)
        ensures
            i == self.index(),
    {
        match self {
            EvidenceChannel::Semantic => 0,
            EvidenceChannel::Visual => 1,
            EvidenceChannel::Performance => 2,
            EvidenceChannel::Accessibility => 3,
            EvidenceChannel::Determinism => 4,
        }
    }
}

/// The migration decision a posterior record carries.
#[derive(Debug, Clone, Copy, PartialEq, Eq, Structural)]
pub enum MigrationDecision {
    /// Accept without review.
    AutoApprove,
    /// Route to a person for a decision.
    HumanReview,
    /// Reject the migration.
    Reject,
    /// Reject with no appeal.
    HardReject,
    /// Fall back to the conservative path.
    ConservativeFallback,
    /// Roll the migration back.
    Rollback,
}

/// Aggregate counts for a posterior-ledger report.
#[derive(Debug, Clone, PartialEq, Eq)]
pub struct PosteriorLedgerSummary {
    /// Total claims evaluated.
    pub total_claims: usize,
    /// Auto-approve verdicts.
    pub auto_approve_count: usize,
    /// Human-review verdicts.
    pub human_review_count: usize,
    /// Reject verdicts.
    pub reject_count: usize,
    /// Hard-reject verdicts.
    pub hard_reject_count: usize,
    /// Conservative-fallback verdicts (rollbacks included).
    pub conservative_fallback_count: usize,
    /// Records produced under degraded evidence.
    pub degraded_count: usize,
}

/// Number of the first `n` outcomes whose decision satisfies `p`.
pub open spec fn decision_count(
    outcomes: Seq<(MigrationDecision, bool)>,
    p: spec_fn(MigrationDecision) -> bool,
    n: int,
) -> nat
    decreases n,
{
    if n <= 0 {
        0
    } else {
        decision_count(outcomes, p, n - 1) + if p(outcomes[n - 1].0) {
            1nat
        } else {
            0nat
        }
    }
}

/// Number of the first `n` outcomes produced under degraded evidence.
pub open spec fn degraded_count(outcomes: Seq<(MigrationDecision, bool)>, n: int) -> nat
    decreases n,
{
    if n <= 0 {
        0
    } else {
        degraded_count(outcomes, n - 1) + if outcomes[n - 1].1 {
            1nat
        } else {
            0nat
        }
    }
}

/// Decisions equal to `d`.
pub open spec fn is_decision(d: MigrationDecision) -> spec_fn(MigrationDecision) -> bool {
    |x: MigrationDecision| x == d
}

/// Decisions that fall back: conservative fallback or rollback.
pub open spec fn is_fallback() -> spec_fn(MigrationDecision) -> bool {
    |x: MigrationDecision| x == MigrationDecision::ConservativeFallback || x
        == MigrationDecision::Rollback
}

/// Whether `s` counts the decisions and degraded flags of `outcomes`.
pub open spec fn ledger_summary_of(s: PosteriorLedgerSummary, outcomes: Seq<(MigrationDecision, bool)>) -> bool {
    let n = outcomes.len() as int;
    &&& s.total_claims == outcomes.len()
    &&& s.auto_approve_count == decision_count(outcomes, is_decision(MigrationDecision::AutoApprove), n)
    &&& s.human_review_count == decision_count(outcomes, is_decision(MigrationDecision::HumanReview), n)
    &&& s.reject_count == decision_count(outcomes, is_decision(MigrationDecision::Reject), n)
    &&& s.hard_reject_count == decision_count(outcomes, is_decision(MigrationDecision::HardReject), n)
    &&& s.conservative_fallback_count == decision_count(outcomes, is_fallback(), n)
    &&& s.degraded_count == degraded_count(outcomes, n)
}

/// Summarize a batch of posterior outcomes, each a decision and whether it
/// was reached under degraded evidence.
pub fn summarize_outcomes(outcomes: &Vec<(MigrationDecision, bool)>) -> (s: PosteriorLedgerSummary)
    ensures
        ledger_summary_of(s, outcomes@),
{
    let mut s = PosteriorLedgerSummary {
        total_claims: outcomes.len(),
        auto_approve_count: 0,
        human_review_count: 0,
        reject_count: 0,
        hard_reject_count: 0,
        conservative_fallback_count: 0,
        degraded_count: 0,
    };
    let ghost o = outcomes@;
    let mut i: usize = 0;
    while i < outcomes.len()
        invariant
            i <= o.len(),
            o == outcomes@,
            s.total_claims == o.len(),
            s.auto_approve_count == decision_count(o, is_decision(MigrationDecision::AutoApprove), i as int),
            s.human_review_count == decision_count(o, is_decision(MigrationDecision::HumanReview), i as int),
            s.reject_count == decision_count(o, is_decision(MigrationDecision::Reject), i as int),
            s.hard_reject_count == decision_count(o, is_decision(MigrationDecision::HardReject), i as int),
            s.conservative_fallback_count == decision_count(o, is_fallback(), i as int),
            s.degraded_count == degraded_count(o, i as int),
            s.auto_approve_count + s.human_review_count + s.reject_count + s.hard_reject_count
                + s.conservative_fallback_count == i,
            s.degraded_count <= i,
        decreases o.len() - i,
    {
        let (decision, degraded) = outcomes[i];
        match decision {
            MigrationDecision::AutoApprove => s.auto_approve_count = s.auto_approve_count + 1,
            MigrationDecision::HumanReview => s.human_review_count = s.human_review_count + 1,
            MigrationDecision::Reject => s.reject_count = s.reject_count + 1,
            MigrationDecision::HardReject => s.hard_reject_count = s.hard_reject_count + 1,
            MigrationDecision::ConservativeFallback | MigrationDecision::Rollback => {
                s.conservative_fallback_count = s.conservative_fallback_count + 1;
            },
        }
        if degraded {
            s.degraded_count = s.degraded_count + 1;
        }
        i = i + 1;
    }
    s
}

/// Deterministic JSON-stats artifact (content + checksum).
#[derive(Debug, Clone, PartialEq, Eq)]
pub struct PosteriorJsonStatsArtifact {
    /// Suggested relative output path.
    pub path: String,
    /// SHA-256 of `content`.
    pub sha256: String,
    /// Serialized JSON content.
    pub content: String,
}

/// Every outcome is counted under exactly one decision.
proof fn lemma_decision_counts_sum(outcomes: Seq<(MigrationDecision, bool)>, n: int)
    requires
        0 <= n <= outcomes.len(),
    ensures
        decision_count(outcomes, is_decision(MigrationDecision::AutoApprove), n) + decision_count(
            outcomes,
            is_decision(MigrationDecision::HumanReview),
            n,
        ) + decision_count(outcomes, is_decision(MigrationDecision::Reject), n) + decision_count(
            outcomes,
            is_decision(MigrationDecision::HardReject),
            n,
        ) + decision_count(outcomes, is_fallback(), n) == n,
    decreases n,
{
    if n > 0 {
        lemma_decision_counts_sum(outcomes, n - 1);
    }
}

/// The decision counts of a ledger summary add up to the number of claims,
/// and no more claims are degraded than there are.
pub proof fn law_ledger_counts_add_up(s: PosteriorLedgerSummary, outcomes: Seq<(MigrationDecision, bool)>)
    requires
        ledger_summary_of(s, outcomes),
    ensures
        s.auto_approve_count + s.human_review_count + s.reject_count + s.hard_reject_count
            + s.conservative_fallback_count == s.total_claims,
        s.degraded_count <= s.total_claims,
{
    lemma_decision_counts_sum(outcomes, outcomes.len() as int);
    lemma_degraded_bound(outcomes, outcomes.len() as int);
}

proof fn lemma_degraded_bound(outcomes: Seq<(MigrationDecision, bool)>, n: int)
    requires
        0 <= n <= outcomes.len(),
    ensures
        degraded_count(outcomes, n) <= n,
    decreases n,
{
    if n > 0 {
        lemma_degraded_bound(outcomes, n - 1);
    }
}

} // verus!
