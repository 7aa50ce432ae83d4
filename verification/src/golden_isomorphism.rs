//! Golden-output isomorphism: the behavior-preservation invariants an
//! optimization may declare, the optimization change with its policy
//! exceptions, the per-fixture checksum verdicts, and the isomorphism-proof
//! artifact that the verification gate turns into a promotion decision.
//!
//! The checksums themselves are computed over normalized fixture outputs
//! (which carry floating-point observables) outside this library; here the
//! decisions taken from those checksums are stated and proved.

use vstd::prelude::*;
use vstd::string::*;

pub mod gate;
pub mod report;
pub mod laws;

pub use gate::{
    GoldenFinding, GoldenFindingCode, GoldenIsomorphismConfig, GoldenIsomorphismSummary,
    GoldenSeverity,
};
pub use report::{GoldenIsomorphismGate, GoldenIsomorphismReport, GoldenJsonStatsArtifact};

use crate::text::{is_blank, str_is_blank};

verus! {

/// Schema version for the golden-isomorphism oracle artifacts.
pub const GOLDEN_ISOMORPHISM_SCHEMA_VERSION: &'static str = "golden-isomorphism-v1";

// ── Equivalence invariants ───────────────────────────────────────────────

/// A declared behavior-preservation invariant an optimization relies on.
#[derive(Debug, Clone, Copy, PartialEq, Eq, Hash, Structural)]
pub enum IsomorphismInvariant {
    /// The full emission order of records is not observable (tag `ordering`).
    Reordering,
    /// Only the order among records sharing a key is not observable.
    TieBreak,
    /// Floats are equivalent within `tolerance_decimals` decimal places.
    FloatingPoint {
        /// Number of decimal places preserved before comparison.
        tolerance_decimals: u8,
    },
    /// RNG seed material is not part of observable behavior.
    RngSeed,
}

/// The coarse identity of an invariant (ignores the floating-point tolerance).
#[derive(Debug, Clone, Copy, PartialEq, Eq, PartialOrd, Ord, Hash, Structural)]
pub enum InvariantKind {
    /// `IsomorphismInvariant::Reordering`.
    Reordering,
    /// `IsomorphismInvariant::TieBreak`.
    TieBreak,
    /// `IsomorphismInvariant::FloatingPoint`.
    FloatingPoint,
    /// `IsomorphismInvariant::RngSeed`.
    RngSeed,
}

impl IsomorphismInvariant {
    /// The coarse kind of this invariant.
    pub open spec fn kind_spec(self) -> InvariantKind {
        match self {
            IsomorphismInvariant::Reordering => InvariantKind::Reordering,
            IsomorphismInvariant::TieBreak => InvariantKind::TieBreak,
            IsomorphismInvariant::FloatingPoint { .. } => InvariantKind::FloatingPoint,
            IsomorphismInvariant::RngSeed => InvariantKind::RngSeed,
        }
    }

    /// The coarse kind of this invariant.
    pub fn kind(self) -> (k: InvariantKind)
        ensures
            k == self.kind_spec(),
    {
        match self {
            IsomorphismInvariant::Reordering => InvariantKind::Reordering,
            IsomorphismInvariant::TieBreak => InvariantKind::TieBreak,
            IsomorphismInvariant::FloatingPoint { .. } => InvariantKind::FloatingPoint,
            IsomorphismInvariant::RngSeed => InvariantKind::RngSeed,
        }
    }

    /// Stable lowercase identifier.
    pub open spec fn tag(self) -> Seq<char> {
        match self {
            IsomorphismInvariant::Reordering => "ordering"@,
            IsomorphismInvariant::TieBreak => "tie_break"@,
            IsomorphismInvariant::FloatingPoint { .. } => "floating_point"@,
            IsomorphismInvariant::RngSeed => "rng_seed"@,
        }
    }

    /// Stable lowercase identifier.
    pub fn as_str(self) -> (s: &'static str)
        ensures
            s@ == self.tag(),
    {
        match self {
            IsomorphismInvariant::Reordering => "ordering",
            IsomorphismInvariant::TieBreak => "tie_break",
            IsomorphismInvariant::FloatingPoint { .. } => "floating_point",
            IsomorphismInvariant::RngSeed => "rng_seed",
        }
    }
}

/// Whether a declared invariant held and whether it was load-bearing.
#[derive(Debug, Clone, Copy, PartialEq, Eq, Structural)]
pub enum InvariantStatus {
    /// The overall equivalence held and this invariant was required for it.
    HoldsLoadBearing,
    /// The overall equivalence held but this invariant was not required.
    HoldsUnused,
    /// The overall equivalence did not hold under the declared set.
    Violated,
}

impl InvariantStatus {
    /// Stable lowercase identifier.
    pub open spec fn tag(self) -> Seq<char> {
        match self {
            InvariantStatus::HoldsLoadBearing => "holds_load_bearing"@,
            InvariantStatus::HoldsUnused => "holds_unused"@,
            InvariantStatus::Violated => "violated"@,
        }
    }

    /// Stable lowercase identifier.
    pub fn as_str(self) -> (s: &'static str)
        ensures
            s@ == self.tag(),
    {
        match self {
            InvariantStatus::HoldsLoadBearing => "holds_load_bearing",
            InvariantStatus::HoldsUnused => "holds_unused",
            InvariantStatus::Violated => "violated",
        }
    }
}

/// The status of one declared invariant: violated when the proof's overall
/// equivalence fails; otherwise unused when the equivalence still holds with
/// the invariant left out, and load-bearing when it does not.
pub open spec fn invariant_status_spec(behavior_preserved: bool, preserved_without: bool) -> InvariantStatus {
    if !behavior_preserved {
        InvariantStatus::Violated
    } else if preserved_without {
        InvariantStatus::HoldsUnused
    } else {
        InvariantStatus::HoldsLoadBearing
    }
}

/// Leave-one-out status of a declared invariant, given whether behavior is
/// preserved under the full declared set and under the set without it.
pub fn invariant_status_for(behavior_preserved: bool, preserved_without: bool) -> (s: InvariantStatus)
    ensures
        s == invariant_status_spec(behavior_preserved, preserved_without),
{
    if !behavior_preserved {
        InvariantStatus::Violated
    } else if preserved_without {
        InvariantStatus::HoldsUnused
    } else {
        InvariantStatus::HoldsLoadBearing
    }
}

/// The resolved set of normalizations to apply before hashing.
#[derive(Debug, Clone, Copy, PartialEq, Eq, Structural)]
pub struct InvariantSet {
    /// Records are compared as a multiset (emission order ignored).
    pub ordering: bool,
    /// Records sharing a key may be reordered among themselves.
    pub tie_break: bool,
    /// Seed material is dropped.
    pub rng_seed: bool,
    /// Floats are rounded to this many decimals, when present.
    pub fp_decimals: Option<u8>,
}

/// The empty set: raw, byte-identical comparison.
pub open spec fn raw_set() -> InvariantSet {
    InvariantSet { ordering: false, tie_break: false, rng_seed: false, fp_decimals: None }
}

/// The set after declaring one more invariant (a later floating-point
/// tolerance replaces an earlier one).
pub open spec fn declare(set: InvariantSet, inv: IsomorphismInvariant) -> InvariantSet {
    match inv {
        IsomorphismInvariant::Reordering => InvariantSet { ordering: true, ..set },
        IsomorphismInvariant::TieBreak => InvariantSet { tie_break: true, ..set },
        IsomorphismInvariant::RngSeed => InvariantSet { rng_seed: true, ..set },
        IsomorphismInvariant::FloatingPoint { tolerance_decimals } => InvariantSet {
            fp_decimals: Some(tolerance_decimals),
            ..set
        },
    }
}

/// The set resolved from the first `n` declared invariants.
pub open spec fn set_of(invs: Seq<IsomorphismInvariant>, n: int) -> InvariantSet
    decreases n,
{
    if n <= 0 {
        raw_set()
    } else {
        declare(set_of(invs, n - 1), invs[n - 1])
    }
}

/// The set with one kind of invariant removed.
pub open spec fn without_spec(set: InvariantSet, kind: InvariantKind) -> InvariantSet {
    match kind {
        InvariantKind::Reordering => InvariantSet { ordering: false, ..set },
        InvariantKind::TieBreak => InvariantSet { tie_break: false, ..set },
        InvariantKind::RngSeed => InvariantSet { rng_seed: false, ..set },
        InvariantKind::FloatingPoint => InvariantSet { fp_decimals: None, ..set },
    }
}

impl InvariantSet {
    /// The empty set: raw, byte-identical comparison.
    pub fn raw() -> (s: InvariantSet)
        ensures
            s == raw_set(),
    {
        InvariantSet { ordering: false, tie_break: false, rng_seed: false, fp_decimals: None }
    }

    /// Resolve a list of declared invariants into a set of normalizations.
    pub fn from_invariants(invariants: &[IsomorphismInvariant]) -> (s: InvariantSet)
        ensures
            s == set_of(invariants@, invariants@.len() as int),
    {
        let mut set = InvariantSet::raw();
        let mut i: usize = 0;
        while i < invariants.len()
            invariant
                i <= invariants@.len(),
                set == set_of(invariants@, i as int),
            decreases invariants@.len() - i,
        {
            match invariants[i] {
                IsomorphismInvariant::Reordering => set.ordering = true,
                IsomorphismInvariant::TieBreak => set.tie_break = true,
                IsomorphismInvariant::RngSeed => set.rng_seed = true,
                IsomorphismInvariant::FloatingPoint { tolerance_decimals } => {
                    set.fp_decimals = Some(tolerance_decimals);
                },
            }
            i = i + 1;
        }
        set
    }

    /// This set with one kind of invariant removed.
    pub fn without(self, kind: InvariantKind) -> (s: InvariantSet)
        ensures
            s == without_spec(self, kind),
    {
        let mut set = self;
        match kind {
            InvariantKind::Reordering => set.ordering = false,
            InvariantKind::TieBreak => set.tie_break = false,
            InvariantKind::RngSeed => set.rng_seed = false,
            InvariantKind::FloatingPoint => set.fp_decimals = None,
        }
        set
    }
}

// ── Golden manifest (captured baseline) ──────────────────────────────────

/// A captured, content-addressed checksum digest for one fixture's golden output.
#[derive(Debug, Clone, PartialEq, Eq)]
pub struct GoldenOutputDigest {
    /// Fixture identity.
    pub fixture_id: String,
    /// Workload identity.
    pub workload_id: String,
    /// Raw (byte-identical) checksum of the fixture's output.
    pub raw_checksum: String,
    /// Number of records captured.
    pub record_count: usize,
}

/// The frozen golden baseline: a checksum manifest over representative fixtures.
#[derive(Debug, Clone, PartialEq, Eq)]
pub struct GoldenManifest {
    /// Schema version constant.
    pub schema_version: String,
    /// Deterministic manifest identifier.
    pub manifest_id: String,
    /// The change/revision this golden baseline was captured at.
    pub baseline_change_id: String,
    /// Per-fixture digests, one per fixture id, in ascending fixture-id order.
    pub digests: Vec<GoldenOutputDigest>,
    /// Aggregate checksum over every per-fixture digest.
    pub manifest_checksum: String,
}

// ── Optimization change + policy exceptions ──────────────────────────────

/// A declared exception that permits a behavior change for one fixture.
#[derive(Debug, Clone, PartialEq, Eq)]
pub struct GoldenPolicyException {
    /// The fixture whose behavior change is permitted.
    pub fixture_id: String,
    /// Rationale for the exception.
    pub reason: String,
    /// Evidence references backing the exception (must be non-empty).
    pub evidence_refs: Vec<String>,
}

/// Whether an exception carries a non-blank reason and some evidence.
pub open spec fn evidence_backed(e: GoldenPolicyException) -> bool {
    !is_blank(e.reason@) && e.evidence_refs@.len() > 0
}

impl GoldenPolicyException {
    /// A policy exception for the given fixture.
    pub fn new(fixture_id: &str, reason: &str, evidence_refs: Vec<String>) -> (e: GoldenPolicyException)
        ensures
            e.fixture_id@ == fixture_id@,
            e.reason@ == reason@,
            e.evidence_refs@ == evidence_refs@,
    {
        GoldenPolicyException {
            fixture_id: String::from_str(fixture_id),
            reason: String::from_str(reason),
            evidence_refs,
        }
    }

    /// Whether the exception is well-formed (non-blank reason and evidence).
    pub fn is_evidence_backed(&self) -> (b: bool)
        ensures
            b == evidence_backed(*self),
    {
        !str_is_blank(self.reason.as_str()) && self.evidence_refs.len() > 0
    }
}

/// An optimization change under evaluation.
#[derive(Debug, Clone, PartialEq)]
pub struct OptimizationChange {
    /// The change identity.
    pub change_id: String,
    /// The baseline change the golden manifest was captured at.
    pub baseline_change_id: String,
    /// The single optimization lever this change pulls.
    pub lever: String,
    /// Human-readable description.
    pub description: String,
    /// Equivalence invariants this change relies on to claim isomorphism.
    pub declared_invariants: Vec<IsomorphismInvariant>,
    /// Declared exceptions permitting specific behavior changes.
    pub policy_exceptions: Vec<GoldenPolicyException>,
}

/// Whether some invariant among `d` has kind `k`.
pub open spec fn has_kind(d: Seq<IsomorphismInvariant>, k: InvariantKind) -> bool {
    exists|i: int| 0 <= i < d.len() && (#[trigger] d[i]).kind_spec() == k
}

/// The first `n` declared invariants deduplicated by kind, keeping the first
/// of each kind, in declaration order.
pub open spec fn dedup_by_kind(s: Seq<IsomorphismInvariant>, n: int) -> Seq<IsomorphismInvariant>
    decreases n,
{
    if n <= 0 {
        Seq::empty()
    } else {
        let d = dedup_by_kind(s, n - 1);
        if has_kind(d, s[n - 1].kind_spec()) {
            d
        } else {
            d.push(s[n - 1])
        }
    }
}

impl OptimizationChange {
    /// A change with the given identity and lever.
    pub fn new(change_id: &str, baseline_change_id: &str, lever: &str) -> (c: OptimizationChange)
        ensures
            c.change_id@ == change_id@,
            c.baseline_change_id@ == baseline_change_id@,
            c.lever@ == lever@,
            c.description@.len() == 0,
            c.declared_invariants@.len() == 0,
            c.policy_exceptions@.len() == 0,
    {
        OptimizationChange {
            change_id: String::from_str(change_id),
            baseline_change_id: String::from_str(baseline_change_id),
            lever: String::from_str(lever),
            description: String::new(),
            declared_invariants: Vec::new(),
            policy_exceptions: Vec::new(),
        }
    }

    /// Set the description.
    pub fn with_description(self, description: &str) -> (c: OptimizationChange)
        ensures
            c == (OptimizationChange { description: c.description, ..self }),
            c.description@ == description@,
    {
        let mut c = self;
        c.description = String::from_str(description);
        c
    }

    /// Declare an equivalence invariant.
    pub fn with_invariant(self, declared: IsomorphismInvariant) -> (c: OptimizationChange)
        ensures
            c == (OptimizationChange { declared_invariants: c.declared_invariants, ..self }),
            c.declared_invariants@ == self.declared_invariants@.push(declared),
    {
        let mut c = self;
        c.declared_invariants.push(declared);
        c
    }

    /// Declare a policy exception.
    pub fn with_exception(self, exception: GoldenPolicyException) -> (c: OptimizationChange)
        ensures
            c == (OptimizationChange { policy_exceptions: c.policy_exceptions, ..self }),
            c.policy_exceptions@ == self.policy_exceptions@.push(exception),
    {
        let mut c = self;
        c.policy_exceptions.push(exception);
        c
    }

    /// The declared invariants deduplicated by kind, in declaration order.
    pub fn deduped_invariants(&self) -> (out: Vec<IsomorphismInvariant>)
        ensures
            out@ == dedup_by_kind(self.declared_invariants@, self.declared_invariants@.len() as int),
    {
        let ghost s = self.declared_invariants@;
        let mut out: Vec<IsomorphismInvariant> = Vec::new();
        let mut i: usize = 0;
        while i < self.declared_invariants.len()
            invariant
                i <= s.len(),
                s == self.declared_invariants@,
                out@ == dedup_by_kind(s, i as int),
            decreases s.len() - i,
        {
            let inv = self.declared_invariants[i];
            let k = inv.kind();
            let mut seen = false;
            let mut j: usize = 0;
            while j < out.len()
                invariant
                    j <= out@.len(),
                    seen == exists|m: int| 0 <= m < j && (#[trigger] out@[m]).kind_spec() == k,
                decreases out@.len() - j,
            {
                if out[j].kind() == k {
                    seen = true;
                }
                j = j + 1;
            }
            if !seen {
                out.push(inv);
            }
            i = i + 1;
        }
        out
    }
}

// ── Isomorphism proof artifact ───────────────────────────────────────────

/// The per-fixture checksum verdict.
#[derive(Debug, Clone, Copy, PartialEq, Eq, Structural)]
pub enum ChecksumVerdict {
    /// Byte-identical: golden and candidate raw checksums match.
    Match,
    /// Equal only after applying the declared invariants.
    NormalizedMatch,
    /// Behavior changed: not equal even under the declared invariants.
    Mismatch,
}

impl ChecksumVerdict {
    /// Stable lowercase identifier.
    pub open spec fn tag(self) -> Seq<char> {
        match self {
            ChecksumVerdict::Match => "match"@,
            ChecksumVerdict::NormalizedMatch => "normalized_match"@,
            ChecksumVerdict::Mismatch => "mismatch"@,
        }
    }

    /// Stable lowercase identifier.
    pub fn as_str(self) -> (s: &'static str)
        ensures
            s@ == self.tag(),
    {
        match self {
            ChecksumVerdict::Match => "match",
            ChecksumVerdict::NormalizedMatch => "normalized_match",
            ChecksumVerdict::Mismatch => "mismatch",
        }
    }

    /// Whether behavior is preserved under this verdict.
    pub open spec fn preserved(self) -> bool {
        self != ChecksumVerdict::Mismatch
    }

    /// Whether behavior is preserved under this verdict.
    pub fn behavior_preserved(self) -> (b: bool)
        ensures
            b == self.preserved(),
    {
        match self {
            ChecksumVerdict::Mismatch => false,
            _ => true,
        }
    }
}

/// The verdict for one fixture: a match when the raw checksums agree, a
/// normalized match when only the checksums under the declared invariants
/// agree, a mismatch otherwise.
pub open spec fn verdict_spec(
    golden_raw: Seq<char>,
    candidate_raw: Seq<char>,
    golden_normalized: Seq<char>,
    candidate_normalized: Seq<char>,
) -> ChecksumVerdict {
    if golden_raw == candidate_raw {
        ChecksumVerdict::Match
    } else if golden_normalized == candidate_normalized {
        ChecksumVerdict::NormalizedMatch
    } else {
        ChecksumVerdict::Mismatch
    }
}

/// The per-fixture checksum-verification result.
#[derive(Debug, Clone, PartialEq, Eq)]
pub struct FixtureVerdict {
    /// Fixture identity.
    pub fixture_id: String,
    /// Raw golden checksum.
    pub golden_raw_checksum: String,
    /// Raw candidate checksum.
    pub candidate_raw_checksum: String,
    /// Golden checksum under the declared invariants.
    pub golden_normalized_checksum: String,
    /// Candidate checksum under the declared invariants.
    pub candidate_normalized_checksum: String,
    /// The verdict.
    pub verdict: ChecksumVerdict,
}

impl FixtureVerdict {
    /// The verification result for one fixture from its four checksums.
    pub fn from_checksums(
        fixture_id: String,
        golden_raw_checksum: String,
        candidate_raw_checksum: String,
        golden_normalized_checksum: String,
        candidate_normalized_checksum: String,
    ) -> (v: FixtureVerdict)
        ensures
            v.fixture_id == fixture_id,
            v.golden_raw_checksum == golden_raw_checksum,
            v.candidate_raw_checksum == candidate_raw_checksum,
            v.golden_normalized_checksum == golden_normalized_checksum,
            v.candidate_normalized_checksum == candidate_normalized_checksum,
            v.verdict == verdict_spec(
                golden_raw_checksum@,
                candidate_raw_checksum@,
                golden_normalized_checksum@,
                candidate_normalized_checksum@,
            ),
    {
        let verdict = if golden_raw_checksum == candidate_raw_checksum {
            ChecksumVerdict::Match
        } else if golden_normalized_checksum == candidate_normalized_checksum {
            ChecksumVerdict::NormalizedMatch
        } else {
            ChecksumVerdict::Mismatch
        };
        FixtureVerdict {
            fixture_id,
            golden_raw_checksum,
            candidate_raw_checksum,
            golden_normalized_checksum,
            candidate_normalized_checksum,
            verdict,
        }
    }
}

/// The status of one declared invariant across the whole proof.
#[derive(Debug, Clone, Copy, PartialEq, Eq, Structural)]
pub struct InvariantCheck {
    /// The declared invariant.
    pub invariant: IsomorphismInvariant,
    /// Its status.
    pub status: InvariantStatus,
}

/// A counterexample: the first fixture whose behavior changed.
#[derive(Debug, Clone, PartialEq, Eq)]
pub struct GoldenCounterexample {
    /// Fixture identity.
    pub fixture_id: String,
    /// Golden checksum (under declared invariants).
    pub golden_checksum: String,
    /// Candidate checksum (under declared invariants).
    pub candidate_checksum: String,
    /// Human-readable detail.
    pub detail: String,
    /// One-command replay reference.
    pub replay_command: String,
}

/// A compiled isomorphism proof for one optimization change.
#[derive(Debug, Clone, PartialEq, Eq)]
pub struct IsomorphismProof {
    /// Schema version constant.
    pub schema_version: String,
    /// Deterministic proof identifier.
    pub proof_id: String,
    /// The change this proof certifies.
    pub change_id: String,
    /// The baseline change the golden manifest was captured at.
    pub baseline_change_id: String,
    /// The fixture set covered by the proof, in stable order.
    pub fixture_ids: Vec<String>,
    /// Aggregate golden checksum over the covered fixtures.
    pub golden_manifest_checksum: String,
    /// Aggregate candidate checksum over the covered fixtures.
    pub candidate_manifest_checksum: String,
    /// Per-declared-invariant status.
    pub invariant_checks: Vec<InvariantCheck>,
    /// Per-fixture checksum-verification results.
    pub fixture_verdicts: Vec<FixtureVerdict>,
    /// Whether behavior is preserved for every covered fixture.
    pub behavior_preserved: bool,
    /// The first behavior-changing fixture, if any.
    pub counterexample: Option<GoldenCounterexample>,
    /// One-command replay reference for the whole proof.
    pub replay_command: String,
}

/// The one-command replay reference for one fixture of a proof.
pub open spec fn fixture_replay_spec(change_id: Seq<char>, fixture_id: Seq<char>, proof_id: Seq<char>) -> Seq<char> {
    "doctor_frankentui golden-isomorphism-verify --change "@ + change_id + " --fixture "@
        + fixture_id + " --proof "@ + proof_id
}

/// The one-command replay reference for one fixture of a proof.
pub fn fixture_replay_command(change_id: &str, fixture_id: &str, proof_id: &str) -> (s: String)
    ensures
        s@ == fixture_replay_spec(change_id@, fixture_id@, proof_id@),
{
    let mut s = String::from_str("doctor_frankentui golden-isomorphism-verify --change ");
    s.append(change_id);
    s.append(" --fixture ");
    s.append(fixture_id);
    s.append(" --proof ");
    s.append(proof_id);
    s
}

/// The replay reference for a whole proof.
pub open spec fn proof_replay_spec(proof_id: Seq<char>, change_id: Seq<char>) -> Seq<char> {
    "doctor_frankentui golden-isomorphism-verify --proof "@ + proof_id + " --change "@ + change_id
}

/// The replay reference for a whole proof.
pub fn proof_replay_command(proof_id: &str, change_id: &str) -> (s: String)
    ensures
        s@ == proof_replay_spec(proof_id@, change_id@),
{
    let mut s = String::from_str("doctor_frankentui golden-isomorphism-verify --proof ");
    s.append(proof_id);
    s.append(" --change ");
    s.append(change_id);
    s
}

/// Whether every verdict preserves behavior.
pub open spec fn all_preserved(vs: Seq<FixtureVerdict>) -> bool {
    forall|i: int| 0 <= i < vs.len() ==> (#[trigger] vs[i]).verdict.preserved()
}

/// Behavior is preserved exactly when no fixture verdict is a mismatch: a
/// single mismatching fixture makes it false whatever the others are, and
/// an empty verdict list preserves behavior.
pub proof fn law_behavior_preserved_iff_no_mismatch(vs: Seq<FixtureVerdict>, k: int)
    ensures
        all_preserved(vs) <==> (forall|i: int|
            0 <= i < vs.len() ==> (#[trigger] vs[i]).verdict != ChecksumVerdict::Mismatch),
        0 <= k < vs.len() && vs[k].verdict == ChecksumVerdict::Mismatch ==> !all_preserved(vs),
        vs.len() == 0 ==> all_preserved(vs),
{
    if 0 <= k < vs.len() && vs[k].verdict == ChecksumVerdict::Mismatch {
        assert(!vs[k].verdict.preserved());
    }
}

/// Whether behavior is preserved for every covered fixture.
pub fn proof_behavior_preserved(verdicts: &Vec<FixtureVerdict>) -> (b: bool)
    ensures
        b == all_preserved(verdicts@),
        b <==> (forall|i: int|
            0 <= i < verdicts@.len() ==> (#[trigger] verdicts@[i]).verdict != ChecksumVerdict::Mismatch),
{
    let mut i: usize = 0;
    while i < verdicts.len()
        invariant
            i <= verdicts@.len(),
            forall|k: int| 0 <= k < i ==> (#[trigger] verdicts@[k]).verdict.preserved(),
        decreases verdicts@.len() - i,
    {
        if !verdicts[i].verdict.behavior_preserved() {
            return false;
        }
        i = i + 1;
    }
    true
}

/// The index of the first mismatched verdict among the first `n`, if any.
pub open spec fn first_mismatch(vs: Seq<FixtureVerdict>, n: int) -> Option<int>
    decreases n,
{
    if n <= 0 {
        None
    } else {
        match first_mismatch(vs, n - 1) {
            Some(i) => Some(i),
            None => if vs[n - 1].verdict == ChecksumVerdict::Mismatch {
                Some(n - 1)
            } else {
                None
            },
        }
    }
}

/// The detail text of a counterexample.
pub open spec fn counterexample_detail(fixture_id: Seq<char>) -> Seq<char> {
    "fixture `"@ + fixture_id + "` behavior changed under the declared invariants"@
}

/// The counterexample built from a mismatched verdict.
pub open spec fn counterexample_of(
    v: FixtureVerdict,
    change_id: Seq<char>,
    proof_id: Seq<char>,
    c: GoldenCounterexample,
) -> bool {
    &&& c.fixture_id@ == v.fixture_id@
    &&& c.golden_checksum@ == v.golden_normalized_checksum@
    &&& c.candidate_checksum@ == v.candidate_normalized_checksum@
    &&& c.detail@ == counterexample_detail(v.fixture_id@)
    &&& c.replay_command@ == fixture_replay_spec(change_id, v.fixture_id@, proof_id)
}

/// The first fixture whose behavior changed, as a counterexample.
pub fn first_counterexample(
    change_id: &str,
    proof_id: &str,
    verdicts: &Vec<FixtureVerdict>,
) -> (c: Option<GoldenCounterexample>)
    ensures
        match first_mismatch(verdicts@, verdicts@.len() as int) {
            None => c is None,
            Some(i) => c is Some && counterexample_of(verdicts@[i], change_id@, proof_id@, c->0),
        },
{
    let mut i: usize = 0;
    while i < verdicts.len()
        invariant
            i <= verdicts@.len(),
            first_mismatch(verdicts@, i as int) is None,
        decreases verdicts@.len() - i,
    {
        if verdicts[i].verdict == ChecksumVerdict::Mismatch {
            let v = &verdicts[i];
            let mut detail = String::from_str("fixture `");
            detail.append(v.fixture_id.as_str());
            detail.append("` behavior changed under the declared invariants");
            let c = GoldenCounterexample {
                fixture_id: v.fixture_id.clone(),
                golden_checksum: v.golden_normalized_checksum.clone(),
                candidate_checksum: v.candidate_normalized_checksum.clone(),
                detail,
                replay_command: fixture_replay_command(
                    change_id,
                    v.fixture_id.as_str(),
                    proof_id,
                ),
            };
            proof {
                lemma_first_mismatch_stable(verdicts@, i as int + 1, verdicts@.len() as int);
            }
            return Some(c);
        }
        i = i + 1;
    }
    None
}

/// Once found, the first mismatch stays the first as more verdicts follow.
pub proof fn lemma_first_mismatch_stable(vs: Seq<FixtureVerdict>, n: int, m: int)
    requires
        0 <= n <= m,
        first_mismatch(vs, n) is Some,
    ensures
        first_mismatch(vs, m) == first_mismatch(vs, n),
    decreases m - n,
{
    if m > n {
        lemma_first_mismatch_stable(vs, n, m - 1);
    }
}

} // verus!
