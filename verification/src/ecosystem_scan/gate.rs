//! The ecosystem-scan gate: configuration, violations and the per-record
//! checks, each stated as a spec function over the records.

use vstd::prelude::*;
use vstd::string::*;

use crate::ecosystem_scan::{
    axis_at, candidate_at, AdoptionDecision, ConstraintAxis, CrateCandidate, CrateVerdict,
    DeterminismRisk, EcosystemScanRecord, UnsafePolicyFit, UpliftCandidate,
};
use crate::text::{cat, cat3, decimal, is_blank, str_is_blank, usize_to_string};

verus! {

// ── Violations ───────────────────────────────────────────────────────────

/// Severity of a scan violation.
#[derive(Debug, Clone, Copy, PartialEq, Eq, PartialOrd, Ord, Hash, Structural)]
pub enum ScanSeverity {
    /// Blocks the scan gate.
    Block,
    /// Advisory only.
    Warn,
}

impl ScanSeverity {
    /// Stable lowercase tag.
    pub open spec fn tag(self) -> Seq<char> {
        match self {
            ScanSeverity::Block => "block"@,
            ScanSeverity::Warn => "warn"@,
        }
    }

    /// Stable lowercase tag.
    pub fn as_str(self) -> (s: &'static str)
        ensures
            s@ == self.tag(),
    {
        match self {
            ScanSeverity::Block => "block",
            ScanSeverity::Warn => "warn",
        }
    }
}

/// Machine-readable code for a scan-readiness violation.
#[derive(Debug, Clone, Copy, PartialEq, Eq, PartialOrd, Ord, Hash, Structural)]
pub enum ScanViolationCode {
    /// A candidate has no scan record (coverage gap).
    MissingCandidateCoverage,
    /// Two records cover the same candidate.
    DuplicateCandidate,
    /// `candidate_id` is empty.
    EmptyCandidateId,
    /// `candidate_id` does not match the candidate's canonical id.
    CandidateIdMismatch,
    /// No considered crate and no none-found statement.
    NoCrateConsideredWithoutNoneFound,
    /// None-found statement present but empty.
    NoneFoundStatementEmpty,
    /// A rejected crate has no rationale.
    RejectedCrateMissingRationale,
    /// A crate is marked `Selected` but the decision is `Build`.
    SelectedCrateContradictsBuild,
    /// An adopt/hybrid decision names no adopted crate.
    AdoptWithoutAdoptedCrate,
    /// A reject decision is missing a required constraint axis.
    MissingRequiredConstraintAxis,
    /// A constraint rationale has empty text.
    ConstraintRationaleEmpty,
    /// A reject decision has no fallback plan.
    MissingFallbackPlan,
    /// A build/hybrid decision names no in-tree module.
    MissingInTreeModule,
    /// An adopted crate violates the unsafe-code policy.
    UnsafePolicyViolationAdopted,
    /// An adopted crate exceeds the determinism-risk ceiling.
    AdoptedCrateDeterminismRiskTooHigh,
    /// A decision summary is empty.
    EmptyDecisionSummary,
}

impl ScanViolationCode {
    /// Stable lowercase tag.
    pub open spec fn tag(self) -> Seq<char> {
        match self {
            ScanViolationCode::MissingCandidateCoverage => "missing_candidate_coverage"@,
            ScanViolationCode::DuplicateCandidate => "duplicate_candidate"@,
            ScanViolationCode::EmptyCandidateId => "empty_candidate_id"@,
            ScanViolationCode::CandidateIdMismatch => "candidate_id_mismatch"@,
            ScanViolationCode::NoCrateConsideredWithoutNoneFound => "no_crate_considered_without_none_found"@,
            ScanViolationCode::NoneFoundStatementEmpty => "none_found_statement_empty"@,
            ScanViolationCode::RejectedCrateMissingRationale => "rejected_crate_missing_rationale"@,
            ScanViolationCode::SelectedCrateContradictsBuild => "selected_crate_contradicts_build"@,
            ScanViolationCode::AdoptWithoutAdoptedCrate => "adopt_without_adopted_crate"@,
            ScanViolationCode::MissingRequiredConstraintAxis => "missing_required_constraint_axis"@,
            ScanViolationCode::ConstraintRationaleEmpty => "constraint_rationale_empty"@,
            ScanViolationCode::MissingFallbackPlan => "missing_fallback_plan"@,
            ScanViolationCode::MissingInTreeModule => "missing_in_tree_module"@,
            ScanViolationCode::UnsafePolicyViolationAdopted => "unsafe_policy_violation_adopted"@,
            ScanViolationCode::AdoptedCrateDeterminismRiskTooHigh => "adopted_crate_determinism_risk_too_high"@,
            ScanViolationCode::EmptyDecisionSummary => "empty_decision_summary"@,
        }
    }

    /// Stable lowercase tag.
    pub fn as_str(self) -> (s: &'static str)
        ensures
            s@ == self.tag(),
    {
        match self {
            ScanViolationCode::MissingCandidateCoverage => "missing_candidate_coverage",
            ScanViolationCode::DuplicateCandidate => "duplicate_candidate",
            ScanViolationCode::EmptyCandidateId => "empty_candidate_id",
            ScanViolationCode::CandidateIdMismatch => "candidate_id_mismatch",
            ScanViolationCode::NoCrateConsideredWithoutNoneFound => "no_crate_considered_without_none_found",
            ScanViolationCode::NoneFoundStatementEmpty => "none_found_statement_empty",
            ScanViolationCode::RejectedCrateMissingRationale => "rejected_crate_missing_rationale",
            ScanViolationCode::SelectedCrateContradictsBuild => "selected_crate_contradicts_build",
            ScanViolationCode::AdoptWithoutAdoptedCrate => "adopt_without_adopted_crate",
            ScanViolationCode::MissingRequiredConstraintAxis => "missing_required_constraint_axis",
            ScanViolationCode::ConstraintRationaleEmpty => "constraint_rationale_empty",
            ScanViolationCode::MissingFallbackPlan => "missing_fallback_plan",
            ScanViolationCode::MissingInTreeModule => "missing_in_tree_module",
            ScanViolationCode::UnsafePolicyViolationAdopted => "unsafe_policy_violation_adopted",
            ScanViolationCode::AdoptedCrateDeterminismRiskTooHigh => "adopted_crate_determinism_risk_too_high",
            ScanViolationCode::EmptyDecisionSummary => "empty_decision_summary",
        }
    }
}

/// A structured scan-readiness diagnostic.
#[derive(Debug, Clone, PartialEq, Eq)]
pub struct ScanViolation {
    /// Machine-readable code.
    pub code: ScanViolationCode,
    /// Severity.
    pub severity: ScanSeverity,
    /// Candidate this pertains to.
    pub candidate_id: String,
    /// Human-readable description.
    pub detail: String,
    /// Actionable remediation clause.
    pub remediation: String,
}

/// The plain-value view of a violation.
pub struct ScanViolationView {
    pub code: ScanViolationCode,
    pub severity: ScanSeverity,
    pub candidate_id: Seq<char>,
    pub detail: Seq<char>,
    pub remediation: Seq<char>,
}

impl View for ScanViolation {
    type V = ScanViolationView;

    open spec fn view(&self) -> ScanViolationView {
        ScanViolationView {
            code: self.code,
            severity: self.severity,
            candidate_id: self.candidate_id@,
            detail: self.detail@,
            remediation: self.remediation@,
        }
    }
}

/// The views of a list of violations.
pub open spec fn views(s: Seq<ScanViolation>) -> Seq<ScanViolationView> {
    s.map_values(|v: ScanViolation| v@)
}

/// A blocking violation.
pub open spec fn block_view(
    code: ScanViolationCode,
    candidate_id: Seq<char>,
    detail: Seq<char>,
    remediation: Seq<char>,
) -> ScanViolationView {
    ScanViolationView { code, severity: ScanSeverity::Block, candidate_id, detail, remediation }
}

impl ScanViolation {
    fn block(code: ScanViolationCode, candidate_id: String, detail: String, remediation: String) -> (v:
        ScanViolation)
        ensures
            v@ == block_view(code, candidate_id@, detail@, remediation@),
    {
        ScanViolation { code, severity: ScanSeverity::Block, candidate_id, detail, remediation }
    }
}

/// Append a blocking violation.
fn push_block(
    out: &mut Vec<ScanViolation>,
    code: ScanViolationCode,
    candidate_id: String,
    detail: String,
    remediation: String,
)
    ensures
        views(final(out)@) == views(old(out)@).push(
            block_view(code, candidate_id@, detail@, remediation@),
        ),
{
    let v = ScanViolation::block(code, candidate_id, detail, remediation);
    out.push(v);
    proof {
        assert(views(out@) =~= views(old(out)@).push(
            block_view(code, candidate_id@, detail@, remediation@),
        ));
    }
}

// ── Configuration ────────────────────────────────────────────────────────

/// Configuration for the ecosystem-scan gate.
#[derive(Debug, Clone, PartialEq, Eq)]
pub struct EcosystemScanConfig {
    /// Constraint axes a reject rationale must address.
    pub required_constraint_axes: Vec<ConstraintAxis>,
    /// Require full coverage of every `UpliftCandidate`.
    pub require_full_candidate_coverage: bool,
    /// Require a fallback plan for non-adopt decisions.
    pub require_fallback_for_non_adopt: bool,
    /// Require an in-tree module for build/hybrid decisions.
    pub require_in_tree_module_for_build: bool,
    /// Forbid adopting crates that violate the unsafe-code policy.
    pub forbid_unsafe_adoption: bool,
    /// Maximum determinism risk allowed for an adopted crate.
    pub max_adopted_determinism_risk: DeterminismRisk,
}

impl Default for EcosystemScanConfig {
    /// Every axis required, every obligation enforced, ceiling `Low`.
    fn default() -> (c: Self)
        ensures
            c.required_constraint_axes@.len() == 5,
            forall|k: int| 0 <= k < 5 ==> #[trigger] c.required_constraint_axes@[k] == axis_at(k),
            c.require_full_candidate_coverage,
            c.require_fallback_for_non_adopt,
            c.require_in_tree_module_for_build,
            c.forbid_unsafe_adoption,
            c.max_adopted_determinism_risk == DeterminismRisk::Low,
    {
        EcosystemScanConfig {
            required_constraint_axes: ConstraintAxis::all(),
            require_full_candidate_coverage: true,
            require_fallback_for_non_adopt: true,
            require_in_tree_module_for_build: true,
            forbid_unsafe_adoption: true,
            max_adopted_determinism_risk: DeterminismRisk::Low,
        }
    }
}

impl EcosystemScanConfig {
    /// Override the required constraint axes (sorted, duplicates removed).
    pub fn with_required_axes(self, axes: &[ConstraintAxis]) -> (c: Self)
        ensures
            c == (EcosystemScanConfig {
                required_constraint_axes: c.required_constraint_axes,
                ..self
            }),
            crate::ecosystem_scan::strictly_ascending_axes(c.required_constraint_axes@),
            forall|a: ConstraintAxis| #[trigger]
                c.required_constraint_axes@.contains(a) <==> axes@.contains(a),
    {
        let mut c = self;
        c.required_constraint_axes = crate::ecosystem_scan::sort_dedup_axes(axes);
        c
    }

    /// Toggle full-coverage enforcement.
    pub fn with_full_coverage(self, require: bool) -> (c: Self)
        ensures
            c == (EcosystemScanConfig { require_full_candidate_coverage: require, ..self }),
    {
        let mut c = self;
        c.require_full_candidate_coverage = require;
        c
    }

    /// Set the adopted-crate determinism-risk ceiling.
    pub fn with_max_adopted_determinism_risk(self, risk: DeterminismRisk) -> (c: Self)
        ensures
            c == (EcosystemScanConfig { max_adopted_determinism_risk: risk, ..self }),
    {
        let mut c = self;
        c.max_adopted_determinism_risk = risk;
        c
    }
}

// ── Coverage ─────────────────────────────────────────────────────────────

/// Whether some record covers `c`.
pub open spec fn has_record(recs: Seq<EcosystemScanRecord>, c: UpliftCandidate) -> bool {
    exists|i: int| 0 <= i < recs.len() && (#[trigger] recs[i]).candidate == c
}

/// The coverage violation for a candidate with no record.
pub open spec fn missing_view(c: UpliftCandidate) -> ScanViolationView {
    block_view(
        ScanViolationCode::MissingCandidateCoverage,
        c.id_spec(),
        "candidate "@ + c.name_spec() + " has no ecosystem-scan record"@,
        "add an adopt-vs-build scan record for this candidate"@,
    )
}

/// Coverage violations for the first `k` candidates of the registry.
pub open spec fn coverage_upto(recs: Seq<EcosystemScanRecord>, k: int) -> Seq<ScanViolationView>
    decreases k,
{
    if k <= 0 {
        Seq::empty()
    } else {
        coverage_upto(recs, k - 1) + if has_record(recs, candidate_at(k - 1)) {
            Seq::empty()
        } else {
            seq![missing_view(candidate_at(k - 1))]
        }
    }
}

/// Coverage violations: one per candidate without a record, when coverage
/// is required.
pub open spec fn coverage_violations(
    cfg: EcosystemScanConfig,
    recs: Seq<EcosystemScanRecord>,
) -> Seq<ScanViolationView> {
    if cfg.require_full_candidate_coverage {
        coverage_upto(recs, 8)
    } else {
        Seq::empty()
    }
}

/// Number of records among the first `n` that cover `c`.
pub open spec fn count_upto(recs: Seq<EcosystemScanRecord>, c: UpliftCandidate, n: int) -> nat
    decreases n,
{
    if n <= 0 {
        0
    } else {
        count_upto(recs, c, n - 1) + if recs[n - 1].candidate == c {
            1nat
        } else {
            0nat
        }
    }
}

/// Number of records that cover `c`.
pub open spec fn record_count(recs: Seq<EcosystemScanRecord>, c: UpliftCandidate) -> nat {
    count_upto(recs, c, recs.len() as int)
}

/// The violation for a candidate covered by `count > 1` records.
pub open spec fn duplicate_view(c: UpliftCandidate, count: nat) -> ScanViolationView {
    block_view(
        ScanViolationCode::DuplicateCandidate,
        c.id_spec(),
        "candidate "@ + c.name_spec() + " has "@ + decimal(count)
            + " scan records; expected exactly one"@,
        "merge the duplicate records into a single decision record"@,
    )
}

/// Duplicate violations for the first `k` candidates of the registry.
pub open spec fn duplicates_upto(recs: Seq<EcosystemScanRecord>, k: int) -> Seq<ScanViolationView>
    decreases k,
{
    if k <= 0 {
        Seq::empty()
    } else {
        duplicates_upto(recs, k - 1) + if record_count(recs, candidate_at(k - 1)) > 1 {
            seq![duplicate_view(candidate_at(k - 1), record_count(recs, candidate_at(k - 1)))]
        } else {
            Seq::empty()
        }
    }
}

/// Duplicate violations: one per candidate covered more than once.
pub open spec fn duplicate_violations(recs: Seq<EcosystemScanRecord>) -> Seq<ScanViolationView> {
    duplicates_upto(recs, 8)
}

// ── Per-record checks ────────────────────────────────────────────────────

/// Identity checks: empty or non-canonical `candidate_id`.
pub open spec fn id_violations(r: EcosystemScanRecord) -> Seq<ScanViolationView> {
    if is_blank(r.candidate_id@) {
        seq![
            block_view(
                ScanViolationCode::EmptyCandidateId,
                r.candidate.id_spec(),
                "candidate_id must not be empty"@,
                "set candidate_id to the candidate's canonical id"@,
            ),
        ]
    } else if r.candidate_id@ != r.candidate.id_spec() {
        seq![
            block_view(
                ScanViolationCode::CandidateIdMismatch,
                r.candidate_id@,
                "candidate_id `"@ + r.candidate_id@ + "` does not match canonical id `"@
                    + r.candidate.id_spec() + "`"@,
                "use EcosystemScanRecord::new to keep the id in sync with the candidate"@,
            ),
        ]
    } else {
        Seq::empty()
    }
}

/// Empty decision summary.
pub open spec fn summary_violations(r: EcosystemScanRecord) -> Seq<ScanViolationView> {
    if is_blank(r.decision_summary@) {
        seq![
            block_view(
                ScanViolationCode::EmptyDecisionSummary,
                r.candidate_id@,
                "decision_summary must not be empty"@,
                "summarize the adopt-vs-build rationale for operators"@,
            ),
        ]
    } else {
        Seq::empty()
    }
}

/// No considered crate and no (or an empty) none-found statement.
pub open spec fn crate_coverage_violations(r: EcosystemScanRecord) -> Seq<ScanViolationView> {
    if r.considered_crates@.len() == 0 {
        match r.none_found_statement {
            None => seq![
                block_view(
                    ScanViolationCode::NoCrateConsideredWithoutNoneFound,
                    r.candidate_id@,
                    "no considered crate and no none-found statement"@,
                    "list at least one considered Rust crate, or add an explicit none-found statement"@,
                ),
            ],
            Some(statement) => if is_blank(statement@) {
                seq![
                    block_view(
                        ScanViolationCode::NoneFoundStatementEmpty,
                        r.candidate_id@,
                        "none_found_statement is present but empty"@,
                        "explain why no suitable crate exists in the Rust ecosystem"@,
                    ),
                ]
            } else {
                Seq::empty()
            },
        }
    } else {
        Seq::empty()
    }
}

/// Verdict checks for one considered crate.
pub open spec fn crate_verdict_violations(
    r: EcosystemScanRecord,
    c: CrateCandidate,
) -> Seq<ScanViolationView> {
    (if c.verdict == CrateVerdict::Rejected && is_blank(c.rationale@) {
        seq![
            block_view(
                ScanViolationCode::RejectedCrateMissingRationale,
                r.candidate_id@,
                "rejected crate `"@ + c.crate_name@ + "` has no rationale"@,
                "give a constraint-grounded reason for rejecting this crate"@,
            ),
        ]
    } else {
        Seq::empty()
    }) + (if c.verdict == CrateVerdict::Selected && r.decision == AdoptionDecision::Build {
        seq![
            block_view(
                ScanViolationCode::SelectedCrateContradictsBuild,
                r.candidate_id@,
                "crate `"@ + c.crate_name@ + "` is Selected but the decision is Build"@,
                "switch the decision to Adopt/Hybrid, or mark the crate Rejected"@,
            ),
        ]
    } else {
        Seq::empty()
    })
}

/// Verdict checks for the first `n` considered crates.
pub open spec fn verdicts_upto(r: EcosystemScanRecord, n: int) -> Seq<ScanViolationView>
    decreases n,
{
    if n <= 0 {
        Seq::empty()
    } else {
        verdicts_upto(r, n - 1) + crate_verdict_violations(r, r.considered_crates@[n - 1])
    }
}

/// Adopt/hybrid decision that names no adopted crate.
pub open spec fn adoption_violations(r: EcosystemScanRecord) -> Seq<ScanViolationView> {
    if r.decision.relies_spec() && r.adopted_crates@.len() == 0 {
        seq![
            block_view(
                ScanViolationCode::AdoptWithoutAdoptedCrate,
                r.candidate_id@,
                "decision "@ + r.decision.tag() + " relies on adoption but names no adopted crate"@,
                "list the crate(s) being adopted in adopted_crates"@,
            ),
        ]
    } else {
        Seq::empty()
    }
}

/// Missing required axes among the first `n` required axes.
pub open spec fn axes_upto(
    cfg: EcosystemScanConfig,
    r: EcosystemScanRecord,
    n: int,
) -> Seq<ScanViolationView>
    decreases n,
{
    if n <= 0 {
        Seq::empty()
    } else {
        let axis = cfg.required_constraint_axes@[n - 1];
        axes_upto(cfg, r, n - 1) + if r.covers_axis(axis) {
            Seq::empty()
        } else {
            seq![
                block_view(
                    ScanViolationCode::MissingRequiredConstraintAxis,
                    r.candidate_id@,
                    "reject decision "@ + r.decision.tag() + " is missing the `"@ + axis.tag()
                        + "` constraint axis"@,
                    "add a constraint-grounded rationale for the `"@ + axis.tag() + "` axis"@,
                ),
            ]
        }
    }
}

/// Empty rationale texts among the first `n` reject rationales.
pub open spec fn rationale_upto(r: EcosystemScanRecord, n: int) -> Seq<ScanViolationView>
    decreases n,
{
    if n <= 0 {
        Seq::empty()
    } else {
        let rat = r.reject_rationale@[n - 1];
        rationale_upto(r, n - 1) + if is_blank(rat.rationale@) {
            seq![
                block_view(
                    ScanViolationCode::ConstraintRationaleEmpty,
                    r.candidate_id@,
                    "constraint axis `"@ + rat.axis.tag() + "` has empty rationale"@,
                    "fill in the rationale for this constraint axis"@,
                ),
            ]
        } else {
            Seq::empty()
        }
    }
}

/// Whether an optional text is absent or blank.
pub open spec fn missing_text(o: Option<String>) -> bool {
    match o {
        None => true,
        Some(s) => is_blank(s@),
    }
}

/// Missing fallback plan for a reject decision.
pub open spec fn fallback_violations(
    cfg: EcosystemScanConfig,
    r: EcosystemScanRecord,
) -> Seq<ScanViolationView> {
    if cfg.require_fallback_for_non_adopt && missing_text(r.fallback_plan) {
        seq![
            block_view(
                ScanViolationCode::MissingFallbackPlan,
                r.candidate_id@,
                "reject decision has no conservative fallback plan"@,
                "describe the conservative fallback if the in-tree primitive fails"@,
            ),
        ]
    } else {
        Seq::empty()
    }
}

/// Obligations of a decision that rejects full adoption.
pub open spec fn rejection_violations(
    cfg: EcosystemScanConfig,
    r: EcosystemScanRecord,
) -> Seq<ScanViolationView> {
    if r.decision.rejects_spec() {
        axes_upto(cfg, r, cfg.required_constraint_axes@.len() as int) + rationale_upto(
            r,
            r.reject_rationale@.len() as int,
        ) + fallback_violations(cfg, r)
    } else {
        Seq::empty()
    }
}

/// Build/hybrid decision that names no in-tree module.
pub open spec fn module_violations(
    cfg: EcosystemScanConfig,
    r: EcosystemScanRecord,
) -> Seq<ScanViolationView> {
    if cfg.require_in_tree_module_for_build && r.decision.ships_spec() && missing_text(
        r.in_tree_module,
    ) {
        seq![
            block_view(
                ScanViolationCode::MissingInTreeModule,
                r.candidate_id@,
                "decision "@ + r.decision.tag() + " ships in-tree code but names no module"@,
                "set in_tree_module to the implementing module path"@,
            ),
        ]
    } else {
        Seq::empty()
    }
}

/// Policy checks for one considered crate (only selected crates count).
pub open spec fn adopted_crate_violations(
    cfg: EcosystemScanConfig,
    r: EcosystemScanRecord,
    c: CrateCandidate,
) -> Seq<ScanViolationView> {
    if c.verdict != CrateVerdict::Selected {
        Seq::empty()
    } else {
        (if cfg.forbid_unsafe_adoption && c.unsafe_policy_fit == UnsafePolicyFit::Violates {
            seq![
                block_view(
                    ScanViolationCode::UnsafePolicyViolationAdopted,
                    r.candidate_id@,
                    "adopted crate `"@ + c.crate_name@ + "` violates the unsafe-code policy"@,
                    "do not adopt a crate that requires policy-violating unsafe/FFI"@,
                ),
            ]
        } else {
            Seq::empty()
        }) + (if c.determinism_risk.rank() > cfg.max_adopted_determinism_risk.rank() {
            seq![
                block_view(
                    ScanViolationCode::AdoptedCrateDeterminismRiskTooHigh,
                    r.candidate_id@,
                    "adopted crate `"@ + c.crate_name@ + "` has determinism risk `"@
                        + c.determinism_risk.tag() + "`, above the `"@
                        + cfg.max_adopted_determinism_risk.tag() + "` ceiling"@,
                    "only adopt crates whose determinism risk is within the configured ceiling"@,
                ),
            ]
        } else {
            Seq::empty()
        })
    }
}

/// Policy checks for the first `n` considered crates.
pub open spec fn adopted_upto(
    cfg: EcosystemScanConfig,
    r: EcosystemScanRecord,
    n: int,
) -> Seq<ScanViolationView>
    decreases n,
{
    if n <= 0 {
        Seq::empty()
    } else {
        adopted_upto(cfg, r, n - 1) + adopted_crate_violations(cfg, r, r.considered_crates@[n - 1])
    }
}

/// Every violation of one record, in check order.
pub open spec fn record_violations(
    cfg: EcosystemScanConfig,
    r: EcosystemScanRecord,
) -> Seq<ScanViolationView> {
    id_violations(r) + summary_violations(r) + crate_coverage_violations(r) + verdicts_upto(
        r,
        r.considered_crates@.len() as int,
    ) + adoption_violations(r) + rejection_violations(cfg, r) + module_violations(cfg, r)
        + adopted_upto(cfg, r, r.considered_crates@.len() as int)
}

/// Violations of the first `n` records.
pub open spec fn records_upto(
    cfg: EcosystemScanConfig,
    recs: Seq<EcosystemScanRecord>,
    n: int,
) -> Seq<ScanViolationView>
    decreases n,
{
    if n <= 0 {
        Seq::empty()
    } else {
        records_upto(cfg, recs, n - 1) + record_violations(cfg, recs[n - 1])
    }
}

/// Every violation a scan reports: coverage, then duplicates, then each
/// record's checks in input order.
pub open spec fn scan_violations(
    cfg: EcosystemScanConfig,
    recs: Seq<EcosystemScanRecord>,
) -> Seq<ScanViolationView> {
    coverage_violations(cfg, recs) + duplicate_violations(recs) + records_upto(
        cfg,
        recs,
        recs.len() as int,
    )
}

// ── Executable checks ────────────────────────────────────────────────────

fn has_record_exec(records: &Vec<EcosystemScanRecord>, c: UpliftCandidate) -> (b: bool)
    ensures
        b == has_record(records@, c),
{
    let mut i: usize = 0;
    while i < records.len()
        invariant
            i <= records@.len(),
            forall|j: int| 0 <= j < i ==> (#[trigger] records@[j]).candidate != c,
        decreases records@.len() - i,
    {
        if records[i].candidate == c {
            return true;
        }
        i = i + 1;
    }
    false
}

fn count_records(records: &Vec<EcosystemScanRecord>, c: UpliftCandidate) -> (n: usize)
    ensures
        n == record_count(records@, c),
{
    let mut n: usize = 0;
    let mut i: usize = 0;
    while i < records.len()
        invariant
            i <= records@.len(),
            n == count_upto(records@, c, i as int),
            n <= i,
        decreases records@.len() - i,
    {
        if records[i].candidate == c {
            n = n + 1;
        }
        i = i + 1;
    }
    n
}

fn check_coverage(
    cfg: &EcosystemScanConfig,
    records: &Vec<EcosystemScanRecord>,
    violations: &mut Vec<ScanViolation>,
) -> (missing: usize)
    ensures
        views(final(violations)@) == views(old(violations)@) + coverage_violations(*cfg, records@),
        missing == coverage_violations(*cfg, records@).len(),
{
    if !cfg.require_full_candidate_coverage {
        proof {
            assert(views(violations@) =~= views(old(violations)@) + Seq::<ScanViolationView>::empty());
        }
        return 0;
    }
    let all = UpliftCandidate::all();
    let mut missing: usize = 0;
    let mut k: usize = 0;
    proof {
        assert(views(violations@) =~= views(old(violations)@) + coverage_upto(records@, 0));
    }
    while k < 8
        invariant
            k <= 8,
            all@.len() == 8,
            forall|m: int| 0 <= m < 8 ==> #[trigger] all@[m] == candidate_at(m),
            views(violations@) == views(old(violations)@) + coverage_upto(records@, k as int),
            missing == coverage_upto(records@, k as int).len(),
            missing <= k,
        decreases 8 - k,
    {
        let candidate = all[k];
        if !has_record_exec(records, candidate) {
            missing = missing + 1;
            let detail = cat3("candidate ", candidate.name(), " has no ecosystem-scan record");
            push_block(
                violations,
                ScanViolationCode::MissingCandidateCoverage,
                String::from_str(candidate.candidate_id()),
                detail,
                String::from_str("add an adopt-vs-build scan record for this candidate"),
            );
        }
        proof {
            assert(views(violations@) =~= views(old(violations)@) + coverage_upto(
                records@,
                k as int + 1,
            ));
        }
        k = k + 1;
    }
    missing
}

fn check_duplicates(records: &Vec<EcosystemScanRecord>, violations: &mut Vec<ScanViolation>)
    ensures
        views(final(violations)@) == views(old(violations)@) + duplicate_violations(records@),
{
    let all = UpliftCandidate::all();
    let mut k: usize = 0;
    proof {
        assert(views(violations@) =~= views(old(violations)@) + duplicates_upto(records@, 0));
    }
    while k < 8
        invariant
            k <= 8,
            all@.len() == 8,
            forall|m: int| 0 <= m < 8 ==> #[trigger] all@[m] == candidate_at(m),
            views(violations@) == views(old(violations)@) + duplicates_upto(records@, k as int),
        decreases 8 - k,
    {
        let candidate = all[k];
        let count = count_records(records, candidate);
        if count > 1 {
            let detail = cat3("candidate ", candidate.name(), " has ");
            let count_text = usize_to_string(count);
            let detail = detail.concat(count_text.as_str());
            let detail = detail.concat(" scan records; expected exactly one");
            push_block(
                violations,
                ScanViolationCode::DuplicateCandidate,
                String::from_str(candidate.candidate_id()),
                detail,
                String::from_str("merge the duplicate records into a single decision record"),
            );
        }
        proof {
            assert(views(violations@) =~= views(old(violations)@) + duplicates_upto(
                records@,
                k as int + 1,
            ));
        }
        k = k + 1;
    }
}

fn check_identity(record: &EcosystemScanRecord, violations: &mut Vec<ScanViolation>)
    ensures
        views(final(violations)@) == views(old(violations)@) + id_violations(*record),
{
    let canonical = String::from_str(record.candidate.candidate_id());
    if str_is_blank(record.candidate_id.as_str()) {
        push_block(
            violations,
            ScanViolationCode::EmptyCandidateId,
            canonical,
            String::from_str("candidate_id must not be empty"),
            String::from_str("set candidate_id to the candidate's canonical id"),
        );
    } else if record.candidate_id != canonical {
        let detail = cat3(
            "candidate_id `",
            record.candidate_id.as_str(),
            "` does not match canonical id `",
        );
        let detail = detail.concat(canonical.as_str());
        let detail = detail.concat("`");
        push_block(
            violations,
            ScanViolationCode::CandidateIdMismatch,
            record.candidate_id.clone(),
            detail,
            String::from_str("use EcosystemScanRecord::new to keep the id in sync with the candidate"),
        );
    } else {
        proof {
            assert(views(violations@) =~= views(old(violations)@) + id_violations(*record));
        }
    }
}

fn check_summary(record: &EcosystemScanRecord, violations: &mut Vec<ScanViolation>)
    ensures
        views(final(violations)@) == views(old(violations)@) + summary_violations(*record),
{
    if str_is_blank(record.decision_summary.as_str()) {
        push_block(
            violations,
            ScanViolationCode::EmptyDecisionSummary,
            record.candidate_id.clone(),
            String::from_str("decision_summary must not be empty"),
            String::from_str("summarize the adopt-vs-build rationale for operators"),
        );
    } else {
        proof {
            assert(views(violations@) =~= views(old(violations)@) + summary_violations(*record));
        }
    }
}

fn check_crate_coverage(record: &EcosystemScanRecord, violations: &mut Vec<ScanViolation>)
    ensures
        views(final(violations)@) == views(old(violations)@) + crate_coverage_violations(*record),
{
    if record.considered_crates.len() == 0 {
        match &record.none_found_statement {
            None => {
                push_block(
                    violations,
                    ScanViolationCode::NoCrateConsideredWithoutNoneFound,
                    record.candidate_id.clone(),
                    String::from_str("no considered crate and no none-found statement"),
                    String::from_str(
                        "list at least one considered Rust crate, or add an explicit none-found statement",
                    ),
                );
                return ;
            },
            Some(statement) => {
                if str_is_blank(statement.as_str()) {
                    push_block(
                        violations,
                        ScanViolationCode::NoneFoundStatementEmpty,
                        record.candidate_id.clone(),
                        String::from_str("none_found_statement is present but empty"),
                        String::from_str("explain why no suitable crate exists in the Rust ecosystem"),
                    );
                    return ;
                }
            },
        }
    }
    proof {
        assert(views(violations@) =~= views(old(violations)@) + crate_coverage_violations(*record));
    }
}

fn check_crate_verdicts(record: &EcosystemScanRecord, violations: &mut Vec<ScanViolation>)
    ensures
        views(final(violations)@) == views(old(violations)@) + verdicts_upto(
            *record,
            record.considered_crates@.len() as int,
        ),
{
    let mut i: usize = 0;
    proof {
        assert(views(violations@) =~= views(old(violations)@) + verdicts_upto(*record, 0));
    }
    while i < record.considered_crates.len()
        invariant
            i <= record.considered_crates@.len(),
            views(violations@) == views(old(violations)@) + verdicts_upto(*record, i as int),
        decreases record.considered_crates@.len() - i,
    {
        let c = &record.considered_crates[i];
        let ghost mid = views(violations@);
        if c.verdict == CrateVerdict::Rejected && str_is_blank(c.rationale.as_str()) {
            let detail = cat3("rejected crate `", c.crate_name.as_str(), "` has no rationale");
            push_block(
                violations,
                ScanViolationCode::RejectedCrateMissingRationale,
                record.candidate_id.clone(),
                detail,
                String::from_str("give a constraint-grounded reason for rejecting this crate"),
            );
        }
        let ghost mid2 = views(violations@);
        if c.verdict == CrateVerdict::Selected && record.decision == AdoptionDecision::Build {
            let detail = cat3("crate `", c.crate_name.as_str(), "` is Selected but the decision is Build");
            push_block(
                violations,
                ScanViolationCode::SelectedCrateContradictsBuild,
                record.candidate_id.clone(),
                detail,
                String::from_str("switch the decision to Adopt/Hybrid, or mark the crate Rejected"),
            );
        }
        proof {
            let cv = crate_verdict_violations(*record, record.considered_crates@[i as int]);
            assert(views(violations@) =~= mid + cv);
            assert(views(violations@) =~= views(old(violations)@) + verdicts_upto(
                *record,
                i as int + 1,
            ));
        }
        i = i + 1;
    }
}

fn check_adoption(record: &EcosystemScanRecord, violations: &mut Vec<ScanViolation>)
    ensures
        views(final(violations)@) == views(old(violations)@) + adoption_violations(*record),
{
    if record.decision.relies_on_adopted_crate() && record.adopted_crates.len() == 0 {
        let detail = cat3(
            "decision ",
            record.decision.as_str(),
            " relies on adoption but names no adopted crate",
        );
        push_block(
            violations,
            ScanViolationCode::AdoptWithoutAdoptedCrate,
            record.candidate_id.clone(),
            detail,
            String::from_str("list the crate(s) being adopted in adopted_crates"),
        );
    } else {
        proof {
            assert(views(violations@) =~= views(old(violations)@) + adoption_violations(*record));
        }
    }
}

fn covers_axis_exec(record: &EcosystemScanRecord, axis: ConstraintAxis) -> (b: bool)
    ensures
        b == record.covers_axis(axis),
{
    let mut i: usize = 0;
    while i < record.reject_rationale.len()
        invariant
            i <= record.reject_rationale@.len(),
            forall|j: int| 0 <= j < i ==> (#[trigger] record.reject_rationale@[j]).axis != axis,
        decreases record.reject_rationale@.len() - i,
    {
        if record.reject_rationale[i].axis == axis {
            return true;
        }
        i = i + 1;
    }
    false
}

fn opt_text_missing(o: &Option<String>) -> (b: bool)
    ensures
        b == missing_text(*o),
{
    match o {
        None => true,
        Some(s) => str_is_blank(s.as_str()),
    }
}

fn check_rejection(
    cfg: &EcosystemScanConfig,
    record: &EcosystemScanRecord,
    violations: &mut Vec<ScanViolation>,
)
    ensures
        views(final(violations)@) == views(old(violations)@) + rejection_violations(*cfg, *record),
{
    if !record.decision.rejects_full_adoption() {
        proof {
            assert(views(violations@) =~= views(old(violations)@) + rejection_violations(
                *cfg,
                *record,
            ));
        }
        return ;
    }
    let mut i: usize = 0;
    proof {
        assert(views(violations@) =~= views(old(violations)@) + axes_upto(*cfg, *record, 0));
    }
    while i < cfg.required_constraint_axes.len()
        invariant
            i <= cfg.required_constraint_axes@.len(),
            views(violations@) == views(old(violations)@) + axes_upto(*cfg, *record, i as int),
        decreases cfg.required_constraint_axes@.len() - i,
    {
        let axis = cfg.required_constraint_axes[i];
        if !covers_axis_exec(record, axis) {
            let detail = cat3("reject decision ", record.decision.as_str(), " is missing the `");
            let detail = detail.concat(axis.as_str());
            let detail = detail.concat("` constraint axis");
            let remediation = cat3(
                "add a constraint-grounded rationale for the `",
                axis.as_str(),
                "` axis",
            );
            push_block(
                violations,
                ScanViolationCode::MissingRequiredConstraintAxis,
                record.candidate_id.clone(),
                detail,
                remediation,
            );
        }
        proof {
            assert(views(violations@) =~= views(old(violations)@) + axes_upto(
                *cfg,
                *record,
                i as int + 1,
            ));
        }
        i = i + 1;
    }
    let ghost after_axes = views(violations@);
    let mut j: usize = 0;
    proof {
        assert(views(violations@) =~= after_axes + rationale_upto(*record, 0));
    }
    while j < record.reject_rationale.len()
        invariant
            j <= record.reject_rationale@.len(),
            views(violations@) == after_axes + rationale_upto(*record, j as int),
        decreases record.reject_rationale@.len() - j,
    {
        let rat = &record.reject_rationale[j];
        if str_is_blank(rat.rationale.as_str()) {
            let detail = cat3("constraint axis `", rat.axis.as_str(), "` has empty rationale");
            push_block(
                violations,
                ScanViolationCode::ConstraintRationaleEmpty,
                record.candidate_id.clone(),
                detail,
                String::from_str("fill in the rationale for this constraint axis"),
            );
        }
        proof {
            assert(views(violations@) =~= after_axes + rationale_upto(*record, j as int + 1));
        }
        j = j + 1;
    }
    let ghost after_rationale = views(violations@);
    if cfg.require_fallback_for_non_adopt && opt_text_missing(&record.fallback_plan) {
        push_block(
            violations,
            ScanViolationCode::MissingFallbackPlan,
            record.candidate_id.clone(),
            String::from_str("reject decision has no conservative fallback plan"),
            String::from_str("describe the conservative fallback if the in-tree primitive fails"),
        );
    }
    proof {
        assert(views(violations@) =~= after_rationale + fallback_violations(*cfg, *record));
        assert(views(violations@) =~= views(old(violations)@) + rejection_violations(
            *cfg,
            *record,
        ));
    }
}

fn check_module(
    cfg: &EcosystemScanConfig,
    record: &EcosystemScanRecord,
    violations: &mut Vec<ScanViolation>,
)
    ensures
        views(final(violations)@) == views(old(violations)@) + module_violations(*cfg, *record),
{
    if cfg.require_in_tree_module_for_build && record.decision.ships_in_tree_code()
        && opt_text_missing(&record.in_tree_module) {
        let detail = cat3(
            "decision ",
            record.decision.as_str(),
            " ships in-tree code but names no module",
        );
        push_block(
            violations,
            ScanViolationCode::MissingInTreeModule,
            record.candidate_id.clone(),
            detail,
            String::from_str("set in_tree_module to the implementing module path"),
        );
    } else {
        proof {
            assert(views(violations@) =~= views(old(violations)@) + module_violations(
                *cfg,
                *record,
            ));
        }
    }
}

fn check_adopted_crates(
    cfg: &EcosystemScanConfig,
    record: &EcosystemScanRecord,
    violations: &mut Vec<ScanViolation>,
)
    ensures
        views(final(violations)@) == views(old(violations)@) + adopted_upto(
            *cfg,
            *record,
            record.considered_crates@.len() as int,
        ),
{
    let mut i: usize = 0;
    proof {
        assert(views(violations@) =~= views(old(violations)@) + adopted_upto(*cfg, *record, 0));
    }
    while i < record.considered_crates.len()
        invariant
            i <= record.considered_crates@.len(),
            views(violations@) == views(old(violations)@) + adopted_upto(*cfg, *record, i as int),
        decreases record.considered_crates@.len() - i,
    {
        let c = &record.considered_crates[i];
        let ghost mid = views(violations@);
        if c.verdict == CrateVerdict::Selected {
            if cfg.forbid_unsafe_adoption && c.unsafe_policy_fit == UnsafePolicyFit::Violates {
                let detail = cat3(
                    "adopted crate `",
                    c.crate_name.as_str(),
                    "` violates the unsafe-code policy",
                );
                push_block(
                    violations,
                    ScanViolationCode::UnsafePolicyViolationAdopted,
                    record.candidate_id.clone(),
                    detail,
                    String::from_str("do not adopt a crate that requires policy-violating unsafe/FFI"),
                );
            }
            if c.determinism_risk.rank_of() > cfg.max_adopted_determinism_risk.rank_of() {
                let detail = cat3(
                    "adopted crate `",
                    c.crate_name.as_str(),
                    "` has determinism risk `",
                );
                let detail = detail.concat(c.determinism_risk.as_str());
                let detail = detail.concat("`, above the `");
                let detail = detail.concat(cfg.max_adopted_determinism_risk.as_str());
                let detail = detail.concat("` ceiling");
                push_block(
                    violations,
                    ScanViolationCode::AdoptedCrateDeterminismRiskTooHigh,
                    record.candidate_id.clone(),
                    detail,
                    String::from_str(
                        "only adopt crates whose determinism risk is within the configured ceiling",
                    ),
                );
            }
        }
        proof {
            let cv = adopted_crate_violations(*cfg, *record, record.considered_crates@[i as int]);
            assert(views(violations@) =~= mid + cv);
            assert(views(violations@) =~= views(old(violations)@) + adopted_upto(
                *cfg,
                *record,
                i as int + 1,
            ));
        }
        i = i + 1;
    }
}

/// Run every per-record check, appending the violations in check order.
fn check_record(
    cfg: &EcosystemScanConfig,
    record: &EcosystemScanRecord,
    violations: &mut Vec<ScanViolation>,
)
    ensures
        views(final(violations)@) == views(old(violations)@) + record_violations(*cfg, *record),
{
    let ghost v0 = views(violations@);
    check_identity(record, violations);
    check_summary(record, violations);
    check_crate_coverage(record, violations);
    check_crate_verdicts(record, violations);
    check_adoption(record, violations);
    check_rejection(cfg, record, violations);
    check_module(cfg, record, violations);
    check_adopted_crates(cfg, record, violations);
    proof {
        lemma_concat8(
            v0,
            id_violations(*record),
            summary_violations(*record),
            crate_coverage_violations(*record),
            verdicts_upto(*record, record.considered_crates@.len() as int),
            adoption_violations(*record),
            rejection_violations(*cfg, *record),
            module_violations(*cfg, *record),
            adopted_upto(*cfg, *record, record.considered_crates@.len() as int),
        );
    }
}

proof fn lemma_concat8<A>(
    v0: Seq<A>,
    a: Seq<A>,
    b: Seq<A>,
    c: Seq<A>,
    d: Seq<A>,
    e: Seq<A>,
    f: Seq<A>,
    g: Seq<A>,
    h: Seq<A>,
)
    ensures
        v0 + a + b + c + d + e + f + g + h == v0 + (a + b + c + d + e + f + g + h),
{
    assert(v0 + a + b + c + d + e + f + g + h =~= v0 + (a + b + c + d + e + f + g + h));
}

/// Every violation of `records` under `cfg`, in report order.
pub fn collect_violations(cfg: &EcosystemScanConfig, records: &Vec<EcosystemScanRecord>) -> (out: (
    Vec<ScanViolation>,
    usize,
))
    ensures
        views(out.0@) == scan_violations(*cfg, records@),
        out.1 == coverage_violations(*cfg, records@).len(),
{
    let mut violations: Vec<ScanViolation> = Vec::new();
    let missing = check_coverage(cfg, records, &mut violations);
    check_duplicates(records, &mut violations);
    let ghost before_records = views(violations@);
    let mut i: usize = 0;
    proof {
        assert(views(violations@) =~= before_records + records_upto(*cfg, records@, 0));
    }
    while i < records.len()
        invariant
            i <= records@.len(),
            views(violations@) == before_records + records_upto(*cfg, records@, i as int),
        decreases records@.len() - i,
    {
        check_record(cfg, &records[i], &mut violations);
        proof {
            assert(views(violations@) =~= before_records + records_upto(
                *cfg,
                records@,
                i as int + 1,
            ));
        }
        i = i + 1;
    }
    proof {
        assert(views(Seq::<ScanViolation>::empty()) =~= Seq::<ScanViolationView>::empty());
        assert(views(violations@) =~= scan_violations(*cfg, records@));
    }
    (violations, missing)
}

} // verus!
