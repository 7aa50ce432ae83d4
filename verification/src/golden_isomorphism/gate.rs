//! The golden-isomorphism verification gate: it turns a compiled
//! isomorphism proof into findings and a go/no-go promotion decision.
//!
//! Any fixture whose behavior changed without a valid policy exception, any
//! policy exception that is not evidence-backed, and any fixture missing on
//! one side of the comparison blocks promotion; covered changes and stale
//! exceptions are advisory.

use vstd::prelude::*;
use vstd::string::*;

use crate::golden_isomorphism::{
    evidence_backed, fixture_replay_command, fixture_replay_spec, ChecksumVerdict,
    FixtureVerdict, GoldenPolicyException, IsomorphismProof, OptimizationChange,
    GOLDEN_ISOMORPHISM_SCHEMA_VERSION,
};
use crate::text::{
    cat, cat3, content_id, field, hex_of, insert_sorted_unique, is_blank, lemma_is_sorted_set,
    push_field, sha256_hex_of_text, sha256_spec, sorted_set, str_is_blank, string_views,
    strictly_sorted, strings_contain, text_short_id, utf8_of,
};

verus! {

// ── Severity and finding codes ───────────────────────────────────────────

/// Gate severity.
#[derive(Debug, Clone, Copy, PartialEq, Eq, PartialOrd, Ord, Hash, Structural)]
pub enum GoldenSeverity {
    /// Blocks promotion.
    Block,
    /// Advisory only.
    Warn,
}

impl GoldenSeverity {
    /// Stable lowercase identifier.
    pub open spec fn tag(self) -> Seq<char> {
        match self {
            GoldenSeverity::Block => "block"@,
            GoldenSeverity::Warn => "warn"@,
        }
    }

    /// Stable lowercase identifier.
    pub fn as_str(self) -> (s: &'static str)
        ensures
            s@ == self.tag(),
    {
        match self {
            GoldenSeverity::Block => "block",
            GoldenSeverity::Warn => "warn",
        }
    }
}

/// A gate finding code.
#[derive(Debug, Clone, Copy, PartialEq, Eq, PartialOrd, Ord, Hash, Structural)]
pub enum GoldenFindingCode {
    /// A behavior change without a covering policy exception.
    UncoveredBehaviorChange,
    /// A behavior change covered by a valid policy exception.
    CoveredBehaviorChange,
    /// A policy exception that is not evidence-backed.
    InvalidPolicyException,
    /// A policy exception for a fixture whose behavior did not change.
    UnusedPolicyException,
    /// A golden fixture with no corresponding candidate output.
    MissingCandidateOutput,
    /// A candidate output with no corresponding golden fixture.
    ExtraneousCandidateOutput,
}

impl GoldenFindingCode {
    /// Stable lowercase identifier.
    pub open spec fn tag(self) -> Seq<char> {
        match self {
            GoldenFindingCode::UncoveredBehaviorChange => "uncovered_behavior_change"@,
            GoldenFindingCode::CoveredBehaviorChange => "covered_behavior_change"@,
            GoldenFindingCode::InvalidPolicyException => "invalid_policy_exception"@,
            GoldenFindingCode::UnusedPolicyException => "unused_policy_exception"@,
            GoldenFindingCode::MissingCandidateOutput => "missing_candidate_output"@,
            GoldenFindingCode::ExtraneousCandidateOutput => "extraneous_candidate_output"@,
        }
    }

    /// Stable lowercase identifier.
    pub fn as_str(self) -> (s: &'static str)
        ensures
            s@ == self.tag(),
    {
        match self {
            GoldenFindingCode::UncoveredBehaviorChange => "uncovered_behavior_change",
            GoldenFindingCode::CoveredBehaviorChange => "covered_behavior_change",
            GoldenFindingCode::InvalidPolicyException => "invalid_policy_exception",
            GoldenFindingCode::UnusedPolicyException => "unused_policy_exception",
            GoldenFindingCode::MissingCandidateOutput => "missing_candidate_output",
            GoldenFindingCode::ExtraneousCandidateOutput => "extraneous_candidate_output",
        }
    }
}

// ── Findings ─────────────────────────────────────────────────────────────

/// A gate finding.
#[derive(Debug, Clone, PartialEq, Eq)]
pub struct GoldenFinding {
    /// The finding code.
    pub code: GoldenFindingCode,
    /// Severity.
    pub severity: GoldenSeverity,
    /// The change under evaluation.
    pub change_id: String,
    /// The proof this finding references.
    pub proof_id: String,
    /// The fixture this finding is about.
    pub fixture_id: String,
    /// The per-fixture checksum verdict (`n/a` for exception and coverage findings).
    pub checksum_verdict: String,
    /// Human-readable detail.
    pub detail: String,
    /// Remediation hint.
    pub remediation: String,
    /// One-command counterexample replay reference.
    pub replay_command: String,
}

/// The mathematical content of a finding.
pub struct GoldenFindingView {
    pub code: GoldenFindingCode,
    pub severity: GoldenSeverity,
    pub change_id: Seq<char>,
    pub proof_id: Seq<char>,
    pub fixture_id: Seq<char>,
    pub checksum_verdict: Seq<char>,
    pub detail: Seq<char>,
    pub remediation: Seq<char>,
    pub replay_command: Seq<char>,
}

impl View for GoldenFinding {
    type V = GoldenFindingView;

    open spec fn view(&self) -> GoldenFindingView {
        GoldenFindingView {
            code: self.code,
            severity: self.severity,
            change_id: self.change_id@,
            proof_id: self.proof_id@,
            fixture_id: self.fixture_id@,
            checksum_verdict: self.checksum_verdict@,
            detail: self.detail@,
            remediation: self.remediation@,
            replay_command: self.replay_command@,
        }
    }
}

/// The views of a list of findings.
pub open spec fn finding_views(s: Seq<GoldenFinding>) -> Seq<GoldenFindingView> {
    s.map_values(|f: GoldenFinding| f@)
}

/// A finding about one fixture; its replay command points at that fixture.
pub open spec fn finding_spec(
    code: GoldenFindingCode,
    severity: GoldenSeverity,
    change_id: Seq<char>,
    proof_id: Seq<char>,
    fixture_id: Seq<char>,
    checksum_verdict: Seq<char>,
    detail: Seq<char>,
    remediation: Seq<char>,
) -> GoldenFindingView {
    GoldenFindingView {
        code,
        severity,
        change_id,
        proof_id,
        fixture_id,
        checksum_verdict,
        detail,
        remediation,
        replay_command: fixture_replay_spec(change_id, fixture_id, proof_id),
    }
}

/// Detail of an invalid policy exception.
pub open spec fn invalid_detail(id: Seq<char>) -> Seq<char> {
    "policy exception for `"@ + id + "` is not evidence-backed or exceptions are disabled"@
}

/// Remediation of an invalid policy exception.
pub open spec fn invalid_remediation() -> Seq<char> {
    "attach a non-empty rationale and at least one evidence reference"@
}

/// Detail of a missing or extraneous fixture.
pub open spec fn coverage_detail(code: GoldenFindingCode, id: Seq<char>) -> Seq<char> {
    if code == GoldenFindingCode::MissingCandidateOutput {
        "golden fixture has no candidate output: `"@ + id + "`"@
    } else {
        "candidate output has no golden baseline: `"@ + id + "`"@
    }
}

/// Remediation of a missing or extraneous fixture.
pub open spec fn coverage_remediation(code: GoldenFindingCode) -> Seq<char> {
    if code == GoldenFindingCode::MissingCandidateOutput {
        "produce a candidate output for this fixture before promotion"@
    } else {
        "capture a golden baseline for this fixture or drop it from the candidate"@
    }
}

/// Detail of a stale policy exception.
pub open spec fn unused_detail(id: Seq<char>) -> Seq<char> {
    "policy exception for `"@ + id + "` is unused; the fixture's behavior did not change"@
}

/// Detail of a behavior change covered by an exception.
pub open spec fn covered_detail(id: Seq<char>) -> Seq<char> {
    "fixture `"@ + id + "` behavior changed but is covered by a policy exception"@
}

/// Detail of a behavior change with no covering exception.
pub open spec fn uncovered_detail(id: Seq<char>) -> Seq<char> {
    "fixture `"@ + id + "` behavior changed without a declared invariant or policy exception"@
}

/// Remediation of a behavior change with no covering exception.
pub open spec fn uncovered_remediation() -> Seq<char> {
    "declare the equivalence invariant that makes this an isomorphism, or file an evidence-backed policy exception"@
}

// ── Configuration ────────────────────────────────────────────────────────

/// Verification-gate configuration.
#[derive(Debug, Clone, Copy, PartialEq, Eq, Structural)]
pub struct GoldenIsomorphismConfig {
    /// Whether policy exceptions are honored at all.
    pub allow_policy_exceptions: bool,
    /// Whether policy exceptions must carry non-empty evidence to be valid.
    pub require_exception_evidence: bool,
    /// Whether the golden and candidate fixture sets must match exactly.
    pub require_full_fixture_coverage: bool,
}

impl Default for GoldenIsomorphismConfig {
    /// Every check enabled.
    fn default() -> (c: Self)
        ensures
            c.allow_policy_exceptions,
            c.require_exception_evidence,
            c.require_full_fixture_coverage,
    {
        GoldenIsomorphismConfig {
            allow_policy_exceptions: true,
            require_exception_evidence: true,
            require_full_fixture_coverage: true,
        }
    }
}

/// Whether a policy exception is honored: exceptions are allowed, its reason
/// is not blank, and (where evidence is required) it is evidence-backed.
pub open spec fn exception_valid(cfg: GoldenIsomorphismConfig, e: GoldenPolicyException) -> bool {
    &&& cfg.allow_policy_exceptions
    &&& !is_blank(e.reason@)
    &&& (!cfg.require_exception_evidence || evidence_backed(e))
}

/// Whether a valid exception names fixture `id`.
pub open spec fn covered(cfg: GoldenIsomorphismConfig, exs: Seq<GoldenPolicyException>, id: Seq<char>) -> bool {
    exists|k: int|
        0 <= k < exs.len() && exception_valid(cfg, #[trigger] exs[k]) && exs[k].fixture_id@ == id
}

// ── The findings, stated ─────────────────────────────────────────────────

/// Findings for the invalid exceptions among the first `n`, in order.
pub open spec fn exception_findings(
    cfg: GoldenIsomorphismConfig,
    change_id: Seq<char>,
    proof_id: Seq<char>,
    exs: Seq<GoldenPolicyException>,
    n: int,
) -> Seq<GoldenFindingView>
    decreases n,
{
    if n <= 0 {
        Seq::empty()
    } else {
        exception_findings(cfg, change_id, proof_id, exs, n - 1) + if exception_valid(cfg, exs[n - 1]) {
            Seq::empty()
        } else {
            seq![
                finding_spec(
                    GoldenFindingCode::InvalidPolicyException,
                    GoldenSeverity::Block,
                    change_id,
                    proof_id,
                    exs[n - 1].fixture_id@,
                    "n/a"@,
                    invalid_detail(exs[n - 1].fixture_id@),
                    invalid_remediation(),
                ),
            ]
        }
    }
}

/// Membership in `a` and not in `b`.
pub open spec fn difference_pred(a: Seq<Seq<char>>, b: Seq<Seq<char>>) -> spec_fn(Seq<char>) -> bool {
    |x: Seq<char>| a.contains(x) && !b.contains(x)
}

/// The ids in `a` and not in `b`, ascending, each once.
pub open spec fn fixture_difference(a: Seq<Seq<char>>, b: Seq<Seq<char>>) -> Seq<Seq<char>> {
    sorted_set(difference_pred(a, b))
}

/// A blocking coverage finding for fixture `id`.
pub open spec fn coverage_finding(
    code: GoldenFindingCode,
    change_id: Seq<char>,
    proof_id: Seq<char>,
    id: Seq<char>,
) -> GoldenFindingView {
    finding_spec(
        code,
        GoldenSeverity::Block,
        change_id,
        proof_id,
        id,
        "n/a"@,
        coverage_detail(code, id),
        coverage_remediation(code),
    )
}

/// One coverage finding per id, in order.
pub open spec fn coverage_findings(
    code: GoldenFindingCode,
    change_id: Seq<char>,
    proof_id: Seq<char>,
    ids: Seq<Seq<char>>,
) -> Seq<GoldenFindingView> {
    ids.map_values(|id: Seq<char>| coverage_finding(code, change_id, proof_id, id))
}

/// The coverage findings: golden fixtures with no candidate output, then
/// candidate outputs with no golden fixture (none when coverage is not
/// required).
pub open spec fn all_coverage_findings(
    cfg: GoldenIsomorphismConfig,
    change_id: Seq<char>,
    proof_id: Seq<char>,
    golden: Seq<Seq<char>>,
    candidate: Seq<Seq<char>>,
) -> Seq<GoldenFindingView> {
    if cfg.require_full_fixture_coverage {
        coverage_findings(
            GoldenFindingCode::MissingCandidateOutput,
            change_id,
            proof_id,
            fixture_difference(golden, candidate),
        ) + coverage_findings(
            GoldenFindingCode::ExtraneousCandidateOutput,
            change_id,
            proof_id,
            fixture_difference(candidate, golden),
        )
    } else {
        Seq::empty()
    }
}

/// The finding one verdict gives rise to: an unchanged fixture named by a
/// valid exception gives a stale-exception advisory; a changed fixture gives
/// a covered-change advisory when a valid exception names it and a blocking
/// uncovered change otherwise.
pub open spec fn verdict_finding(
    cfg: GoldenIsomorphismConfig,
    change_id: Seq<char>,
    proof_id: Seq<char>,
    exs: Seq<GoldenPolicyException>,
    v: FixtureVerdict,
) -> Seq<GoldenFindingView> {
    let id = v.fixture_id@;
    if covered(cfg, exs, id) {
        if v.verdict == ChecksumVerdict::Mismatch {
            seq![
                finding_spec(
                    GoldenFindingCode::CoveredBehaviorChange,
                    GoldenSeverity::Warn,
                    change_id,
                    proof_id,
                    id,
                    v.verdict.tag(),
                    covered_detail(id),
                    "confirm the exception's rationale still holds"@,
                ),
            ]
        } else {
            seq![
                finding_spec(
                    GoldenFindingCode::UnusedPolicyException,
                    GoldenSeverity::Warn,
                    change_id,
                    proof_id,
                    id,
                    v.verdict.tag(),
                    unused_detail(id),
                    "remove the stale policy exception"@,
                ),
            ]
        }
    } else if v.verdict == ChecksumVerdict::Mismatch {
        seq![
            finding_spec(
                GoldenFindingCode::UncoveredBehaviorChange,
                GoldenSeverity::Block,
                change_id,
                proof_id,
                id,
                v.verdict.tag(),
                uncovered_detail(id),
                uncovered_remediation(),
            ),
        ]
    } else {
        Seq::empty()
    }
}

/// The findings of the first `n` verdicts, in order.
pub open spec fn verdict_findings(
    cfg: GoldenIsomorphismConfig,
    change_id: Seq<char>,
    proof_id: Seq<char>,
    exs: Seq<GoldenPolicyException>,
    vs: Seq<FixtureVerdict>,
    n: int,
) -> Seq<GoldenFindingView>
    decreases n,
{
    if n <= 0 {
        Seq::empty()
    } else {
        verdict_findings(cfg, change_id, proof_id, exs, vs, n - 1) + verdict_finding(
            cfg,
            change_id,
            proof_id,
            exs,
            vs[n - 1],
        )
    }
}

/// Every finding of one run, in report order: invalid exceptions, coverage,
/// then one entry per verdict that calls for one.
pub open spec fn gate_findings(
    cfg: GoldenIsomorphismConfig,
    change: OptimizationChange,
    golden: Seq<Seq<char>>,
    candidate: Seq<Seq<char>>,
    iso: IsomorphismProof,
) -> Seq<GoldenFindingView> {
    exception_findings(
        cfg,
        change.change_id@,
        iso.proof_id@,
        change.policy_exceptions@,
        change.policy_exceptions@.len() as int,
    ) + all_coverage_findings(cfg, change.change_id@, iso.proof_id@, golden, candidate)
        + verdict_findings(
        cfg,
        change.change_id@,
        iso.proof_id@,
        change.policy_exceptions@,
        iso.fixture_verdicts@,
        iso.fixture_verdicts@.len() as int,
    )
}

// ── Building the findings ────────────────────────────────────────────────

/// Append one finding about a fixture.
pub(crate) fn push_finding(
    out: &mut Vec<GoldenFinding>,
    code: GoldenFindingCode,
    severity: GoldenSeverity,
    change_id: &str,
    proof_id: &str,
    fixture_id: &str,
    checksum_verdict: &str,
    detail: String,
    remediation: &str,
)
    ensures
        finding_views(final(out)@) == finding_views(old(out)@).push(
            finding_spec(
                code,
                severity,
                change_id@,
                proof_id@,
                fixture_id@,
                checksum_verdict@,
                detail@,
                remediation@,
            ),
        ),
{
    let f = GoldenFinding {
        code,
        severity,
        change_id: String::from_str(change_id),
        proof_id: String::from_str(proof_id),
        fixture_id: String::from_str(fixture_id),
        checksum_verdict: String::from_str(checksum_verdict),
        detail,
        remediation: String::from_str(remediation),
        replay_command: fixture_replay_command(change_id, fixture_id, proof_id),
    };
    out.push(f);
    proof {
        assert(finding_views(out@) =~= finding_views(old(out)@).push(
            finding_spec(
                code,
                severity,
                change_id@,
                proof_id@,
                fixture_id@,
                checksum_verdict@,
                detail@,
                remediation@,
            ),
        ));
    }
}

/// Whether a policy exception is honored under `cfg`.
pub(crate) fn exception_is_valid(cfg: &GoldenIsomorphismConfig, e: &GoldenPolicyException) -> (b: bool)
    ensures
        b == exception_valid(*cfg, *e),
{
    let evidence_ok = !cfg.require_exception_evidence || e.is_evidence_backed();
    let well_formed = !str_is_blank(e.reason.as_str()) && evidence_ok;
    cfg.allow_policy_exceptions && well_formed
}

/// Whether a valid exception names fixture `id`.
pub(crate) fn is_covered(cfg: &GoldenIsomorphismConfig, exs: &Vec<GoldenPolicyException>, id: &String) -> (b: bool)
    ensures
        b == covered(*cfg, exs@, id@),
{
    let mut i: usize = 0;
    while i < exs.len()
        invariant
            i <= exs@.len(),
            forall|k: int|
                0 <= k < i ==> !(exception_valid(*cfg, #[trigger] exs@[k]) && exs@[k].fixture_id@
                    == id@),
        decreases exs@.len() - i,
    {
        if exception_is_valid(cfg, &exs[i]) && exs[i].fixture_id == *id {
            return true;
        }
        i = i + 1;
    }
    false
}

/// Append the findings for invalid exceptions.
pub(crate) fn push_exception_findings(
    out: &mut Vec<GoldenFinding>,
    cfg: &GoldenIsomorphismConfig,
    change_id: &str,
    proof_id: &str,
    exs: &Vec<GoldenPolicyException>,
)
    ensures
        finding_views(final(out)@) == finding_views(old(out)@) + exception_findings(
            *cfg,
            change_id@,
            proof_id@,
            exs@,
            exs@.len() as int,
        ),
{
    let mut i: usize = 0;
    proof {
        assert(finding_views(out@) =~= finding_views(old(out)@) + exception_findings(
            *cfg,
            change_id@,
            proof_id@,
            exs@,
            0,
        ));
    }
    while i < exs.len()
        invariant
            i <= exs@.len(),
            finding_views(out@) == finding_views(old(out)@) + exception_findings(
                *cfg,
                change_id@,
                proof_id@,
                exs@,
                i as int,
            ),
        decreases exs@.len() - i,
    {
        let e = &exs[i];
        let ghost before = finding_views(out@);
        if !exception_is_valid(cfg, e) {
            let detail = cat3(
                "policy exception for `",
                e.fixture_id.as_str(),
                "` is not evidence-backed or exceptions are disabled",
            );
            push_finding(
                out,
                GoldenFindingCode::InvalidPolicyException,
                GoldenSeverity::Block,
                change_id,
                proof_id,
                e.fixture_id.as_str(),
                "n/a",
                detail,
                "attach a non-empty rationale and at least one evidence reference",
            );
        }
        proof {
            assert(finding_views(out@) =~= finding_views(old(out)@) + exception_findings(
                *cfg,
                change_id@,
                proof_id@,
                exs@,
                i as int + 1,
            ));
        }
        i = i + 1;
    }
}

/// The ids in `a` and not in `b`, ascending, each once.
pub(crate) fn sorted_difference(a: &Vec<String>, b: &Vec<String>) -> (out: Vec<String>)
    ensures
        string_views(out@) == fixture_difference(string_views(a@), string_views(b@)),
{
    let ghost av = string_views(a@);
    let ghost bv = string_views(b@);
    let mut out: Vec<String> = Vec::new();
    let mut i: usize = 0;
    while i < a.len()
        invariant
            i <= a@.len(),
            av == string_views(a@),
            bv == string_views(b@),
            strictly_sorted(string_views(out@)),
            forall|x: Seq<char>| #[trigger] string_views(out@).contains(x) <==> (exists|k: int|
                0 <= k < i && (#[trigger] a@[k])@ == x) && !bv.contains(x),
        decreases a@.len() - i,
    {
        if !strings_contain(b, &a[i]) {
            let ghost before = string_views(out@);
            insert_sorted_unique(&mut out, a[i].clone());
            proof {
                assert forall|x: Seq<char>| #[trigger] string_views(out@).contains(x) <==> (exists|
                    k: int,
                | 0 <= k < i + 1 && (#[trigger] a@[k])@ == x) && !bv.contains(x) by {
                    if x == a@[i as int]@ {
                        assert(a@[i as int]@ == x);
                    }
                    if exists|k: int| 0 <= k < i + 1 && (#[trigger] a@[k])@ == x {
                        let k = choose|k: int| 0 <= k < i + 1 && (#[trigger] a@[k])@ == x;
                        if k < i {
                            assert(exists|k: int| 0 <= k < i && (#[trigger] a@[k])@ == x);
                        }
                    }
                }
            }
        } else {
            proof {
                assert forall|x: Seq<char>| #[trigger] string_views(out@).contains(x) <==> (exists|
                    k: int,
                | 0 <= k < i + 1 && (#[trigger] a@[k])@ == x) && !bv.contains(x) by {
                    if exists|k: int| 0 <= k < i + 1 && (#[trigger] a@[k])@ == x {
                        let k = choose|k: int| 0 <= k < i + 1 && (#[trigger] a@[k])@ == x;
                        if k < i {
                            assert(exists|k: int| 0 <= k < i && (#[trigger] a@[k])@ == x);
                        } else {
                            assert(x == a@[i as int]@);
                        }
                    }
                }
            }
        }
        i = i + 1;
    }
    proof {
        let p = difference_pred(av, bv);
        assert forall|x: Seq<char>| #[trigger] string_views(out@).contains(x) <==> p(x) by {
            if av.contains(x) {
                let k = choose|k: int| 0 <= k < av.len() && av[k] == x;
                assert(a@[k]@ == x);
            }
            if exists|k: int| 0 <= k < a@.len() && (#[trigger] a@[k])@ == x {
                let k = choose|k: int| 0 <= k < a@.len() && (#[trigger] a@[k])@ == x;
                assert(av[k] == x);
            }
        }
        lemma_is_sorted_set(string_views(out@), p);
    }
    out
}

/// Append one blocking coverage finding per id.
pub(crate) fn push_coverage_findings(
    out: &mut Vec<GoldenFinding>,
    code: GoldenFindingCode,
    change_id: &str,
    proof_id: &str,
    ids: &Vec<String>,
)
    requires
        code == GoldenFindingCode::MissingCandidateOutput || code
            == GoldenFindingCode::ExtraneousCandidateOutput,
    ensures
        finding_views(final(out)@) == finding_views(old(out)@) + coverage_findings(
            code,
            change_id@,
            proof_id@,
            string_views(ids@),
        ),
{
    let ghost idv = string_views(ids@);
    let mut i: usize = 0;
    proof {
        assert(finding_views(out@) =~= finding_views(old(out)@) + coverage_findings(
            code,
            change_id@,
            proof_id@,
            idv.take(0),
        ));
    }
    while i < ids.len()
        invariant
            i <= ids@.len(),
            idv == string_views(ids@),
            code == GoldenFindingCode::MissingCandidateOutput || code
                == GoldenFindingCode::ExtraneousCandidateOutput,
            finding_views(out@) == finding_views(old(out)@) + coverage_findings(
                code,
                change_id@,
                proof_id@,
                idv.take(i as int),
            ),
        decreases ids@.len() - i,
    {
        let id = ids[i].as_str();
        let (detail, remediation) = if code == GoldenFindingCode::MissingCandidateOutput {
            (
                cat3("golden fixture has no candidate output: `", id, "`"),
                "produce a candidate output for this fixture before promotion",
            )
        } else {
            (
                cat3("candidate output has no golden baseline: `", id, "`"),
                "capture a golden baseline for this fixture or drop it from the candidate",
            )
        };
        push_finding(
            out,
            code,
            GoldenSeverity::Block,
            change_id,
            proof_id,
            id,
            "n/a",
            detail,
            remediation,
        );
        proof {
            assert(idv.take(i as int + 1) =~= idv.take(i as int).push(idv[i as int]));
            assert(coverage_findings(code, change_id@, proof_id@, idv.take(i as int + 1))
                =~= coverage_findings(code, change_id@, proof_id@, idv.take(i as int)).push(
                coverage_finding(code, change_id@, proof_id@, idv[i as int]),
            ));
            assert(finding_views(out@) =~= finding_views(old(out)@) + coverage_findings(
                code,
                change_id@,
                proof_id@,
                idv.take(i as int + 1),
            ));
        }
        i = i + 1;
    }
    proof {
        assert(idv.take(i as int) =~= idv);
    }
}

// ── Summary ──────────────────────────────────────────────────────────────

/// Aggregate gate counts.
#[derive(Debug, Clone, PartialEq, Eq)]
pub struct GoldenIsomorphismSummary {
    /// Fixtures compared (present in both golden and candidate).
    pub total_fixtures: usize,
    /// Byte-identical fixtures.
    pub matched: usize,
    /// Fixtures equal only under the declared invariants.
    pub normalized_matched: usize,
    /// Fixtures whose behavior changed.
    pub mismatched: usize,
    /// Behavior changes covered by a valid exception.
    pub covered_changes: usize,
    /// Behavior changes with no covering exception.
    pub uncovered_changes: usize,
    /// Blocking findings.
    pub blocking_findings: usize,
    /// Advisory findings.
    pub advisory_findings: usize,
    /// Whether behavior is preserved for every covered fixture.
    pub behavior_preserved: bool,
    /// Whether the optimization may be promoted.
    pub promotion_allowed: bool,
}

/// Number of the first `n` verdicts equal to `v`.
pub open spec fn verdict_count(vs: Seq<FixtureVerdict>, v: ChecksumVerdict, n: int) -> nat
    decreases n,
{
    if n <= 0 {
        0
    } else {
        verdict_count(vs, v, n - 1) + if vs[n - 1].verdict == v {
            1nat
        } else {
            0nat
        }
    }
}

/// Number of the first `n` mismatched verdicts that a valid exception covers
/// (`want == true`) or does not cover (`want == false`).
pub open spec fn change_count(
    cfg: GoldenIsomorphismConfig,
    exs: Seq<GoldenPolicyException>,
    vs: Seq<FixtureVerdict>,
    want: bool,
    n: int,
) -> nat
    decreases n,
{
    if n <= 0 {
        0
    } else {
        change_count(cfg, exs, vs, want, n - 1) + if vs[n - 1].verdict == ChecksumVerdict::Mismatch
            && covered(cfg, exs, vs[n - 1].fixture_id@) == want {
            1nat
        } else {
            0nat
        }
    }
}

/// Number of blocking findings among the first `n`.
pub open spec fn block_count(fs: Seq<GoldenFindingView>, n: int) -> nat
    decreases n,
{
    if n <= 0 {
        0
    } else {
        block_count(fs, n - 1) + if fs[n - 1].severity == GoldenSeverity::Block {
            1nat
        } else {
            0nat
        }
    }
}

/// Whether no finding blocks.
pub open spec fn no_blocking(fs: Seq<GoldenFindingView>) -> bool {
    forall|i: int| 0 <= i < fs.len() ==> (#[trigger] fs[i]).severity != GoldenSeverity::Block
}

/// Whether `s` holds the counts of a gate run.
pub open spec fn summary_of(
    s: GoldenIsomorphismSummary,
    cfg: GoldenIsomorphismConfig,
    exs: Seq<GoldenPolicyException>,
    iso: IsomorphismProof,
    fs: Seq<GoldenFindingView>,
) -> bool {
    let vs = iso.fixture_verdicts@;
    &&& s.total_fixtures == vs.len()
    &&& s.matched == verdict_count(vs, ChecksumVerdict::Match, vs.len() as int)
    &&& s.normalized_matched == verdict_count(vs, ChecksumVerdict::NormalizedMatch, vs.len() as int)
    &&& s.mismatched == verdict_count(vs, ChecksumVerdict::Mismatch, vs.len() as int)
    &&& s.covered_changes == change_count(cfg, exs, vs, true, vs.len() as int)
    &&& s.uncovered_changes == change_count(cfg, exs, vs, false, vs.len() as int)
    &&& s.blocking_findings == block_count(fs, fs.len() as int)
    &&& s.advisory_findings == fs.len() - block_count(fs, fs.len() as int)
    &&& s.behavior_preserved == iso.behavior_preserved
    &&& s.promotion_allowed == no_blocking(fs)
}

/// Appends the findings of each verdict and counts the verdicts.
pub(crate) fn push_verdict_findings(
    out: &mut Vec<GoldenFinding>,
    cfg: &GoldenIsomorphismConfig,
    change_id: &str,
    proof_id: &str,
    exs: &Vec<GoldenPolicyException>,
    vs: &Vec<FixtureVerdict>,
) -> (counts: (usize, usize, usize, usize, usize))
    ensures
        finding_views(final(out)@) == finding_views(old(out)@) + verdict_findings(
            *cfg,
            change_id@,
            proof_id@,
            exs@,
            vs@,
            vs@.len() as int,
        ),
        counts.0 == verdict_count(vs@, ChecksumVerdict::Match, vs@.len() as int),
        counts.1 == verdict_count(vs@, ChecksumVerdict::NormalizedMatch, vs@.len() as int),
        counts.2 == verdict_count(vs@, ChecksumVerdict::Mismatch, vs@.len() as int),
        counts.3 == change_count(*cfg, exs@, vs@, true, vs@.len() as int),
        counts.4 == change_count(*cfg, exs@, vs@, false, vs@.len() as int),
{
    let mut matched: usize = 0;
    let mut normalized: usize = 0;
    let mut mismatched: usize = 0;
    let mut covered_changes: usize = 0;
    let mut uncovered_changes: usize = 0;
    let mut i: usize = 0;
    proof {
        assert(finding_views(out@) =~= finding_views(old(out)@) + verdict_findings(
            *cfg,
            change_id@,
            proof_id@,
            exs@,
            vs@,
            0,
        ));
    }
    while i < vs.len()
        invariant
            i <= vs@.len(),
            finding_views(out@) == finding_views(old(out)@) + verdict_findings(
                *cfg,
                change_id@,
                proof_id@,
                exs@,
                vs@,
                i as int,
            ),
            matched == verdict_count(vs@, ChecksumVerdict::Match, i as int),
            normalized == verdict_count(vs@, ChecksumVerdict::NormalizedMatch, i as int),
            mismatched == verdict_count(vs@, ChecksumVerdict::Mismatch, i as int),
            covered_changes == change_count(*cfg, exs@, vs@, true, i as int),
            uncovered_changes == change_count(*cfg, exs@, vs@, false, i as int),
            matched <= i,
            normalized <= i,
            mismatched <= i,
            covered_changes <= i,
            uncovered_changes <= i,
        decreases vs@.len() - i,
    {
        let v = &vs[i];
        let is_cov = is_covered(cfg, exs, &v.fixture_id);
        let id = v.fixture_id.as_str();
        match v.verdict {
            ChecksumVerdict::Match => {
                matched = matched + 1;
            },
            ChecksumVerdict::NormalizedMatch => {
                normalized = normalized + 1;
            },
            ChecksumVerdict::Mismatch => {
                mismatched = mismatched + 1;
                if is_cov {
                    covered_changes = covered_changes + 1;
                } else {
                    uncovered_changes = uncovered_changes + 1;
                }
            },
        }
        if is_cov {
            if v.verdict == ChecksumVerdict::Mismatch {
                push_finding(
                    out,
                    GoldenFindingCode::CoveredBehaviorChange,
                    GoldenSeverity::Warn,
                    change_id,
                    proof_id,
                    id,
                    v.verdict.as_str(),
                    cat3("fixture `", id, "` behavior changed but is covered by a policy exception"),
                    "confirm the exception's rationale still holds",
                );
            } else {
                push_finding(
                    out,
                    GoldenFindingCode::UnusedPolicyException,
                    GoldenSeverity::Warn,
                    change_id,
                    proof_id,
                    id,
                    v.verdict.as_str(),
                    cat3(
                        "policy exception for `",
                        id,
                        "` is unused; the fixture's behavior did not change",
                    ),
                    "remove the stale policy exception",
                );
            }
        } else if v.verdict == ChecksumVerdict::Mismatch {
            push_finding(
                out,
                GoldenFindingCode::UncoveredBehaviorChange,
                GoldenSeverity::Block,
                change_id,
                proof_id,
                id,
                v.verdict.as_str(),
                cat3(
                    "fixture `",
                    id,
                    "` behavior changed without a declared invariant or policy exception",
                ),
                "declare the equivalence invariant that makes this an isomorphism, or file an evidence-backed policy exception",
            );
        }
        proof {
            assert(finding_views(out@) =~= finding_views(old(out)@) + verdict_findings(
                *cfg,
                change_id@,
                proof_id@,
                exs@,
                vs@,
                i as int + 1,
            ));
        }
        i = i + 1;
    }
    (matched, normalized, mismatched, covered_changes, uncovered_changes)
}

/// Counts the blocking findings.
pub(crate) fn count_blocking(fs: &Vec<GoldenFinding>) -> (n: usize)
    ensures
        n == block_count(finding_views(fs@), fs@.len() as int),
        n <= fs@.len(),
        (n == 0) == no_blocking(finding_views(fs@)),
{
    let ghost v = finding_views(fs@);
    let mut n: usize = 0;
    let mut i: usize = 0;
    while i < fs.len()
        invariant
            i <= fs@.len(),
            v == finding_views(fs@),
            n == block_count(v, i as int),
            n <= i,
            (n == 0) == (forall|k: int| 0 <= k < i ==> (#[trigger] v[k]).severity != GoldenSeverity::Block),
        decreases fs@.len() - i,
    {
        proof {
            assert(v[i as int] == fs@[i as int]@);
        }
        if fs[i].severity == GoldenSeverity::Block {
            n = n + 1;
        }
        i = i + 1;
    }
    n
}

} // verus!
