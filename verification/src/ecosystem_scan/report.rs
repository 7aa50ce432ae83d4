//! The ecosystem-scan report: aggregate counts, the deterministic report id
//! and the evaluator that assembles them.

use vstd::prelude::*;
use vstd::string::*;

use crate::ecosystem_scan::gate::{
    collect_violations, coverage_violations, scan_violations, views, EcosystemScanConfig,
    ScanSeverity, ScanViolation, ScanViolationView,
};
use crate::ecosystem_scan::{
    candidate_at, AdoptionDecision, BenchmarkDelta, ConstraintAxis, ConstraintRationale,
    CrateCandidate, EcosystemScanRecord, UpliftCandidate, ECOSYSTEM_SCAN_SCHEMA_VERSION,
};
use crate::text::{
    content_id, decimal, field, hex_of, insert_sorted_unique, opt_field, push_field,
    push_opt_field, push_str, sha256_hex_of_text, sha256_spec, string_views, strictly_sorted,
    text_short_id, usize_to_string, utf8_of,
};

verus! {

// ── Summary ──────────────────────────────────────────────────────────────

/// Aggregate counts for a scan report.
#[derive(Debug, Clone, PartialEq, Eq)]
pub struct EcosystemScanSummary {
    /// Total records evaluated.
    pub total_records: usize,
    /// Records with at least one blocking violation.
    pub blocked_records: usize,
    /// Total blocking violations.
    pub blocking_violation_count: usize,
    /// Total advisory violations.
    pub advisory_violation_count: usize,
    /// Count of candidates with a missing scan record.
    pub missing_candidate_count: usize,
    /// Adopt decisions.
    pub adopt_count: usize,
    /// Build decisions.
    pub build_count: usize,
    /// Hybrid decisions.
    pub hybrid_count: usize,
    /// Deferred decisions.
    pub deferred_count: usize,
}

/// Number of violations of severity `sev` among the first `n`.
pub open spec fn severity_count(vs: Seq<ScanViolationView>, sev: ScanSeverity, n: int) -> nat
    decreases n,
{
    if n <= 0 {
        0
    } else {
        severity_count(vs, sev, n - 1) + if vs[n - 1].severity == sev {
            1nat
        } else {
            0nat
        }
    }
}

/// Whether some blocking violation names candidate id `id`.
pub open spec fn blocks_id(vs: Seq<ScanViolationView>, id: Seq<char>) -> bool {
    exists|i: int|
        0 <= i < vs.len() && (#[trigger] vs[i]).severity == ScanSeverity::Block && vs[i].candidate_id
            == id
}

/// Number of the first `n` records whose candidate id is blocked.
pub open spec fn blocked_upto(
    recs: Seq<EcosystemScanRecord>,
    vs: Seq<ScanViolationView>,
    n: int,
) -> nat
    decreases n,
{
    if n <= 0 {
        0
    } else {
        blocked_upto(recs, vs, n - 1) + if blocks_id(vs, recs[n - 1].candidate_id@) {
            1nat
        } else {
            0nat
        }
    }
}

/// Number of the first `n` records with decision `d`.
pub open spec fn decision_count(recs: Seq<EcosystemScanRecord>, d: AdoptionDecision, n: int) -> nat
    decreases n,
{
    if n <= 0 {
        0
    } else {
        decision_count(recs, d, n - 1) + if recs[n - 1].decision == d {
            1nat
        } else {
            0nat
        }
    }
}

/// The summary of `recs` with violations `vs` and `missing` uncovered
/// candidates.
pub open spec fn summary_of(
    s: EcosystemScanSummary,
    recs: Seq<EcosystemScanRecord>,
    vs: Seq<ScanViolationView>,
    missing: nat,
) -> bool {
    &&& s.total_records == recs.len()
    &&& s.blocked_records == blocked_upto(recs, vs, recs.len() as int)
    &&& s.blocking_violation_count == severity_count(vs, ScanSeverity::Block, vs.len() as int)
    &&& s.advisory_violation_count == severity_count(vs, ScanSeverity::Warn, vs.len() as int)
    &&& s.missing_candidate_count == missing
    &&& s.adopt_count == decision_count(recs, AdoptionDecision::Adopt, recs.len() as int)
    &&& s.build_count == decision_count(recs, AdoptionDecision::Build, recs.len() as int)
    &&& s.hybrid_count == decision_count(recs, AdoptionDecision::Hybrid, recs.len() as int)
    &&& s.deferred_count == decision_count(recs, AdoptionDecision::Deferred, recs.len() as int)
}

fn blocks_id_exec(violations: &Vec<ScanViolation>, id: &String) -> (b: bool)
    ensures
        b == blocks_id(views(violations@), id@),
{
    let mut i: usize = 0;
    while i < violations.len()
        invariant
            i <= violations@.len(),
            forall|j: int|
                0 <= j < i ==> !((#[trigger] views(violations@)[j]).severity == ScanSeverity::Block
                    && views(violations@)[j].candidate_id == id@),
        decreases violations@.len() - i,
    {
        if violations[i].severity == ScanSeverity::Block && violations[i].candidate_id == *id {
            proof {
                assert(views(violations@)[i as int] == violations@[i as int]@);
            }
            return true;
        }
        proof {
            assert(views(violations@)[i as int] == violations@[i as int]@);
        }
        i = i + 1;
    }
    false
}

/// Count decisions and severities.
fn summarize(
    records: &Vec<EcosystemScanRecord>,
    violations: &Vec<ScanViolation>,
    missing: usize,
) -> (s: EcosystemScanSummary)
    ensures
        summary_of(s, records@, views(violations@), missing as nat),
{
    let ghost vs = views(violations@);
    let mut blocking: usize = 0;
    let mut advisory: usize = 0;
    let mut i: usize = 0;
    while i < violations.len()
        invariant
            i <= violations@.len(),
            vs == views(violations@),
            blocking == severity_count(vs, ScanSeverity::Block, i as int),
            advisory == severity_count(vs, ScanSeverity::Warn, i as int),
            blocking + advisory == i,
        decreases violations@.len() - i,
    {
        proof {
            assert(vs[i as int] == violations@[i as int]@);
        }
        match violations[i].severity {
            ScanSeverity::Block => blocking = blocking + 1,
            ScanSeverity::Warn => advisory = advisory + 1,
        }
        i = i + 1;
    }
    let mut blocked: usize = 0;
    let mut adopt: usize = 0;
    let mut build: usize = 0;
    let mut hybrid: usize = 0;
    let mut deferred: usize = 0;
    let mut j: usize = 0;
    while j < records.len()
        invariant
            j <= records@.len(),
            vs == views(violations@),
            blocked == blocked_upto(records@, vs, j as int),
            blocked <= j,
            adopt == decision_count(records@, AdoptionDecision::Adopt, j as int),
            build == decision_count(records@, AdoptionDecision::Build, j as int),
            hybrid == decision_count(records@, AdoptionDecision::Hybrid, j as int),
            deferred == decision_count(records@, AdoptionDecision::Deferred, j as int),
            adopt + build + hybrid + deferred == j,
        decreases records@.len() - j,
    {
        if blocks_id_exec(violations, &records[j].candidate_id) {
            blocked = blocked + 1;
        }
        match records[j].decision {
            AdoptionDecision::Adopt => adopt = adopt + 1,
            AdoptionDecision::Build => build = build + 1,
            AdoptionDecision::Hybrid => hybrid = hybrid + 1,
            AdoptionDecision::Deferred => deferred = deferred + 1,
        }
        j = j + 1;
    }
    EcosystemScanSummary {
        total_records: records.len(),
        blocked_records: blocked,
        blocking_violation_count: blocking,
        advisory_violation_count: advisory,
        missing_candidate_count: missing,
        adopt_count: adopt,
        build_count: build,
        hybrid_count: hybrid,
        deferred_count: deferred,
    }
}

/// Every record has exactly one decision, so the decision counts add up to
/// the number of records.
pub proof fn lemma_decision_counts_sum(recs: Seq<EcosystemScanRecord>, n: int)
    requires
        0 <= n <= recs.len(),
    ensures
        decision_count(recs, AdoptionDecision::Adopt, n) + decision_count(
            recs,
            AdoptionDecision::Build,
            n,
        ) + decision_count(recs, AdoptionDecision::Hybrid, n) + decision_count(
            recs,
            AdoptionDecision::Deferred,
            n,
        ) == n,
    decreases n,
{
    if n > 0 {
        lemma_decision_counts_sum(recs, n - 1);
    }
}

// ── Report identity ──────────────────────────────────────────────────────

/// Identity text of a benchmark delta.
pub open spec fn delta_identity(d: BenchmarkDelta) -> Seq<char> {
    field(d.metric@) + field(d.summary@) + match d.delta_pct_bits {
        None => "~"@,
        Some(b) => field(decimal(b as nat)),
    }
}

/// Identity text of the first `n` benchmark deltas of a crate.
pub open spec fn deltas_identity(c: CrateCandidate, n: int) -> Seq<char>
    decreases n,
{
    if n <= 0 {
        Seq::empty()
    } else {
        deltas_identity(c, n - 1) + delta_identity(c.benchmark_deltas@[n - 1])
    }
}

/// Identity text of a considered crate.
pub open spec fn crate_identity(c: CrateCandidate) -> Seq<char> {
    field(c.crate_name@) + opt_field(c.considered_version) + opt_field(c.source_url) + field(
        decimal(c.benchmark_deltas@.len()),
    ) + deltas_identity(c, c.benchmark_deltas@.len() as int) + field(c.determinism_risk.tag())
        + field(c.unsafe_policy_fit.tag()) + field(c.license_posture.tag()) + field(
        c.portability.tag(),
    ) + field(c.verdict.tag()) + field(c.rationale@)
}

/// Identity text of the first `n` considered crates of a record.
pub open spec fn crates_identity(r: EcosystemScanRecord, n: int) -> Seq<char>
    decreases n,
{
    if n <= 0 {
        Seq::empty()
    } else {
        crates_identity(r, n - 1) + crate_identity(r.considered_crates@[n - 1])
    }
}

/// Identity text of the first `n` adopted crates of a record.
pub open spec fn adopted_identity(r: EcosystemScanRecord, n: int) -> Seq<char>
    decreases n,
{
    if n <= 0 {
        Seq::empty()
    } else {
        adopted_identity(r, n - 1) + field(r.adopted_crates@[n - 1]@)
    }
}

/// Identity text of a reject rationale.
pub open spec fn rationale_identity(c: ConstraintRationale) -> Seq<char> {
    field(c.axis.tag()) + field(c.rationale@)
}

/// Identity text of the first `n` reject rationales of a record.
pub open spec fn rationales_identity(r: EcosystemScanRecord, n: int) -> Seq<char>
    decreases n,
{
    if n <= 0 {
        Seq::empty()
    } else {
        rationales_identity(r, n - 1) + rationale_identity(r.reject_rationale@[n - 1])
    }
}

/// Identity text of the scalar fields at the head of a record.
pub open spec fn record_head_identity(r: EcosystemScanRecord) -> Seq<char> {
    field(r.candidate.id_spec()) + field(r.candidate_id@) + field(r.tier.tag()) + field(
        r.architecture_stage.tag(),
    ) + field(r.decision.tag()) + field(r.decision_summary@)
}

/// Identity text of the considered crates of a record.
pub open spec fn crates_part(r: EcosystemScanRecord) -> Seq<char> {
    field(decimal(r.considered_crates@.len())) + crates_identity(
        r,
        r.considered_crates@.len() as int,
    )
}

/// Identity text of the adopted crates of a record.
pub open spec fn adopted_part(r: EcosystemScanRecord) -> Seq<char> {
    field(decimal(r.adopted_crates@.len())) + adopted_identity(r, r.adopted_crates@.len() as int)
}

/// Identity text of the reject rationales of a record.
pub open spec fn rationales_part(r: EcosystemScanRecord) -> Seq<char> {
    field(decimal(r.reject_rationale@.len())) + rationales_identity(
        r,
        r.reject_rationale@.len() as int,
    )
}

/// Identity text of a record: every field, each self-delimiting.
pub open spec fn record_identity(r: EcosystemScanRecord) -> Seq<char> {
    record_head_identity(r) + crates_part(r) + opt_field(r.none_found_statement) + adopted_part(r)
        + rationales_part(r) + opt_field(r.fallback_plan) + opt_field(r.in_tree_module)
}

/// Identity text of the first `n` records.
pub open spec fn records_identity(recs: Seq<EcosystemScanRecord>, n: int) -> Seq<char>
    decreases n,
{
    if n <= 0 {
        Seq::empty()
    } else {
        records_identity(recs, n - 1) + record_identity(recs[n - 1])
    }
}

/// Identity text of the first `n` required axes.
pub open spec fn axes_identity(cfg: EcosystemScanConfig, n: int) -> Seq<char>
    decreases n,
{
    if n <= 0 {
        Seq::empty()
    } else {
        axes_identity(cfg, n - 1) + field(cfg.required_constraint_axes@[n - 1].tag())
    }
}

/// A flag as one character.
pub open spec fn flag(b: bool) -> Seq<char> {
    if b {
        "1"@
    } else {
        "0"@
    }
}

/// Identity text of a gate configuration.
pub open spec fn config_identity(cfg: EcosystemScanConfig) -> Seq<char> {
    field(decimal(cfg.required_constraint_axes@.len())) + axes_identity(
        cfg,
        cfg.required_constraint_axes@.len() as int,
    ) + flag(cfg.require_full_candidate_coverage) + flag(cfg.require_fallback_for_non_adopt)
        + flag(cfg.require_in_tree_module_for_build) + flag(cfg.forbid_unsafe_adoption) + field(
        cfg.max_adopted_determinism_risk.tag(),
    )
}

/// The identity text the report id hashes: the configuration, then the
/// records in input order.
pub open spec fn scan_identity(cfg: EcosystemScanConfig, recs: Seq<EcosystemScanRecord>) -> Seq<
    char,
> {
    config_identity(cfg) + field(decimal(recs.len())) + records_identity(recs, recs.len() as int)
}

/// The deterministic report id for a configuration and records.
pub open spec fn scan_report_id(cfg: EcosystemScanConfig, recs: Seq<EcosystemScanRecord>) -> Seq<
    char,
> {
    "ecosystem-scan-"@ + content_id(utf8_of(scan_identity(cfg, recs)))
}

fn push_flag(out: &mut String, b: bool)
    ensures
        final(out)@ == old(out)@ + flag(b),
{
    if b {
        push_str(out, "1");
    } else {
        push_str(out, "0");
    }
}

fn push_count(out: &mut String, n: usize)
    ensures
        final(out)@ == old(out)@ + field(decimal(n as nat)),
{
    let text = usize_to_string(n);
    push_field(out, text.as_str());
}

fn push_delta(out: &mut String, d: &BenchmarkDelta)
    ensures
        final(out)@ == old(out)@ + delta_identity(*d),
{
    let ghost start = out@;
    push_field(out, d.metric.as_str());
    push_field(out, d.summary.as_str());
    match d.delta_pct_bits {
        None => push_str(out, "~"),
        Some(b) => {
            let text = crate::text::u64_to_string(b);
            push_field(out, text.as_str());
        },
    }
    proof {
        assert(out@ =~= start + delta_identity(*d));
    }
}

fn push_crate(out: &mut String, c: &CrateCandidate)
    ensures
        final(out)@ == old(out)@ + crate_identity(*c),
{
    let ghost start = out@;
    push_field(out, c.crate_name.as_str());
    push_opt_field(out, &c.considered_version);
    push_opt_field(out, &c.source_url);
    push_count(out, c.benchmark_deltas.len());
    let ghost before = out@;
    let mut i: usize = 0;
    proof {
        assert(out@ =~= before + deltas_identity(*c, 0));
    }
    while i < c.benchmark_deltas.len()
        invariant
            i <= c.benchmark_deltas@.len(),
            out@ == before + deltas_identity(*c, i as int),
        decreases c.benchmark_deltas@.len() - i,
    {
        push_delta(out, &c.benchmark_deltas[i]);
        proof {
            assert(out@ =~= before + deltas_identity(*c, i as int + 1));
        }
        i = i + 1;
    }
    push_field(out, c.determinism_risk.as_str());
    push_field(out, c.unsafe_policy_fit.as_str());
    push_field(out, c.license_posture.as_str());
    push_field(out, c.portability.as_str());
    push_field(out, c.verdict.as_str());
    push_field(out, c.rationale.as_str());
    proof {
        assert(out@ =~= start + crate_identity(*c));
    }
}

fn push_record_head(out: &mut String, r: &EcosystemScanRecord)
    ensures
        final(out)@ == old(out)@ + record_head_identity(*r),
{
    let ghost start = out@;
    push_field(out, r.candidate.candidate_id());
    push_field(out, r.candidate_id.as_str());
    push_field(out, r.tier.as_str());
    push_field(out, r.architecture_stage.as_str());
    push_field(out, r.decision.as_str());
    push_field(out, r.decision_summary.as_str());
    proof {
        assert(out@ =~= start + record_head_identity(*r));
    }
}

fn push_crates(out: &mut String, r: &EcosystemScanRecord)
    ensures
        final(out)@ == old(out)@ + crates_part(*r),
{
    let ghost start = out@;
    push_count(out, r.considered_crates.len());
    let ghost b1 = out@;
    let mut i: usize = 0;
    proof {
        assert(out@ =~= b1 + crates_identity(*r, 0));
    }
    while i < r.considered_crates.len()
        invariant
            i <= r.considered_crates@.len(),
            out@ == b1 + crates_identity(*r, i as int),
        decreases r.considered_crates@.len() - i,
    {
        push_crate(out, &r.considered_crates[i]);
        proof {
            assert(out@ =~= b1 + crates_identity(*r, i as int + 1));
        }
        i = i + 1;
    }
    proof {
        assert(out@ =~= start + crates_part(*r));
    }
}

fn push_adopted(out: &mut String, r: &EcosystemScanRecord)
    ensures
        final(out)@ == old(out)@ + adopted_part(*r),
{
    let ghost start = out@;
    push_count(out, r.adopted_crates.len());
    let ghost b2 = out@;
    let mut j: usize = 0;
    proof {
        assert(out@ =~= b2 + adopted_identity(*r, 0));
    }
    while j < r.adopted_crates.len()
        invariant
            j <= r.adopted_crates@.len(),
            out@ == b2 + adopted_identity(*r, j as int),
        decreases r.adopted_crates@.len() - j,
    {
        push_field(out, r.adopted_crates[j].as_str());
        proof {
            assert(out@ =~= b2 + adopted_identity(*r, j as int + 1));
        }
        j = j + 1;
    }
    proof {
        assert(out@ =~= start + adopted_part(*r));
    }
}

fn push_rationales(out: &mut String, r: &EcosystemScanRecord)
    ensures
        final(out)@ == old(out)@ + rationales_part(*r),
{
    let ghost start = out@;
    push_count(out, r.reject_rationale.len());
    let ghost b3 = out@;
    let mut k: usize = 0;
    proof {
        assert(out@ =~= b3 + rationales_identity(*r, 0));
    }
    while k < r.reject_rationale.len()
        invariant
            k <= r.reject_rationale@.len(),
            out@ == b3 + rationales_identity(*r, k as int),
        decreases r.reject_rationale@.len() - k,
    {
        let rat = &r.reject_rationale[k];
        push_field(out, rat.axis.as_str());
        push_field(out, rat.rationale.as_str());
        proof {
            assert(out@ =~= b3 + rationales_identity(*r, k as int + 1));
        }
        k = k + 1;
    }
    proof {
        assert(out@ =~= start + rationales_part(*r));
    }
}

proof fn lemma_concat7<A>(
    v0: Seq<A>,
    a: Seq<A>,
    b: Seq<A>,
    c: Seq<A>,
    d: Seq<A>,
    e: Seq<A>,
    f: Seq<A>,
    g: Seq<A>,
)
    ensures
        v0 + a + b + c + d + e + f + g == v0 + (a + b + c + d + e + f + g),
{
    assert(v0 + a + b + c + d + e + f + g =~= v0 + (a + b + c + d + e + f + g));
}

fn push_record(out: &mut String, r: &EcosystemScanRecord)
    ensures
        final(out)@ == old(out)@ + record_identity(*r),
{
    let ghost start = out@;
    push_record_head(out, r);
    push_crates(out, r);
    push_opt_field(out, &r.none_found_statement);
    push_adopted(out, r);
    push_rationales(out, r);
    push_opt_field(out, &r.fallback_plan);
    push_opt_field(out, &r.in_tree_module);
    proof {
        lemma_concat7(
            start,
            record_head_identity(*r),
            crates_part(*r),
            opt_field(r.none_found_statement),
            adopted_part(*r),
            rationales_part(*r),
            opt_field(r.fallback_plan),
            opt_field(r.in_tree_module),
        );
    }
}

/// The identity text of a configuration and its records.
fn identity_text(cfg: &EcosystemScanConfig, records: &Vec<EcosystemScanRecord>) -> (s: String)
    ensures
        s@ == scan_identity(*cfg, records@),
{
    let mut out = String::new();
    push_count(&mut out, cfg.required_constraint_axes.len());
    let ghost b0 = out@;
    let mut a: usize = 0;
    proof {
        assert(out@ =~= b0 + axes_identity(*cfg, 0));
    }
    while a < cfg.required_constraint_axes.len()
        invariant
            a <= cfg.required_constraint_axes@.len(),
            out@ == b0 + axes_identity(*cfg, a as int),
        decreases cfg.required_constraint_axes@.len() - a,
    {
        push_field(&mut out, cfg.required_constraint_axes[a].as_str());
        proof {
            assert(out@ =~= b0 + axes_identity(*cfg, a as int + 1));
        }
        a = a + 1;
    }
    push_flag(&mut out, cfg.require_full_candidate_coverage);
    push_flag(&mut out, cfg.require_fallback_for_non_adopt);
    push_flag(&mut out, cfg.require_in_tree_module_for_build);
    push_flag(&mut out, cfg.forbid_unsafe_adoption);
    push_field(&mut out, cfg.max_adopted_determinism_risk.as_str());
    proof {
        assert(out@ =~= config_identity(*cfg));
    }
    push_count(&mut out, records.len());
    let ghost b1 = out@;
    let mut i: usize = 0;
    proof {
        assert(out@ =~= b1 + records_identity(records@, 0));
    }
    while i < records.len()
        invariant
            i <= records@.len(),
            out@ == b1 + records_identity(records@, i as int),
        decreases records@.len() - i,
    {
        push_record(&mut out, &records[i]);
        proof {
            assert(out@ =~= b1 + records_identity(records@, i as int + 1));
        }
        i = i + 1;
    }
    proof {
        assert(out@ =~= scan_identity(*cfg, records@));
    }
    out
}

/// The deterministic report id for a configuration and its records.
pub fn report_id_for(cfg: &EcosystemScanConfig, records: &Vec<EcosystemScanRecord>) -> (id: String)
    ensures
        id@ == scan_report_id(*cfg, records@),
{
    let identity = identity_text(cfg, records);
    let short = text_short_id(identity.as_str());
    crate::text::cat("ecosystem-scan-", short.as_str())
}

// ── Report ───────────────────────────────────────────────────────────────

/// Deterministic JSON-stats artifact (content + checksum).
#[derive(Debug, Clone, PartialEq, Eq)]
pub struct EcosystemScanJsonStatsArtifact {
    /// Suggested relative output path.
    pub path: String,
    /// SHA-256 of `content`.
    pub sha256: String,
    /// Serialized JSON content.
    pub content: String,
}

/// The checksum law of a stats artifact: `sha256` is the lowercase hex
/// SHA-256 of the UTF-8 bytes of `content`.
pub open spec fn artifact_consistent(a: EcosystemScanJsonStatsArtifact) -> bool {
    a.sha256@ == hex_of(sha256_spec(utf8_of(a.content@)))
}

/// Full ecosystem-scan report.
#[derive(Debug, Clone, PartialEq)]
pub struct EcosystemScanReport {
    /// Schema version constant.
    pub schema_version: String,
    /// Deterministic report id.
    pub report_id: String,
    /// Configuration used.
    pub config: EcosystemScanConfig,
    /// Scan records (input order preserved).
    pub records: Vec<EcosystemScanRecord>,
    /// Violations found (coverage + per-record).
    pub violations: Vec<ScanViolation>,
    /// Aggregate summary.
    pub summary: EcosystemScanSummary,
    /// Whether every candidate is covered by a record.
    pub coverage_complete: bool,
    /// Whether the scan gate passes (no blocking violations).
    pub scan_gate_passes: bool,
    /// Candidate ids blocked by the scan.
    pub blocked_candidate_ids: Vec<String>,
    /// Deterministic JSON-stats artifact.
    pub exported_json_stats: EcosystemScanJsonStatsArtifact,
    /// Replay command for the report.
    pub replay_command: String,
}

/// The remediation clauses of the blocking violations among the first `n`.
pub open spec fn remediations_upto(vs: Seq<ScanViolationView>, n: int) -> Seq<Seq<char>>
    decreases n,
{
    if n <= 0 {
        Seq::empty()
    } else {
        remediations_upto(vs, n - 1) + if vs[n - 1].severity == ScanSeverity::Block {
            seq![vs[n - 1].remediation]
        } else {
            Seq::empty()
        }
    }
}

/// Whether no violation in `vs` is blocking.
pub open spec fn no_blocking(vs: Seq<ScanViolationView>) -> bool {
    forall|i: int| 0 <= i < vs.len() ==> (#[trigger] vs[i]).severity != ScanSeverity::Block
}

impl EcosystemScanReport {
    /// Every blocking remediation clause, in report order.
    pub fn blocking_remediations(&self) -> (out: Vec<String>)
        ensures
            string_views(out@) == remediations_upto(
                views(self.violations@),
                self.violations@.len() as int,
            ),
    {
        let ghost vs = views(self.violations@);
        let mut out: Vec<String> = Vec::new();
        let mut i: usize = 0;
        proof {
            assert(string_views(out@) =~= remediations_upto(vs, 0));
        }
        while i < self.violations.len()
            invariant
                i <= self.violations@.len(),
                vs == views(self.violations@),
                string_views(out@) == remediations_upto(vs, i as int),
            decreases self.violations@.len() - i,
        {
            proof {
                assert(vs[i as int] == self.violations@[i as int]@);
            }
            if self.violations[i].severity == ScanSeverity::Block {
                out.push(self.violations[i].remediation.clone());
            }
            proof {
                assert(string_views(out@) =~= remediations_upto(vs, i as int + 1));
            }
            i = i + 1;
        }
        out
    }

    /// Candidates with no scan record (empty when coverage is complete).
    pub fn missing_candidates(&self) -> (out: Vec<UpliftCandidate>)
        ensures
            forall|c: UpliftCandidate| #[trigger] out@.contains(c) <==> !crate::ecosystem_scan::gate::has_record(
                self.records@,
                c,
            ),
            forall|i: int, j: int| 0 <= i < j < out@.len() ==> (#[trigger] out@[i]).index() < (#[trigger] out@[j]).index(),
    {
        let all = UpliftCandidate::all();
        let mut out: Vec<UpliftCandidate> = Vec::new();
        let mut k: usize = 0;
        while k < 8
            invariant
                k <= 8,
                all@.len() == 8,
                forall|m: int| 0 <= m < 8 ==> #[trigger] all@[m] == candidate_at(m),
                forall|c: UpliftCandidate| #[trigger] out@.contains(c) <==> (c.index() < k
                    && !crate::ecosystem_scan::gate::has_record(self.records@, c)),
                forall|i: int| 0 <= i < out@.len() ==> (#[trigger] out@[i]).index() < k,
                forall|i: int, j: int| 0 <= i < j < out@.len() ==> (#[trigger] out@[i]).index() < (#[trigger] out@[j]).index(),
            decreases 8 - k,
        {
            let c = all[k];
            assert(c.index() == k);
            let mut found = false;
            let mut i: usize = 0;
            while i < self.records.len()
                invariant
                    i <= self.records@.len(),
                    found <==> exists|j: int| 0 <= j < i && (#[trigger] self.records@[j]).candidate == c,
                decreases self.records@.len() - i,
            {
                if self.records[i].candidate == c {
                    found = true;
                }
                i = i + 1;
            }
            let ghost before = out@;
            if !found {
                out.push(c);
            }
            proof {
                assert forall|x: UpliftCandidate| #[trigger] out@.contains(x) <==> (x.index() < k + 1
                    && !crate::ecosystem_scan::gate::has_record(self.records@, x)) by {
                    if out@.contains(x) {
                        let i = choose|i: int| 0 <= i < out@.len() && out@[i] == x;
                        if i < before.len() {
                            assert(before.contains(x));
                        }
                    }
                    if x.index() < k + 1 && !crate::ecosystem_scan::gate::has_record(self.records@, x) {
                        if x.index() < k {
                            assert(before.contains(x));
                            let i = choose|i: int| 0 <= i < before.len() && before[i] == x;
                            assert(out@[i] == x);
                        } else {
                            assert(x == c);
                            assert(out@[before.len() as int] == x);
                        }
                    }
                }
            }
            k = k + 1;
        }
        out
    }

    /// Whether this report can back the `Ecosystem` quality artifact: only
    /// when coverage is complete and the scan passes.
    pub fn serves_quality_artifact(&self) -> (b: bool)
        ensures
            b == (self.coverage_complete && self.scan_gate_passes),
    {
        self.coverage_complete && self.scan_gate_passes
    }

    /// Attach rendered stats content, keeping the checksum consistent.
    pub fn with_json_stats(self, content: String) -> (r: EcosystemScanReport)
        ensures
            r == (EcosystemScanReport { exported_json_stats: r.exported_json_stats, ..self }),
            r.exported_json_stats.path == self.exported_json_stats.path,
            r.exported_json_stats.content@ == content@,
            artifact_consistent(r.exported_json_stats),
    {
        let sha = sha256_hex_of_text(content.as_str());
        let mut r = self;
        r.exported_json_stats.sha256 = sha;
        r.exported_json_stats.content = content;
        r
    }
}

// ── Gate ─────────────────────────────────────────────────────────────────

/// Validates scan records against the ecosystem-scan governance policy.
#[derive(Debug, Clone)]
pub struct EcosystemScanGate {
    config: EcosystemScanConfig,
}

impl Default for EcosystemScanGate {
    /// A gate with the default configuration.
    fn default() -> (g: Self)
        ensures
            g.config_view().required_constraint_axes@.len() == 5,
            forall|k: int| 0 <= k < 5 ==> #[trigger] g.config_view().required_constraint_axes@[k]
                == crate::ecosystem_scan::axis_at(k),
            g.config_view().require_full_candidate_coverage,
            g.config_view().require_fallback_for_non_adopt,
            g.config_view().require_in_tree_module_for_build,
            g.config_view().forbid_unsafe_adoption,
            g.config_view().max_adopted_determinism_risk
                == crate::ecosystem_scan::DeterminismRisk::Low,
    {
        EcosystemScanGate { config: EcosystemScanConfig::default() }
    }
}

/// A field-by-field copy of a configuration.
fn copy_config(c: &EcosystemScanConfig) -> (out: EcosystemScanConfig)
    ensures
        same_config(out, *c),
{
    let mut axes: Vec<ConstraintAxis> = Vec::new();
    let mut i: usize = 0;
    while i < c.required_constraint_axes.len()
        invariant
            i <= c.required_constraint_axes@.len(),
            axes@ == c.required_constraint_axes@.take(i as int),
        decreases c.required_constraint_axes@.len() - i,
    {
        axes.push(c.required_constraint_axes[i]);
        proof {
            assert(c.required_constraint_axes@.take(i as int + 1) =~= c.required_constraint_axes@.take(
                i as int,
            ).push(c.required_constraint_axes@[i as int]));
        }
        i = i + 1;
    }
    proof {
        assert(c.required_constraint_axes@.take(i as int) =~= c.required_constraint_axes@);
    }
    EcosystemScanConfig {
        required_constraint_axes: axes,
        require_full_candidate_coverage: c.require_full_candidate_coverage,
        require_fallback_for_non_adopt: c.require_fallback_for_non_adopt,
        require_in_tree_module_for_build: c.require_in_tree_module_for_build,
        forbid_unsafe_adoption: c.forbid_unsafe_adoption,
        max_adopted_determinism_risk: c.max_adopted_determinism_risk,
    }
}

/// Two configurations that hold the same settings.
pub open spec fn same_config(a: EcosystemScanConfig, b: EcosystemScanConfig) -> bool {
    &&& a.required_constraint_axes@ == b.required_constraint_axes@
    &&& a.require_full_candidate_coverage == b.require_full_candidate_coverage
    &&& a.require_fallback_for_non_adopt == b.require_fallback_for_non_adopt
    &&& a.require_in_tree_module_for_build == b.require_in_tree_module_for_build
    &&& a.forbid_unsafe_adoption == b.forbid_unsafe_adoption
    &&& a.max_adopted_determinism_risk == b.max_adopted_determinism_risk
}

/// The replay command of a report.
pub open spec fn replay_spec(cfg: EcosystemScanConfig, report_id: Seq<char>) -> Seq<char> {
    "doctor_frankentui ecosystem-scan --report-id "@ + report_id + " --required-axes "@ + decimal(
        cfg.required_constraint_axes@.len(),
    ) + " --max-adopted-determinism-risk "@ + cfg.max_adopted_determinism_risk.tag()
}

impl EcosystemScanGate {
    /// The evaluator's configuration.
    pub closed spec fn config_view(&self) -> EcosystemScanConfig {
        self.config
    }

    /// Build a gate from configuration.
    pub fn new(config: EcosystemScanConfig) -> (g: Self)
        ensures
            g.config_view() == config,
    {
        EcosystemScanGate { config }
    }

    /// Borrow the configuration.
    pub fn config(&self) -> (c: &EcosystemScanConfig)
        ensures
            *c == self.config_view(),
    {
        &self.config
    }

    /// Evaluate scan records and produce a deterministic report.
    pub fn evaluate(&self, records: Vec<EcosystemScanRecord>) -> (r: EcosystemScanReport)
        ensures
            r.schema_version@ == ECOSYSTEM_SCAN_SCHEMA_VERSION@,
            r.report_id@ == scan_report_id(self.config_view(), records@),
            same_config(r.config, self.config_view()),
            r.records@ == records@,
            views(r.violations@) == scan_violations(self.config_view(), records@),
            summary_of(
                r.summary,
                records@,
                views(r.violations@),
                coverage_violations(self.config_view(), records@).len(),
            ),
            r.coverage_complete == (coverage_violations(self.config_view(), records@).len() == 0),
            r.scan_gate_passes == no_blocking(views(r.violations@)),
            strictly_sorted(string_views(r.blocked_candidate_ids@)),
            forall|id: Seq<char>| #[trigger] string_views(r.blocked_candidate_ids@).contains(id)
                <==> blocks_id(views(r.violations@), id),
            r.exported_json_stats.path@ == r.report_id@ + "/ecosystem_scan_stats.json"@,
            r.exported_json_stats.content@.len() == 0,
            artifact_consistent(r.exported_json_stats),
            r.replay_command@ == replay_spec(self.config_view(), r.report_id@),
    {
        let (violations, missing) = collect_violations(&self.config, &records);
        let ghost vs = views(violations@);
        let summary = summarize(&records, &violations, missing);
        let coverage_complete = missing == 0;
        let mut passes = true;
        let mut blocked: Vec<String> = Vec::new();
        let mut i: usize = 0;
        while i < violations.len()
            invariant
                i <= violations@.len(),
                vs == views(violations@),
                passes == (forall|j: int| 0 <= j < i ==> (#[trigger] vs[j]).severity != ScanSeverity::Block),
                strictly_sorted(string_views(blocked@)),
                forall|id: Seq<char>| #[trigger] string_views(blocked@).contains(id) <==> exists|j: int|
                    0 <= j < i && (#[trigger] vs[j]).severity == ScanSeverity::Block && vs[j].candidate_id == id,
            decreases violations@.len() - i,
        {
            proof {
                assert(vs[i as int] == violations@[i as int]@);
            }
            if violations[i].severity == ScanSeverity::Block {
                passes = false;
                insert_sorted_unique(&mut blocked, violations[i].candidate_id.clone());
            }
            proof {
                assert forall|id: Seq<char>| #[trigger] string_views(blocked@).contains(id) <==> exists|j: int|
                    0 <= j < i + 1 && (#[trigger] vs[j]).severity == ScanSeverity::Block && vs[j].candidate_id == id by {
                    if exists|j: int| 0 <= j < i + 1 && (#[trigger] vs[j]).severity == ScanSeverity::Block && vs[j].candidate_id == id {
                        let j = choose|j: int| 0 <= j < i + 1 && (#[trigger] vs[j]).severity == ScanSeverity::Block && vs[j].candidate_id == id;
                        if j < i {
                            assert(exists|j: int| 0 <= j < i && (#[trigger] vs[j]).severity == ScanSeverity::Block && vs[j].candidate_id == id);
                        }
                    }
                }
            }
            i = i + 1;
        }
        let report_id = report_id_for(&self.config, &records);
        let path = crate::text::cat(report_id.as_str(), "/ecosystem_scan_stats.json");
        let content = String::new();
        let sha = sha256_hex_of_text(content.as_str());
        let exported_json_stats = EcosystemScanJsonStatsArtifact { path, sha256: sha, content };
        let replay = crate::text::cat3(
            "doctor_frankentui ecosystem-scan --report-id ",
            report_id.as_str(),
            " --required-axes ",
        );
        let axes_count = usize_to_string(self.config.required_constraint_axes.len());
        let replay = replay.concat(axes_count.as_str());
        let replay = replay.concat(" --max-adopted-determinism-risk ");
        let replay = replay.concat(self.config.max_adopted_determinism_risk.as_str());
        EcosystemScanReport {
            schema_version: String::from_str(ECOSYSTEM_SCAN_SCHEMA_VERSION),
            report_id,
            config: copy_config(&self.config),
            records,
            violations,
            summary,
            coverage_complete,
            scan_gate_passes: passes,
            blocked_candidate_ids: blocked,
            exported_json_stats,
            replay_command: replay,
        }
    }
}

} // verus!
