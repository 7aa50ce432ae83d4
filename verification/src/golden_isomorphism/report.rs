//! The golden-isomorphism report and the oracle that assembles it from a
//! compiled proof: findings, summary, the deterministic oracle id and
//! evidence checksum, and the JSON-stats artifact.

use vstd::prelude::*;
use vstd::string::*;

use crate::golden_isomorphism::gate::{
    all_coverage_findings, block_count, count_blocking, exception_findings, finding_views,
    gate_findings, no_blocking, push_coverage_findings, push_exception_findings,
    push_verdict_findings, sorted_difference, summary_of, verdict_findings, GoldenFinding,
    GoldenFindingView, GoldenIsomorphismConfig, GoldenIsomorphismSummary, GoldenSeverity,
};
use crate::golden_isomorphism::{IsomorphismProof, OptimizationChange, GOLDEN_ISOMORPHISM_SCHEMA_VERSION};
use crate::text::{
    cat, cat3, content_id, field, hex_of, push_field, sha256_hex_of_text, sha256_spec,
    string_views, text_short_id, utf8_of,
};

verus! {

// ── Evidence checksum and oracle id ──────────────────────────────────────

/// The self-delimiting text of one finding: each of its fields in order.
pub open spec fn finding_text(f: GoldenFindingView) -> Seq<char> {
    field(f.code.tag()) + field(f.severity.tag()) + field(f.change_id) + field(f.proof_id) + field(
        f.fixture_id,
    ) + field(f.checksum_verdict) + field(f.detail) + field(f.remediation) + field(f.replay_command)
}

/// The text of the first `n` findings, one after another.
pub open spec fn findings_text(fs: Seq<GoldenFindingView>, n: int) -> Seq<char>
    decreases n,
{
    if n <= 0 {
        Seq::empty()
    } else {
        findings_text(fs, n - 1) + finding_text(fs[n - 1])
    }
}

/// The evidence checksum: hex SHA-256 of the UTF-8 text of every finding.
pub open spec fn evidence_checksum_spec(fs: Seq<GoldenFindingView>) -> Seq<char> {
    hex_of(sha256_spec(utf8_of(findings_text(fs, fs.len() as int))))
}

/// The identity the oracle id is derived from.
pub open spec fn oracle_identity(change_id: Seq<char>, proof_id: Seq<char>, evidence: Seq<char>) -> Seq<char> {
    field(GOLDEN_ISOMORPHISM_SCHEMA_VERSION@) + field(change_id) + field(proof_id) + field(evidence)
}

/// The deterministic oracle id of a report.
pub open spec fn oracle_id_spec(change_id: Seq<char>, proof_id: Seq<char>, evidence: Seq<char>) -> Seq<char> {
    "golden-isomorphism-"@ + content_id(utf8_of(oracle_identity(change_id, proof_id, evidence)))
}

/// Append the text of one finding.
fn push_finding_text(out: &mut String, f: &GoldenFinding)
    ensures
        final(out)@ == old(out)@ + finding_text(f@),
{
    let mut t = String::new();
    push_field(&mut t, f.code.as_str());
    proof {
        assert(t@ =~= field(f.code.tag()));
    }
    push_field(&mut t, f.severity.as_str());
    push_field(&mut t, f.change_id.as_str());
    push_field(&mut t, f.proof_id.as_str());
    push_field(&mut t, f.fixture_id.as_str());
    push_field(&mut t, f.checksum_verdict.as_str());
    push_field(&mut t, f.detail.as_str());
    push_field(&mut t, f.remediation.as_str());
    push_field(&mut t, f.replay_command.as_str());
    out.append(t.as_str());
}

/// The evidence checksum of a list of findings.
fn evidence_checksum_of(fs: &Vec<GoldenFinding>) -> (s: String)
    ensures
        s@ == evidence_checksum_spec(finding_views(fs@)),
{
    let ghost v = finding_views(fs@);
    let mut text = String::new();
    let mut i: usize = 0;
    while i < fs.len()
        invariant
            i <= fs@.len(),
            v == finding_views(fs@),
            text@ == findings_text(v, i as int),
        decreases fs@.len() - i,
    {
        proof {
            assert(v[i as int] == fs@[i as int]@);
        }
        push_finding_text(&mut text, &fs[i]);
        i = i + 1;
    }
    sha256_hex_of_text(text.as_str())
}

/// The oracle id for a change, proof and evidence checksum.
fn oracle_id_for(change_id: &str, proof_id: &str, evidence: &str) -> (s: String)
    ensures
        s@ == oracle_id_spec(change_id@, proof_id@, evidence@),
{
    let mut identity = String::new();
    push_field(&mut identity, GOLDEN_ISOMORPHISM_SCHEMA_VERSION);
    proof {
        assert(identity@ =~= field(GOLDEN_ISOMORPHISM_SCHEMA_VERSION@));
    }
    push_field(&mut identity, change_id);
    push_field(&mut identity, proof_id);
    push_field(&mut identity, evidence);
    let short = text_short_id(identity.as_str());
    cat("golden-isomorphism-", short.as_str())
}

// ── Report ───────────────────────────────────────────────────────────────

/// Deterministic JSON-stats artifact (content + checksum).
#[derive(Debug, Clone, PartialEq, Eq)]
pub struct GoldenJsonStatsArtifact {
    /// Suggested relative output path.
    pub path: String,
    /// SHA-256 of `content`.
    pub sha256: String,
    /// Serialized JSON content.
    pub content: String,
}

/// The checksum law of a stats artifact: `sha256` is the lowercase hex
/// SHA-256 of the UTF-8 bytes of `content`.
pub open spec fn artifact_consistent(a: GoldenJsonStatsArtifact) -> bool {
    a.sha256@ == hex_of(sha256_spec(utf8_of(a.content@)))
}

/// The full golden-isomorphism verification report.
#[derive(Debug, Clone, PartialEq)]
pub struct GoldenIsomorphismReport {
    /// Schema version constant.
    pub schema_version: String,
    /// Deterministic oracle/report identifier.
    pub oracle_id: String,
    /// The configuration that produced this report.
    pub config: GoldenIsomorphismConfig,
    /// The change under evaluation.
    pub change_id: String,
    /// The compiled isomorphism proof.
    pub isomorphism_proof: IsomorphismProof,
    /// Gate findings, in stable order.
    pub findings: Vec<GoldenFinding>,
    /// Aggregate summary.
    pub summary: GoldenIsomorphismSummary,
    /// Whether the optimization may be promoted.
    pub promotion_allowed: bool,
    /// Deterministic JSON-stats artifact.
    pub exported_json_stats: GoldenJsonStatsArtifact,
    /// Replay command for the whole report.
    pub replay_command: String,
    /// SHA-256 fingerprint of the findings.
    pub evidence_checksum: String,
}

/// The blocking findings among the first `n`, in order.
pub open spec fn blocking_upto(fs: Seq<GoldenFindingView>, n: int) -> Seq<GoldenFindingView>
    decreases n,
{
    if n <= 0 {
        Seq::empty()
    } else {
        blocking_upto(fs, n - 1) + if fs[n - 1].severity == GoldenSeverity::Block {
            seq![fs[n - 1]]
        } else {
            Seq::empty()
        }
    }
}

impl GoldenIsomorphismReport {
    /// All blocking findings, in stable order.
    pub fn blocking(&self) -> (out: Vec<&GoldenFinding>)
        ensures
            out@.map_values(|f: &GoldenFinding| f@) == blocking_upto(
                finding_views(self.findings@),
                self.findings@.len() as int,
            ),
    {
        let ghost v = finding_views(self.findings@);
        let mut out: Vec<&GoldenFinding> = Vec::new();
        let mut i: usize = 0;
        proof {
            assert(out@.map_values(|f: &GoldenFinding| f@) =~= blocking_upto(v, 0));
        }
        while i < self.findings.len()
            invariant
                i <= self.findings@.len(),
                v == finding_views(self.findings@),
                out@.map_values(|f: &GoldenFinding| f@) == blocking_upto(v, i as int),
            decreases self.findings@.len() - i,
        {
            proof {
                assert(v[i as int] == self.findings@[i as int]@);
            }
            let ghost before = out@;
            if self.findings[i].severity == GoldenSeverity::Block {
                out.push(&self.findings[i]);
            }
            proof {
                assert(out@.map_values(|f: &GoldenFinding| f@) =~= blocking_upto(v, i as int + 1));
            }
            i = i + 1;
        }
        out
    }

    /// Attach rendered stats content, keeping the checksum consistent.
    pub fn with_json_stats(self, content: String) -> (r: GoldenIsomorphismReport)
        ensures
            r == (GoldenIsomorphismReport { exported_json_stats: r.exported_json_stats, ..self }),
            r.exported_json_stats.path == self.exported_json_stats.path,
            r.exported_json_stats.content@ == content@,
            artifact_consistent(r.exported_json_stats),
    {
        let sha = sha256_hex_of_text(content.as_str());
        let mut r = self;
        r.exported_json_stats.sha256 = sha;
        r.exported_json_stats.content = content;
        r
    }
}

// ── Gate ─────────────────────────────────────────────────────────────────

/// The golden-output checksum oracle + isomorphism verification gate.
#[derive(Debug, Clone)]
pub struct GoldenIsomorphismGate {
    config: GoldenIsomorphismConfig,
}

impl Default for GoldenIsomorphismGate {
    /// A gate with every check enabled.
    fn default() -> (g: Self)
        ensures
            g.config_view().allow_policy_exceptions,
            g.config_view().require_exception_evidence,
            g.config_view().require_full_fixture_coverage,
    {
        GoldenIsomorphismGate { config: GoldenIsomorphismConfig::default() }
    }
}

/// The replay command of a report.
pub open spec fn report_replay_spec(oracle_id: Seq<char>, change_id: Seq<char>) -> Seq<char> {
    "doctor_frankentui golden-isomorphism-verify --oracle-id "@ + oracle_id + " --change "@
        + change_id
}

impl GoldenIsomorphismGate {
    /// The oracle's configuration.
    pub closed spec fn config_view(&self) -> GoldenIsomorphismConfig {
        self.config
    }

    /// Build a gate from configuration.
    pub fn new(config: GoldenIsomorphismConfig) -> (g: Self)
        ensures
            g.config_view() == config,
    {
        GoldenIsomorphismGate { config }
    }

    /// Borrow the configuration.
    pub fn config(&self) -> (c: &GoldenIsomorphismConfig)
        ensures
            *c == self.config_view(),
    {
        &self.config
    }

    /// Turn a compiled isomorphism proof into a deterministic promotion
    /// decision. `golden_ids` and `candidate_ids` are the fixture ids of the
    /// golden and candidate outputs the proof was compiled from.
    pub fn verify_proof(
        &self,
        change: &OptimizationChange,
        golden_ids: &Vec<String>,
        candidate_ids: &Vec<String>,
        iso: IsomorphismProof,
    ) -> (r: GoldenIsomorphismReport)
        ensures
            r.schema_version@ == GOLDEN_ISOMORPHISM_SCHEMA_VERSION@,
            r.config == self.config_view(),
            r.change_id@ == change.change_id@,
            r.isomorphism_proof == iso,
            finding_views(r.findings@) == gate_findings(
                self.config_view(),
                *change,
                string_views(golden_ids@),
                string_views(candidate_ids@),
                iso,
            ),
            summary_of(
                r.summary,
                self.config_view(),
                change.policy_exceptions@,
                iso,
                finding_views(r.findings@),
            ),
            r.promotion_allowed == no_blocking(finding_views(r.findings@)),
            r.evidence_checksum@ == evidence_checksum_spec(finding_views(r.findings@)),
            r.oracle_id@ == oracle_id_spec(change.change_id@, iso.proof_id@, r.evidence_checksum@),
            r.exported_json_stats.path@ == r.oracle_id@ + "/golden_isomorphism_stats.json"@,
            r.exported_json_stats.content@.len() == 0,
            artifact_consistent(r.exported_json_stats),
            r.replay_command@ == report_replay_spec(r.oracle_id@, change.change_id@),
    {
        let cfg = self.config;
        let change_id = change.change_id.as_str();
        let proof_id = iso.proof_id.as_str();
        let mut findings: Vec<GoldenFinding> = Vec::new();
        push_exception_findings(&mut findings, &cfg, change_id, proof_id, &change.policy_exceptions);
        let ghost after_exceptions = finding_views(findings@);
        if cfg.require_full_fixture_coverage {
            let missing = sorted_difference(golden_ids, candidate_ids);
            push_coverage_findings(
                &mut findings,
                crate::golden_isomorphism::gate::GoldenFindingCode::MissingCandidateOutput,
                change_id,
                proof_id,
                &missing,
            );
            let extraneous = sorted_difference(candidate_ids, golden_ids);
            push_coverage_findings(
                &mut findings,
                crate::golden_isomorphism::gate::GoldenFindingCode::ExtraneousCandidateOutput,
                change_id,
                proof_id,
                &extraneous,
            );
        }
        proof {
            assert(finding_views(findings@) =~= after_exceptions + all_coverage_findings(
                cfg,
                change.change_id@,
                iso.proof_id@,
                string_views(golden_ids@),
                string_views(candidate_ids@),
            ));
        }
        let counts = push_verdict_findings(
            &mut findings,
            &cfg,
            change_id,
            proof_id,
            &change.policy_exceptions,
            &iso.fixture_verdicts,
        );
        proof {
            assert(finding_views(findings@) =~= gate_findings(
                cfg,
                *change,
                string_views(golden_ids@),
                string_views(candidate_ids@),
                iso,
            ));
        }
        let blocking = count_blocking(&findings);
        let promotion_allowed = blocking == 0;
        let summary = GoldenIsomorphismSummary {
            total_fixtures: iso.fixture_verdicts.len(),
            matched: counts.0,
            normalized_matched: counts.1,
            mismatched: counts.2,
            covered_changes: counts.3,
            uncovered_changes: counts.4,
            blocking_findings: blocking,
            advisory_findings: findings.len() - blocking,
            behavior_preserved: iso.behavior_preserved,
            promotion_allowed,
        };
        let evidence_checksum = evidence_checksum_of(&findings);
        let oracle_id = oracle_id_for(change_id, proof_id, evidence_checksum.as_str());
        let path = cat(oracle_id.as_str(), "/golden_isomorphism_stats.json");
        let content = String::new();
        let sha = sha256_hex_of_text(content.as_str());
        let exported_json_stats = GoldenJsonStatsArtifact { path, sha256: sha, content };
        let replay = cat3(
            "doctor_frankentui golden-isomorphism-verify --oracle-id ",
            oracle_id.as_str(),
            " --change ",
        );
        let replay = replay.concat(change_id);
        GoldenIsomorphismReport {
            schema_version: String::from_str(GOLDEN_ISOMORPHISM_SCHEMA_VERSION),
            oracle_id,
            config: cfg,
            change_id: change.change_id.clone(),
            isomorphism_proof: iso,
            findings,
            summary,
            promotion_allowed,
            exported_json_stats,
            replay_command: replay,
            evidence_checksum,
        }
    }
}

} // verus!
