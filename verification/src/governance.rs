//! The cross-validator governance diagnostic envelope: one structured
//! schema that normalizes every governance validator's findings, and the
//! deterministic report built over the normalized ledger.
//!
//! Every diagnostic carries the fields a failure log must show (contract
//! id, clause id, checklist id, severity, artifact path, remediation hint
//! and a one-command replay), with `n/a` where a slot does not apply to the
//! validator that produced it.

use vstd::prelude::*;
use vstd::string::*;

use crate::ecosystem_scan::gate::{views, EcosystemScanConfig, ScanSeverity, ScanViolationView};
use crate::ecosystem_scan::{canonical_ledger, candidate_at, EcosystemScanRecord, EcosystemScanReport};
use crate::text::{
    cat, cat3, content_id, field, hex_of, is_blank, push_field, sha256_hex_of_text, sha256_spec,
    str_is_blank, text_short_id, utf8_of,
};

verus! {

/// Schema version for the cross-validator governance diagnostic contract.
pub const GOVERNANCE_VALIDATOR_SCHEMA_VERSION: &'static str = "governance-validator-tests-v1";

// ── Validator identity ───────────────────────────────────────────────────

/// Which governance validator produced a diagnostic.
#[derive(Debug, Clone, Copy, PartialEq, Eq, PartialOrd, Ord, Hash, Structural)]
pub enum ValidatorClass {
    /// Recommendation-contract compiler + linter.
    ContractLinter,
    /// Ecosystem-scan adopt-vs-build schema gate.
    EcosystemScan,
    /// Primary-paper checklist validator.
    PaperChecklist,
}

impl ValidatorClass {
    /// Every validator class, in stable order.
    pub const ALL: [ValidatorClass; 3] = [
        ValidatorClass::ContractLinter,
        ValidatorClass::EcosystemScan,
        ValidatorClass::PaperChecklist,
    ];

    /// Stable lowercase identifier.
    pub open spec fn tag(self) -> Seq<char> {
        match self {
            ValidatorClass::ContractLinter => "contract_linter"@,
            ValidatorClass::EcosystemScan => "ecosystem_scan"@,
            ValidatorClass::PaperChecklist => "paper_checklist"@,
        }
    }

    /// Stable lowercase identifier.
    pub fn as_str(self) -> (s: &'static str)
        ensures
            s@ == self.tag(),
    {
        match self {
            ValidatorClass::ContractLinter => "contract_linter",
            ValidatorClass::EcosystemScan => "ecosystem_scan",
            ValidatorClass::PaperChecklist => "paper_checklist",
        }
    }
}

/// Normalized severity across all validator classes.
#[derive(Debug, Clone, Copy, PartialEq, Eq, PartialOrd, Ord, Hash, Structural)]
pub enum GovernanceSeverity {
    /// Blocks the governance gate.
    Block,
    /// Advisory only.
    Warn,
}

impl GovernanceSeverity {
    /// Stable lowercase identifier.
    pub open spec fn tag(self) -> Seq<char> {
        match self {
            GovernanceSeverity::Block => "block"@,
            GovernanceSeverity::Warn => "warn"@,
        }
    }

    /// Stable lowercase identifier.
    pub fn as_str(self) -> (s: &'static str)
        ensures
            s@ == self.tag(),
    {
        match self {
            GovernanceSeverity::Block => "block",
            GovernanceSeverity::Warn => "warn",
        }
    }
}

/// The governance severity of an ecosystem-scan severity.
pub open spec fn scan_severity(s: ScanSeverity) -> GovernanceSeverity {
    match s {
        ScanSeverity::Block => GovernanceSeverity::Block,
        ScanSeverity::Warn => GovernanceSeverity::Warn,
    }
}

impl From<ScanSeverity> for GovernanceSeverity {
    fn from(severity: ScanSeverity) -> (g: Self) {
        match severity {
            ScanSeverity::Block => GovernanceSeverity::Block,
            ScanSeverity::Warn => GovernanceSeverity::Warn,
        }
    }
}

impl vstd::std_specs::convert::FromSpecImpl<ScanSeverity> for GovernanceSeverity {
    open spec fn obeys_from_spec() -> bool {
        true
    }

    open spec fn from_spec(v: ScanSeverity) -> GovernanceSeverity {
        scan_severity(v)
    }
}

// ── Unified diagnostic envelope ──────────────────────────────────────────

/// A single normalized governance diagnostic.
#[derive(Debug, Clone, PartialEq, Eq)]
pub struct GovernanceDiagnostic {
    /// Which validator produced this diagnostic.
    pub validator_class: ValidatorClass,
    /// The universal subject handle (card id / candidate id / primitive id).
    pub subject_id: String,
    /// The recommendation-contract card id (or `n/a`).
    pub contract_id: String,
    /// The lint clause / scan-violation code / checklist field path.
    pub clause_id: String,
    /// The paper-verification primitive id (or `n/a`).
    pub checklist_id: String,
    /// The stable machine code for this diagnostic.
    pub code: String,
    /// Normalized severity.
    pub severity: GovernanceSeverity,
    /// Deterministic pointer to the originating evidence artifact.
    pub artifact_path: String,
    /// Human-readable detail.
    pub detail: String,
    /// Remediation hint.
    pub remediation_hint: String,
    /// Upstream dependency hint (or `n/a`).
    pub dependency_hint: String,
    /// Deterministic single-command replay reference.
    pub replay_cmd: String,
}

/// The mathematical content of a diagnostic.
pub struct GovernanceDiagnosticView {
    pub validator_class: ValidatorClass,
    pub subject_id: Seq<char>,
    pub contract_id: Seq<char>,
    pub clause_id: Seq<char>,
    pub checklist_id: Seq<char>,
    pub code: Seq<char>,
    pub severity: GovernanceSeverity,
    pub artifact_path: Seq<char>,
    pub detail: Seq<char>,
    pub remediation_hint: Seq<char>,
    pub dependency_hint: Seq<char>,
    pub replay_cmd: Seq<char>,
}

impl View for GovernanceDiagnostic {
    type V = GovernanceDiagnosticView;

    open spec fn view(&self) -> GovernanceDiagnosticView {
        GovernanceDiagnosticView {
            validator_class: self.validator_class,
            subject_id: self.subject_id@,
            contract_id: self.contract_id@,
            clause_id: self.clause_id@,
            checklist_id: self.checklist_id@,
            code: self.code@,
            severity: self.severity,
            artifact_path: self.artifact_path@,
            detail: self.detail@,
            remediation_hint: self.remediation_hint@,
            dependency_hint: self.dependency_hint@,
            replay_cmd: self.replay_cmd@,
        }
    }
}

/// The views of a list of diagnostics.
pub open spec fn diagnostic_views(s: Seq<GovernanceDiagnostic>) -> Seq<GovernanceDiagnosticView> {
    s.map_values(|d: GovernanceDiagnostic| d@)
}

/// Whether every required failure-log field is non-empty.
pub open spec fn required_fields_present(d: GovernanceDiagnosticView) -> bool {
    &&& d.subject_id.len() > 0
    &&& d.contract_id.len() > 0
    &&& d.clause_id.len() > 0
    &&& d.checklist_id.len() > 0
    &&& d.code.len() > 0
    &&& d.artifact_path.len() > 0
    &&& d.detail.len() > 0
    &&& d.remediation_hint.len() > 0
    &&& d.dependency_hint.len() > 0
    &&& d.replay_cmd.len() > 0
}

impl GovernanceDiagnostic {
    /// Whether this diagnostic blocks the governance gate.
    pub fn is_blocking(&self) -> (b: bool)
        ensures
            b == (self.severity == GovernanceSeverity::Block),
    {
        self.severity == GovernanceSeverity::Block
    }

    /// Whether every required failure-log field is populated and non-empty.
    pub fn has_required_fields(&self) -> (b: bool)
        ensures
            b == required_fields_present(self@),
    {
        !self.subject_id.as_str().is_empty() && !self.contract_id.as_str().is_empty()
            && !self.clause_id.as_str().is_empty() && !self.checklist_id.as_str().is_empty()
            && !self.code.as_str().is_empty() && !self.artifact_path.as_str().is_empty()
            && !self.detail.as_str().is_empty() && !self.remediation_hint.as_str().is_empty()
            && !self.dependency_hint.as_str().is_empty() && !self.replay_cmd.as_str().is_empty()
    }
}

// ── Normalization helpers ────────────────────────────────────────────────

/// `value`, or `n/a` when it is blank.
pub open spec fn or_na(value: Seq<char>) -> Seq<char> {
    if is_blank(value) {
        "n/a"@
    } else {
        value
    }
}

/// `value`, or `n/a` when it is blank.
fn nonempty_or_na(value: &str) -> (s: String)
    ensures
        s@ == or_na(value@),
{
    if str_is_blank(value) {
        String::from_str("n/a")
    } else {
        String::from_str(value)
    }
}

/// The remediation hint for a paper-verification checklist field.
pub open spec fn paper_remediation_spec(f: Seq<char>) -> Seq<char> {
    if f == "checklist.claims"@ {
        "extract paper claims before advancing past not-started"@
    } else if f == "checklist.claims.claim_id"@ {
        "give every claim a unique, non-empty id"@
    } else if f == "checklist.claims.evidence_path"@ {
        "attach an evidence artifact path to verified claims"@
    } else if f == "checklist.threats.threat_id"@ {
        "give every threat a non-empty id"@
    } else if f == "legal_ip.patent_status"@ {
        "reconcile patent status with the production-clearance flag"@
    } else if f == "legal_ip.rollout_risk_gate"@ {
        "set the rollout-risk gate consistent with patent status"@
    } else if f == "repro_pack.referenced_by_claims"@ {
        "reference only claim ids present in the checklist"@
    } else if f == "repro_pack.artifact_paths"@ {
        "ensure every referenced artifact exists on disk"@
    } else if f == "schema_version"@ {
        "regenerate the registry with the current schema version"@
    } else {
        "review the paper-verification invariant for this field"@
    }
}

/// Whether two string slices hold the same text.
fn str_eq(a: &str, b: &str) -> (r: bool)
    ensures
        r == (a@ == b@),
{
    let x = String::from_str(a);
    let y = String::from_str(b);
    x == y
}

/// The remediation hint for a paper-verification checklist field.
pub fn paper_remediation_for(field_path: &str) -> (s: String)
    ensures
        s@ == paper_remediation_spec(field_path@),
{
    let hint = if str_eq(field_path, "checklist.claims") {
        "extract paper claims before advancing past not-started"
    } else if str_eq(field_path, "checklist.claims.claim_id") {
        "give every claim a unique, non-empty id"
    } else if str_eq(field_path, "checklist.claims.evidence_path") {
        "attach an evidence artifact path to verified claims"
    } else if str_eq(field_path, "checklist.threats.threat_id") {
        "give every threat a non-empty id"
    } else if str_eq(field_path, "legal_ip.patent_status") {
        "reconcile patent status with the production-clearance flag"
    } else if str_eq(field_path, "legal_ip.rollout_risk_gate") {
        "set the rollout-risk gate consistent with patent status"
    } else if str_eq(field_path, "repro_pack.referenced_by_claims") {
        "reference only claim ids present in the checklist"
    } else if str_eq(field_path, "repro_pack.artifact_paths") {
        "ensure every referenced artifact exists on disk"
    } else if str_eq(field_path, "schema_version") {
        "regenerate the registry with the current schema version"
    } else {
        "review the paper-verification invariant for this field"
    };
    String::from_str(hint)
}

// ── Normalizing the ecosystem-scan report ────────────────────────────────

/// The diagnostic a scan violation normalizes to.
pub open spec fn scan_diagnostic(v: ScanViolationView, path: Seq<char>, replay: Seq<char>) -> GovernanceDiagnosticView {
    GovernanceDiagnosticView {
        validator_class: ValidatorClass::EcosystemScan,
        subject_id: or_na(v.candidate_id),
        contract_id: "n/a"@,
        clause_id: v.code.tag(),
        checklist_id: "n/a"@,
        code: v.code.tag(),
        severity: scan_severity(v.severity),
        artifact_path: path,
        detail: or_na(v.detail),
        remediation_hint: or_na(v.remediation),
        dependency_hint: "n/a"@,
        replay_cmd: replay,
    }
}

/// The diagnostics a list of scan violations normalizes to, in order.
pub open spec fn scan_diagnostics(vs: Seq<ScanViolationView>, path: Seq<char>, replay: Seq<char>) -> Seq<GovernanceDiagnosticView> {
    vs.map_values(|v: ScanViolationView| scan_diagnostic(v, path, replay))
}

/// Normalize an ecosystem-scan report into unified diagnostics, one per
/// violation in report order.
pub fn normalize_scan_report(report: &EcosystemScanReport) -> (out: Vec<GovernanceDiagnostic>)
    ensures
        diagnostic_views(out@) == scan_diagnostics(
            views(report.violations@),
            report.exported_json_stats.path@,
            report.replay_command@,
        ),
{
    let ghost vs = views(report.violations@);
    let ghost path = report.exported_json_stats.path@;
    let ghost replay = report.replay_command@;
    let mut out: Vec<GovernanceDiagnostic> = Vec::new();
    let mut i: usize = 0;
    while i < report.violations.len()
        invariant
            i <= report.violations@.len(),
            vs == views(report.violations@),
            path == report.exported_json_stats.path@,
            replay == report.replay_command@,
            diagnostic_views(out@) == scan_diagnostics(vs.take(i as int), path, replay),
        decreases report.violations@.len() - i,
    {
        let v = &report.violations[i];
        let code = String::from_str(v.code.as_str());
        let d = GovernanceDiagnostic {
            validator_class: ValidatorClass::EcosystemScan,
            subject_id: nonempty_or_na(v.candidate_id.as_str()),
            contract_id: String::from_str("n/a"),
            clause_id: code.clone(),
            checklist_id: String::from_str("n/a"),
            code,
            severity: GovernanceSeverity::from(v.severity),
            artifact_path: report.exported_json_stats.path.clone(),
            detail: nonempty_or_na(v.detail.as_str()),
            remediation_hint: nonempty_or_na(v.remediation.as_str()),
            dependency_hint: String::from_str("n/a"),
            replay_cmd: report.replay_command.clone(),
        };
        proof {
            assert(vs[i as int] == report.violations@[i as int]@);
            assert(d@.severity == scan_severity(v.severity));
            assert(d@.subject_id == or_na(v.candidate_id@));
            assert(d@.clause_id == v.code.tag());
            assert(d@ == scan_diagnostic(vs[i as int], path, replay));
        }
        let ghost old_out = out@;
        out.push(d);
        proof {
            assert(vs.take(i as int + 1) =~= vs.take(i as int).push(vs[i as int]));
            let lhs = diagnostic_views(out@);
            let rhs = scan_diagnostics(vs.take(i as int + 1), path, replay);
            let pre = scan_diagnostics(vs.take(i as int), path, replay);
            assert(vs.len() == report.violations@.len());
            assert(pre.len() == i);
            assert(diagnostic_views(old_out).len() == old_out.len());
            assert(old_out.len() == i);
            assert(out@ == old_out.push(d));
            assert(rhs.len() == i + 1);
            assert(lhs.len() == i + 1);
            assert(lhs[i as int] == rhs[i as int]);
            assert forall|k: int| 0 <= k < lhs.len() implies lhs[k] == rhs[k] by {
                if k < i {
                    assert(lhs[k] == out@[k]@);
                    assert(out@[k] == old_out[k]);
                    assert(diagnostic_views(old_out)[k] == pre[k]);
                }
            }
            assert(lhs =~= rhs);
        }
        i = i + 1;
    }
    proof {
        assert(vs.take(i as int) =~= vs);
    }
    out
}

// ── Scan-ledger fixtures ─────────────────────────────────────────────────

/// The canonical ecosystem-scan ledger that passes the default gate.
pub fn scan_ledger_clean() -> (v: Vec<EcosystemScanRecord>)
    ensures
        v@.len() == 8,
        forall|k: int| 0 <= k < 8 ==> (#[trigger] v@[k]).candidate == candidate_at(k),
{
    canonical_ledger()
}

/// A scan ledger missing its last candidate (a coverage gap).
pub fn scan_ledger_missing_candidate() -> (v: Vec<EcosystemScanRecord>)
    ensures
        v@.len() == 7,
        forall|k: int| 0 <= k < 7 ==> (#[trigger] v@[k]).candidate == candidate_at(k),
{
    let mut ledger = canonical_ledger();
    ledger.pop();
    ledger
}

/// A scan ledger whose first record appears twice (contradictory declarations).
pub fn scan_ledger_duplicate() -> (v: Vec<EcosystemScanRecord>)
    ensures
        v@.len() == 9,
        forall|k: int| 0 <= k < 8 ==> (#[trigger] v@[k]).candidate == candidate_at(k),
        v@[8].candidate == candidate_at(0),
{
    let mut ledger = canonical_ledger();
    let mut again = canonical_ledger();
    let first = again.remove(0);
    ledger.push(first);
    ledger
}

// ── Configuration, summary, report ───────────────────────────────────────

/// Configuration for the unified governance validation harness.
#[derive(Debug, Clone, PartialEq)]
pub struct GovernanceValidationConfig {
    /// Ecosystem-scan gate configuration.
    pub scan_config: EcosystemScanConfig,
}

impl Default for GovernanceValidationConfig {
    /// The default ecosystem-scan gate configuration.
    fn default() -> (c: Self)
        ensures
            c.scan_config.required_constraint_axes@.len() == 5,
            c.scan_config.require_full_candidate_coverage,
    {
        GovernanceValidationConfig { scan_config: EcosystemScanConfig::default() }
    }
}

/// Aggregate counts over the unified diagnostics.
#[derive(Debug, Clone, PartialEq, Eq)]
pub struct GovernanceValidationSummary {
    /// Total diagnostics emitted.
    pub total_diagnostics: usize,
    /// Blocking diagnostics.
    pub blocking_diagnostics: usize,
    /// Advisory diagnostics.
    pub advisory_diagnostics: usize,
    /// Diagnostics from the contract linter.
    pub contract_diagnostics: usize,
    /// Diagnostics from the ecosystem-scan gate.
    pub scan_diagnostics: usize,
    /// Diagnostics from the paper-checklist validator.
    pub paper_diagnostics: usize,
    /// Whether the contract-lint gate passed.
    pub lint_gate_passes: bool,
    /// Whether the ecosystem-scan gate passed.
    pub scan_gate_passes: bool,
    /// Whether the paper-verification registry validated clean.
    pub paper_validates_clean: bool,
    /// Whether the combined governance gate passed.
    pub governance_gate_passes: bool,
}

/// Number of blocking diagnostics among the first `n`.
pub open spec fn blocking_count(ds: Seq<GovernanceDiagnosticView>, n: int) -> nat
    decreases n,
{
    if n <= 0 {
        0
    } else {
        blocking_count(ds, n - 1) + if ds[n - 1].severity == GovernanceSeverity::Block {
            1nat
        } else {
            0nat
        }
    }
}

/// Number of diagnostics of class `c` among the first `n`.
pub open spec fn class_count(ds: Seq<GovernanceDiagnosticView>, c: ValidatorClass, n: int) -> nat
    decreases n,
{
    if n <= 0 {
        0
    } else {
        class_count(ds, c, n - 1) + if ds[n - 1].validator_class == c {
            1nat
        } else {
            0nat
        }
    }
}

/// Whether `s` holds the counts and gate outcome of diagnostics `ds`.
pub open spec fn summary_of(
    s: GovernanceValidationSummary,
    ds: Seq<GovernanceDiagnosticView>,
    lint_gate_passes: bool,
    scan_gate_passes: bool,
    paper_validates_clean: bool,
) -> bool {
    let n = ds.len() as int;
    &&& s.total_diagnostics == ds.len()
    &&& s.blocking_diagnostics == blocking_count(ds, n)
    &&& s.advisory_diagnostics == ds.len() - blocking_count(ds, n)
    &&& s.contract_diagnostics == class_count(ds, ValidatorClass::ContractLinter, n)
    &&& s.scan_diagnostics == class_count(ds, ValidatorClass::EcosystemScan, n)
    &&& s.paper_diagnostics == class_count(ds, ValidatorClass::PaperChecklist, n)
    &&& s.lint_gate_passes == lint_gate_passes
    &&& s.scan_gate_passes == scan_gate_passes
    &&& s.paper_validates_clean == paper_validates_clean
    &&& s.governance_gate_passes == (lint_gate_passes && scan_gate_passes && paper_validates_clean
        && blocking_count(ds, n) == 0)
}

/// Count the diagnostics by severity and class.
fn summarize(
    diagnostics: &Vec<GovernanceDiagnostic>,
    lint_gate_passes: bool,
    scan_gate_passes: bool,
    paper_validates_clean: bool,
) -> (s: GovernanceValidationSummary)
    ensures
        summary_of(
            s,
            diagnostic_views(diagnostics@),
            lint_gate_passes,
            scan_gate_passes,
            paper_validates_clean,
        ),
{
    let ghost ds = diagnostic_views(diagnostics@);
    let mut blocking: usize = 0;
    let mut contract: usize = 0;
    let mut scan: usize = 0;
    let mut paper: usize = 0;
    let mut i: usize = 0;
    while i < diagnostics.len()
        invariant
            i <= diagnostics@.len(),
            ds == diagnostic_views(diagnostics@),
            blocking == blocking_count(ds, i as int),
            contract == class_count(ds, ValidatorClass::ContractLinter, i as int),
            scan == class_count(ds, ValidatorClass::EcosystemScan, i as int),
            paper == class_count(ds, ValidatorClass::PaperChecklist, i as int),
            blocking <= i,
            contract + scan + paper == i,
        decreases diagnostics@.len() - i,
    {
        proof {
            assert(ds[i as int] == diagnostics@[i as int]@);
        }
        let d = &diagnostics[i];
        if d.is_blocking() {
            blocking = blocking + 1;
        }
        match d.validator_class {
            ValidatorClass::ContractLinter => contract = contract + 1,
            ValidatorClass::EcosystemScan => scan = scan + 1,
            ValidatorClass::PaperChecklist => paper = paper + 1,
        }
        i = i + 1;
    }
    let total = diagnostics.len();
    GovernanceValidationSummary {
        total_diagnostics: total,
        blocking_diagnostics: blocking,
        advisory_diagnostics: total - blocking,
        contract_diagnostics: contract,
        scan_diagnostics: scan,
        paper_diagnostics: paper,
        lint_gate_passes,
        scan_gate_passes,
        paper_validates_clean,
        governance_gate_passes: lint_gate_passes && scan_gate_passes && paper_validates_clean
            && blocking == 0,
    }
}

/// Deterministic JSON-stats artifact (content + checksum).
#[derive(Debug, Clone, PartialEq, Eq)]
pub struct GovernanceJsonStatsArtifact {
    /// Suggested relative output path.
    pub path: String,
    /// SHA-256 of `content`.
    pub sha256: String,
    /// Serialized JSON content.
    pub content: String,
}

/// The checksum law of a stats artifact: `sha256` is the lowercase hex
/// SHA-256 of the UTF-8 bytes of `content`.
pub open spec fn artifact_consistent(a: GovernanceJsonStatsArtifact) -> bool {
    a.sha256@ == hex_of(sha256_spec(utf8_of(a.content@)))
}

/// The full cross-validator governance validation report.
#[derive(Debug, Clone, PartialEq)]
pub struct GovernanceValidationReport {
    /// Schema version constant.
    pub schema_version: String,
    /// Deterministic report identifier (derived from the diagnostics).
    pub report_id: String,
    /// Scenario label.
    pub scenario_label: String,
    /// The configuration that produced this report.
    pub config: GovernanceValidationConfig,
    /// The full diagnostic ledger.
    pub diagnostics: Vec<GovernanceDiagnostic>,
    /// Aggregate summary.
    pub summary: GovernanceValidationSummary,
    /// Deterministic JSON-stats artifact.
    pub exported_json_stats: GovernanceJsonStatsArtifact,
    /// Replay command for the whole report.
    pub replay_command: String,
    /// SHA-256 fingerprint of the diagnostics.
    pub evidence_checksum: String,
}

/// The diagnostics of the first `n` that satisfy `keep`, in order.
pub open spec fn filter_upto(
    ds: Seq<GovernanceDiagnosticView>,
    keep: spec_fn(GovernanceDiagnosticView) -> bool,
    n: int,
) -> Seq<GovernanceDiagnosticView>
    decreases n,
{
    if n <= 0 {
        Seq::empty()
    } else {
        filter_upto(ds, keep, n - 1) + if keep(ds[n - 1]) {
            seq![ds[n - 1]]
        } else {
            Seq::empty()
        }
    }
}

/// Diagnostics from validator class `c`.
pub open spec fn of_class(c: ValidatorClass) -> spec_fn(GovernanceDiagnosticView) -> bool {
    |d: GovernanceDiagnosticView| d.validator_class == c
}

/// Blocking diagnostics.
pub open spec fn is_block() -> spec_fn(GovernanceDiagnosticView) -> bool {
    |d: GovernanceDiagnosticView| d.severity == GovernanceSeverity::Block
}

impl GovernanceValidationReport {
    /// All diagnostics from a given validator class, in ledger order.
    pub fn diagnostics_for(&self, class: ValidatorClass) -> (out: Vec<&GovernanceDiagnostic>)
        ensures
            out@.map_values(|d: &GovernanceDiagnostic| d@) == filter_upto(
                diagnostic_views(self.diagnostics@),
                of_class(class),
                self.diagnostics@.len() as int,
            ),
    {
        let ghost v = diagnostic_views(self.diagnostics@);
        let mut out: Vec<&GovernanceDiagnostic> = Vec::new();
        let mut i: usize = 0;
        proof {
            assert(out@.map_values(|d: &GovernanceDiagnostic| d@) =~= filter_upto(v, of_class(class), 0));
        }
        while i < self.diagnostics.len()
            invariant
                i <= self.diagnostics@.len(),
                v == diagnostic_views(self.diagnostics@),
                out@.map_values(|d: &GovernanceDiagnostic| d@) == filter_upto(v, of_class(class), i as int),
            decreases self.diagnostics@.len() - i,
        {
            proof {
                assert(v[i as int] == self.diagnostics@[i as int]@);
            }
            if self.diagnostics[i].validator_class == class {
                out.push(&self.diagnostics[i]);
            }
            proof {
                assert(out@.map_values(|d: &GovernanceDiagnostic| d@) =~= filter_upto(
                    v,
                    of_class(class),
                    i as int + 1,
                ));
            }
            i = i + 1;
        }
        out
    }

    /// All blocking diagnostics, in ledger order.
    pub fn blocking(&self) -> (out: Vec<&GovernanceDiagnostic>)
        ensures
            out@.map_values(|d: &GovernanceDiagnostic| d@) == filter_upto(
                diagnostic_views(self.diagnostics@),
                is_block(),
                self.diagnostics@.len() as int,
            ),
    {
        let ghost v = diagnostic_views(self.diagnostics@);
        let mut out: Vec<&GovernanceDiagnostic> = Vec::new();
        let mut i: usize = 0;
        proof {
            assert(out@.map_values(|d: &GovernanceDiagnostic| d@) =~= filter_upto(v, is_block(), 0));
        }
        while i < self.diagnostics.len()
            invariant
                i <= self.diagnostics@.len(),
                v == diagnostic_views(self.diagnostics@),
                out@.map_values(|d: &GovernanceDiagnostic| d@) == filter_upto(v, is_block(), i as int),
            decreases self.diagnostics@.len() - i,
        {
            proof {
                assert(v[i as int] == self.diagnostics@[i as int]@);
            }
            if self.diagnostics[i].is_blocking() {
                out.push(&self.diagnostics[i]);
            }
            proof {
                assert(out@.map_values(|d: &GovernanceDiagnostic| d@) =~= filter_upto(
                    v,
                    is_block(),
                    i as int + 1,
                ));
            }
            i = i + 1;
        }
        out
    }

    /// Attach rendered stats content, keeping the checksum consistent.
    pub fn with_json_stats(self, content: String) -> (r: GovernanceValidationReport)
        ensures
            r == (GovernanceValidationReport { exported_json_stats: r.exported_json_stats, ..self }),
            r.exported_json_stats.path == self.exported_json_stats.path,
            r.exported_json_stats.content@ == content@,
            artifact_consistent(r.exported_json_stats),
    {
        let sha = sha256_hex_of_text(content.as_str());
        let mut r = self;
        r.exported_json_stats.sha256 = sha;
        r.exported_json_stats.content = content;
        r
    }
}

// ── Report identity ──────────────────────────────────────────────────────

/// The self-delimiting text of one diagnostic: each of its fields in order.
pub open spec fn diagnostic_text(d: GovernanceDiagnosticView) -> Seq<char> {
    field(d.validator_class.tag()) + field(d.subject_id) + field(d.contract_id) + field(d.clause_id)
        + field(d.checklist_id) + field(d.code) + field(d.severity.tag()) + field(d.artifact_path)
        + field(d.detail) + field(d.remediation_hint) + field(d.dependency_hint) + field(
        d.replay_cmd,
    )
}

/// The text of the first `n` diagnostics, one after another.
pub open spec fn diagnostics_text(ds: Seq<GovernanceDiagnosticView>, n: int) -> Seq<char>
    decreases n,
{
    if n <= 0 {
        Seq::empty()
    } else {
        diagnostics_text(ds, n - 1) + diagnostic_text(ds[n - 1])
    }
}

/// The evidence checksum: hex SHA-256 of the UTF-8 text of every diagnostic.
pub open spec fn evidence_checksum_spec(ds: Seq<GovernanceDiagnosticView>) -> Seq<char> {
    hex_of(sha256_spec(utf8_of(diagnostics_text(ds, ds.len() as int))))
}

/// The deterministic report id for a scenario and evidence checksum.
pub open spec fn report_id_spec(label: Seq<char>, evidence: Seq<char>) -> Seq<char> {
    "governance-validator-tests-"@ + content_id(
        utf8_of(field(GOVERNANCE_VALIDATOR_SCHEMA_VERSION@) + field(label) + field(evidence)),
    )
}

/// The replay command of a report.
pub open spec fn replay_spec(report_id: Seq<char>, label: Seq<char>) -> Seq<char> {
    "doctor_frankentui governance-validate --report-id "@ + report_id + " --scenario "@ + label
}

/// Append the text of one diagnostic.
fn push_diagnostic_text(out: &mut String, d: &GovernanceDiagnostic)
    ensures
        final(out)@ == old(out)@ + diagnostic_text(d@),
{
    let mut t = String::new();
    push_field(&mut t, d.validator_class.as_str());
    proof {
        assert(t@ =~= field(d.validator_class.tag()));
    }
    push_field(&mut t, d.subject_id.as_str());
    push_field(&mut t, d.contract_id.as_str());
    push_field(&mut t, d.clause_id.as_str());
    push_field(&mut t, d.checklist_id.as_str());
    push_field(&mut t, d.code.as_str());
    push_field(&mut t, d.severity.as_str());
    push_field(&mut t, d.artifact_path.as_str());
    push_field(&mut t, d.detail.as_str());
    push_field(&mut t, d.remediation_hint.as_str());
    push_field(&mut t, d.dependency_hint.as_str());
    push_field(&mut t, d.replay_cmd.as_str());
    out.append(t.as_str());
}

/// The evidence checksum of a list of diagnostics.
fn evidence_checksum_of(ds: &Vec<GovernanceDiagnostic>) -> (s: String)
    ensures
        s@ == evidence_checksum_spec(diagnostic_views(ds@)),
{
    let ghost v = diagnostic_views(ds@);
    let mut text = String::new();
    let mut i: usize = 0;
    while i < ds.len()
        invariant
            i <= ds@.len(),
            v == diagnostic_views(ds@),
            text@ == diagnostics_text(v, i as int),
        decreases ds@.len() - i,
    {
        proof {
            assert(v[i as int] == ds@[i as int]@);
        }
        push_diagnostic_text(&mut text, &ds[i]);
        i = i + 1;
    }
    sha256_hex_of_text(text.as_str())
}

/// Assemble the deterministic governance report over a normalized ledger of
/// diagnostics and the three validators' gate outcomes.
pub fn assemble_governance_report(
    label: &str,
    config: GovernanceValidationConfig,
    diagnostics: Vec<GovernanceDiagnostic>,
    lint_gate_passes: bool,
    scan_gate_passes: bool,
    paper_validates_clean: bool,
) -> (r: GovernanceValidationReport)
    ensures
        r.schema_version@ == GOVERNANCE_VALIDATOR_SCHEMA_VERSION@,
        r.scenario_label@ == label@,
        r.config == config,
        r.diagnostics@ == diagnostics@,
        summary_of(
            r.summary,
            diagnostic_views(diagnostics@),
            lint_gate_passes,
            scan_gate_passes,
            paper_validates_clean,
        ),
        r.evidence_checksum@ == evidence_checksum_spec(diagnostic_views(diagnostics@)),
        r.report_id@ == report_id_spec(label@, r.evidence_checksum@),
        r.replay_command@ == replay_spec(r.report_id@, label@),
        r.exported_json_stats.path@ == r.report_id@ + "/governance_validator_stats.json"@,
        r.exported_json_stats.content@.len() == 0,
        artifact_consistent(r.exported_json_stats),
{
    let summary = summarize(&diagnostics, lint_gate_passes, scan_gate_passes, paper_validates_clean);
    let evidence_checksum = evidence_checksum_of(&diagnostics);
    let mut identity = String::new();
    push_field(&mut identity, GOVERNANCE_VALIDATOR_SCHEMA_VERSION);
    proof {
        assert(identity@ =~= field(GOVERNANCE_VALIDATOR_SCHEMA_VERSION@));
    }
    push_field(&mut identity, label);
    push_field(&mut identity, evidence_checksum.as_str());
    let short = text_short_id(identity.as_str());
    let report_id = cat("governance-validator-tests-", short.as_str());
    let replay = cat3("doctor_frankentui governance-validate --report-id ", report_id.as_str(), " --scenario ");
    let replay = replay.concat(label);
    let path = cat(report_id.as_str(), "/governance_validator_stats.json");
    let content = String::new();
    let sha = sha256_hex_of_text(content.as_str());
    GovernanceValidationReport {
        schema_version: String::from_str(GOVERNANCE_VALIDATOR_SCHEMA_VERSION),
        report_id,
        scenario_label: String::from_str(label),
        config,
        diagnostics,
        summary,
        exported_json_stats: GovernanceJsonStatsArtifact { path, sha256: sha, content },
        replay_command: replay,
        evidence_checksum,
    }
}

// ── Laws ─────────────────────────────────────────────────────────────────

/// Every diagnostic normalized from an ecosystem-scan report carries all
/// the required failure-log fields, provided the report names its stats
/// artifact and its replay command.
pub proof fn law_scan_diagnostics_carry_required_fields(
    vs: Seq<ScanViolationView>,
    path: Seq<char>,
    replay: Seq<char>,
)
    requires
        path.len() > 0,
        replay.len() > 0,
    ensures
        forall|k: int|
            0 <= k < vs.len() ==> required_fields_present(
                #[trigger] scan_diagnostics(vs, path, replay)[k],
            ),
{
    let ds = scan_diagnostics(vs, path, replay);
    assert forall|k: int| 0 <= k < vs.len() implies required_fields_present(#[trigger] ds[k]) by {
        let d = ds[k];
        assert(d == scan_diagnostic(vs[k], path, replay));
        lemma_or_na_nonempty(vs[k].candidate_id);
        lemma_or_na_nonempty(vs[k].detail);
        lemma_or_na_nonempty(vs[k].remediation);
        assert("n/a"@.len() > 0) by {
            reveal_strlit("n/a");
        }
        lemma_code_tag_nonempty(vs[k].code);
    }
}

proof fn lemma_or_na_nonempty(s: Seq<char>)
    ensures
        or_na(s).len() > 0,
{
    reveal_strlit("n/a");
    if s.len() == 0 {
        assert(is_blank(s));
    }
}

proof fn lemma_code_tag_nonempty(c: crate::ecosystem_scan::gate::ScanViolationCode)
    ensures
        c.tag().len() > 0,
{
    reveal_strlit("missing_candidate_coverage");
    reveal_strlit("duplicate_candidate");
    reveal_strlit("empty_candidate_id");
    reveal_strlit("candidate_id_mismatch");
    reveal_strlit("no_crate_considered_without_none_found");
    reveal_strlit("none_found_statement_empty");
    reveal_strlit("rejected_crate_missing_rationale");
    reveal_strlit("selected_crate_contradicts_build");
    reveal_strlit("adopt_without_adopted_crate");
    reveal_strlit("missing_required_constraint_axis");
    reveal_strlit("constraint_rationale_empty");
    reveal_strlit("missing_fallback_plan");
    reveal_strlit("missing_in_tree_module");
    reveal_strlit("unsafe_policy_violation_adopted");
    reveal_strlit("adopted_crate_determinism_risk_too_high");
    reveal_strlit("empty_decision_summary");
}

proof fn lemma_class_counts_sum(ds: Seq<GovernanceDiagnosticView>, n: int)
    requires
        0 <= n <= ds.len(),
    ensures
        class_count(ds, ValidatorClass::ContractLinter, n) + class_count(
            ds,
            ValidatorClass::EcosystemScan,
            n,
        ) + class_count(ds, ValidatorClass::PaperChecklist, n) == n,
        blocking_count(ds, n) <= n,
    decreases n,
{
    if n > 0 {
        lemma_class_counts_sum(ds, n - 1);
    }
}

/// The per-validator counts of a governance summary add up to the total,
/// and so do the blocking and advisory counts.
pub proof fn law_governance_counts_add_up(
    s: GovernanceValidationSummary,
    ds: Seq<GovernanceDiagnosticView>,
    lint_gate_passes: bool,
    scan_gate_passes: bool,
    paper_validates_clean: bool,
)
    requires
        summary_of(s, ds, lint_gate_passes, scan_gate_passes, paper_validates_clean),
    ensures
        s.contract_diagnostics + s.scan_diagnostics + s.paper_diagnostics == s.total_diagnostics,
        s.blocking_diagnostics + s.advisory_diagnostics == s.total_diagnostics,
        s.governance_gate_passes ==> s.blocking_diagnostics == 0,
{
    lemma_class_counts_sum(ds, ds.len() as int);
}

} // verus!
