//! The entry-header compiler: findings for the header, the graduation
//! template and the size estimate, each stated as a spec function.

use vstd::prelude::*;
use vstd::string::*;

use crate::entry_header_compiler::{
    criterion_lookup, effort_band, estimate_effort_band, field_at, lookup, penalty_tenths,
    required_artifacts_for, required_artifacts_spec, CriterionStatus, EffortSize,
    EntryHeaderDraft, GraduationCriteriaTemplate, GraduationCriterion, HeaderFieldId,
    HeaderFieldValue, SizeEstimate, ENTRY_HEADER_SCHEMA_VERSION,
};
use crate::milestone_policy::QualityArtifact;
use crate::text::{
    cat, cat3, content_id, decimal, field, hex_of, is_blank, opt_field, push_field,
    push_opt_field, push_str, sha256_hex_of_text, sha256_spec, str_is_blank, string_views,
    text_short_id, u64_to_string, usize_to_string, utf8_of,
};

verus! {

/// Severity of a schema finding.
#[derive(Debug, Clone, Copy, PartialEq, Eq, PartialOrd, Ord, Hash, Structural)]
pub enum SchemaSeverity {
    /// Blocks progression / graduation.
    Block,
    /// Advisory only.
    Warn,
}

impl SchemaSeverity {
    /// Stable lowercase tag.
    pub open spec fn tag(self) -> Seq<char> {
        match self {
            SchemaSeverity::Block => "block"@,
            SchemaSeverity::Warn => "warn"@,
        }
    }

    /// Stable lowercase tag.
    pub fn as_str(self) -> (s: &'static str)
        ensures
            s@ == self.tag(),
    {
        match self {
            SchemaSeverity::Block => "block",
            SchemaSeverity::Warn => "warn",
        }
    }
}

/// Machine-readable schema-finding code.
#[derive(Debug, Clone, Copy, PartialEq, Eq, PartialOrd, Ord, Hash, Structural)]
pub enum SchemaFindingCode {
    /// A mandatory header field is absent.
    MissingMandatoryHeaderField,
    /// A provided header value is empty.
    EmptyHeaderValue,
    /// A `Tbd` field has no reason.
    EmptyTbdReason,
    /// A mandatory field is still `Tbd`.
    TbdMandatoryField,
    /// The template omits an artifact the bar requires.
    MissingRequiredGraduationArtifact,
    /// A graduation criterion has no CI artifact link.
    GraduationCriterionMissingCiLink,
    /// A graduation criterion failed.
    GraduationCriterionFailed,
    /// A graduation criterion has not passed.
    GraduationCriterionNotPassed,
    /// No size estimate was supplied.
    MissingSizeEstimate,
    /// The declared effort does not match the LOC-derived band.
    EffortBandMismatch,
}

impl SchemaFindingCode {
    /// Stable lowercase tag.
    pub open spec fn tag(self) -> Seq<char> {
        match self {
            SchemaFindingCode::MissingMandatoryHeaderField => "missing_mandatory_header_field"@,
            SchemaFindingCode::EmptyHeaderValue => "empty_header_value"@,
            SchemaFindingCode::EmptyTbdReason => "empty_tbd_reason"@,
            SchemaFindingCode::TbdMandatoryField => "tbd_mandatory_field"@,
            SchemaFindingCode::MissingRequiredGraduationArtifact => "missing_required_graduation_artifact"@,
            SchemaFindingCode::GraduationCriterionMissingCiLink => "graduation_criterion_missing_ci_link"@,
            SchemaFindingCode::GraduationCriterionFailed => "graduation_criterion_failed"@,
            SchemaFindingCode::GraduationCriterionNotPassed => "graduation_criterion_not_passed"@,
            SchemaFindingCode::MissingSizeEstimate => "missing_size_estimate"@,
            SchemaFindingCode::EffortBandMismatch => "effort_band_mismatch"@,
        }
    }

    /// Stable lowercase tag.
    pub fn as_str(self) -> (s: &'static str)
        ensures
            s@ == self.tag(),
    {
        match self {
            SchemaFindingCode::MissingMandatoryHeaderField => "missing_mandatory_header_field",
            SchemaFindingCode::EmptyHeaderValue => "empty_header_value",
            SchemaFindingCode::EmptyTbdReason => "empty_tbd_reason",
            SchemaFindingCode::TbdMandatoryField => "tbd_mandatory_field",
            SchemaFindingCode::MissingRequiredGraduationArtifact => "missing_required_graduation_artifact",
            SchemaFindingCode::GraduationCriterionMissingCiLink => "graduation_criterion_missing_ci_link",
            SchemaFindingCode::GraduationCriterionFailed => "graduation_criterion_failed",
            SchemaFindingCode::GraduationCriterionNotPassed => "graduation_criterion_not_passed",
            SchemaFindingCode::MissingSizeEstimate => "missing_size_estimate",
            SchemaFindingCode::EffortBandMismatch => "effort_band_mismatch",
        }
    }
}

/// A structured schema finding.
#[derive(Debug, Clone, PartialEq, Eq)]
pub struct SchemaFinding {
    /// Machine-readable code.
    pub code: SchemaFindingCode,
    /// Severity.
    pub severity: SchemaSeverity,
    /// Target field/criterion/component.
    pub target: String,
    /// Human-readable detail.
    pub detail: String,
    /// Actionable remediation.
    pub remediation: String,
}

/// The plain-value view of a finding.
pub struct SchemaFindingView {
    pub code: SchemaFindingCode,
    pub severity: SchemaSeverity,
    pub target: Seq<char>,
    pub detail: Seq<char>,
    pub remediation: Seq<char>,
}

impl View for SchemaFinding {
    type V = SchemaFindingView;

    open spec fn view(&self) -> SchemaFindingView {
        SchemaFindingView {
            code: self.code,
            severity: self.severity,
            target: self.target@,
            detail: self.detail@,
            remediation: self.remediation@,
        }
    }
}

/// The views of a list of findings.
pub open spec fn fviews(s: Seq<SchemaFinding>) -> Seq<SchemaFindingView> {
    s.map_values(|f: SchemaFinding| f@)
}

/// A finding view.
pub open spec fn fv(
    code: SchemaFindingCode,
    severity: SchemaSeverity,
    target: Seq<char>,
    detail: Seq<char>,
    remediation: Seq<char>,
) -> SchemaFindingView {
    SchemaFindingView { code, severity, target, detail, remediation }
}

impl SchemaFinding {
    fn new(
        code: SchemaFindingCode,
        severity: SchemaSeverity,
        target: String,
        detail: String,
        remediation: String,
    ) -> (f: SchemaFinding)
        ensures
            f@ == fv(code, severity, target@, detail@, remediation@),
    {
        SchemaFinding { code, severity, target, detail, remediation }
    }
}

fn push_finding(
    out: &mut Vec<SchemaFinding>,
    code: SchemaFindingCode,
    severity: SchemaSeverity,
    target: String,
    detail: String,
    remediation: String,
)
    ensures
        fviews(final(out)@) == fviews(old(out)@).push(
            fv(code, severity, target@, detail@, remediation@),
        ),
{
    out.push(SchemaFinding::new(code, severity, target, detail, remediation));
    proof {
        assert(fviews(out@) =~= fviews(old(out)@).push(
            fv(code, severity, target@, detail@, remediation@),
        ));
    }
}

// ── Config ───────────────────────────────────────────────────────────────

/// Configuration for the entry-header compiler.
#[derive(Debug, Clone, PartialEq, Eq)]
pub struct EntryHeaderCompilerConfig {
    /// In graduation mode, `Tbd` fields and unpassed criteria block.
    pub graduation_mode: bool,
    /// Require a size estimate.
    pub require_size_estimate: bool,
}

impl Default for EntryHeaderCompilerConfig {
    /// Lenient mode, size estimate required.
    fn default() -> (c: Self)
        ensures
            !c.graduation_mode,
            c.require_size_estimate,
    {
        EntryHeaderCompilerConfig { graduation_mode: false, require_size_estimate: true }
    }
}

impl EntryHeaderCompilerConfig {
    /// Toggle graduation mode.
    pub fn with_graduation_mode(self, on: bool) -> (c: Self)
        ensures
            c.graduation_mode == on,
            c.require_size_estimate == self.require_size_estimate,
    {
        EntryHeaderCompilerConfig { graduation_mode: on, require_size_estimate: self.require_size_estimate }
    }
}

/// The severity of a finding that escalates in graduation mode.
pub open spec fn escalating(cfg: EntryHeaderCompilerConfig) -> SchemaSeverity {
    if cfg.graduation_mode {
        SchemaSeverity::Block
    } else {
        SchemaSeverity::Warn
    }
}

fn escalating_severity(cfg: &EntryHeaderCompilerConfig) -> (s: SchemaSeverity)
    ensures
        s == escalating(*cfg),
{
    if cfg.graduation_mode {
        SchemaSeverity::Block
    } else {
        SchemaSeverity::Warn
    }
}

// ── Header findings ──────────────────────────────────────────────────────

/// Findings for one mandatory field.
pub open spec fn header_field_findings(
    cfg: EntryHeaderCompilerConfig,
    draft: EntryHeaderDraft,
    f: HeaderFieldId,
) -> Seq<SchemaFindingView> {
    match lookup(draft.fields@, f) {
        None => seq![
            fv(
                SchemaFindingCode::MissingMandatoryHeaderField,
                SchemaSeverity::Block,
                f.tag(),
                "mandatory header field `"@ + f.tag() + "` is absent"@,
                "set this field to a value or an explicit Tbd with a reason"@,
            ),
        ],
        Some(HeaderFieldValue::Provided(v)) => if is_blank(v@) {
            seq![
                fv(
                    SchemaFindingCode::EmptyHeaderValue,
                    SchemaSeverity::Block,
                    f.tag(),
                    "header field `"@ + f.tag() + "` is empty"@,
                    "provide a non-empty value"@,
                ),
            ]
        } else {
            Seq::empty()
        },
        Some(HeaderFieldValue::Tbd(r)) => if is_blank(r@) {
            seq![
                fv(
                    SchemaFindingCode::EmptyTbdReason,
                    SchemaSeverity::Block,
                    f.tag(),
                    "Tbd field `"@ + f.tag() + "` has no reason"@,
                    "give a reason for deferring this field"@,
                ),
            ]
        } else {
            seq![
                fv(
                    SchemaFindingCode::TbdMandatoryField,
                    escalating(cfg),
                    f.tag(),
                    "mandatory field `"@ + f.tag() + "` is still Tbd"@,
                    "resolve the Tbd before graduation"@,
                ),
            ]
        },
    }
}

/// Header findings for the first `k` mandatory fields.
pub open spec fn header_upto(
    cfg: EntryHeaderCompilerConfig,
    draft: EntryHeaderDraft,
    k: int,
) -> Seq<SchemaFindingView>
    decreases k,
{
    if k <= 0 {
        Seq::empty()
    } else {
        header_upto(cfg, draft, k - 1) + header_field_findings(cfg, draft, field_at(k - 1))
    }
}

/// Whether field `f` holds a non-blank provided value.
pub open spec fn is_provided(draft: EntryHeaderDraft, f: HeaderFieldId) -> bool {
    match lookup(draft.fields@, f) {
        Some(HeaderFieldValue::Provided(v)) => !is_blank(v@),
        _ => false,
    }
}

/// Whether field `f` is an explicit `Tbd`.
pub open spec fn is_tbd_field(draft: EntryHeaderDraft, f: HeaderFieldId) -> bool {
    match lookup(draft.fields@, f) {
        Some(HeaderFieldValue::Tbd(_)) => true,
        _ => false,
    }
}

/// Provided fields among the first `k` mandatory fields.
pub open spec fn provided_upto(draft: EntryHeaderDraft, k: int) -> nat
    decreases k,
{
    if k <= 0 {
        0
    } else {
        provided_upto(draft, k - 1) + if is_provided(draft, field_at(k - 1)) {
            1nat
        } else {
            0nat
        }
    }
}

/// `Tbd` fields among the first `k` mandatory fields.
pub open spec fn tbd_upto(draft: EntryHeaderDraft, k: int) -> nat
    decreases k,
{
    if k <= 0 {
        0
    } else {
        tbd_upto(draft, k - 1) + if is_tbd_field(draft, field_at(k - 1)) {
            1nat
        } else {
            0nat
        }
    }
}

// ── Graduation findings ──────────────────────────────────────────────────

/// Missing-artifact findings for the first `n` artifacts the bar requires.
pub open spec fn missing_artifacts_upto(t: GraduationCriteriaTemplate, n: int) -> Seq<
    SchemaFindingView,
>
    decreases n,
{
    if n <= 0 {
        Seq::empty()
    } else {
        let a = required_artifacts_spec(t.target_bar)[n - 1];
        missing_artifacts_upto(t, n - 1) + if criterion_lookup(t.criteria@, a) is None {
            seq![
                fv(
                    SchemaFindingCode::MissingRequiredGraduationArtifact,
                    SchemaSeverity::Block,
                    a.tag(),
                    "graduation template for "@ + t.target_bar.tag() + " omits the required `"@
                        + a.tag() + "` artifact"@,
                    "add a graduation criterion for this quality artifact"@,
                ),
            ]
        } else {
            Seq::empty()
        }
    }
}

/// Findings for one criterion.
pub open spec fn criterion_findings(
    cfg: EntryHeaderCompilerConfig,
    c: GraduationCriterion,
) -> Seq<SchemaFindingView> {
    let t = c.artifact.tag();
    (if c.ci_artifact_link is None {
        seq![
            fv(
                SchemaFindingCode::GraduationCriterionMissingCiLink,
                escalating(cfg),
                t,
                "`"@ + t + "` criterion has no CI artifact link"@,
                "link the CI artifact that backs this criterion"@,
            ),
        ]
    } else {
        Seq::empty()
    }) + match c.status {
        CriterionStatus::Passed => Seq::empty(),
        CriterionStatus::Failed => seq![
            fv(
                SchemaFindingCode::GraduationCriterionFailed,
                SchemaSeverity::Block,
                t,
                "`"@ + t + "` graduation criterion failed"@,
                "fix the failing criterion before promotion"@,
            ),
        ],
        _ => seq![
            fv(
                SchemaFindingCode::GraduationCriterionNotPassed,
                escalating(cfg),
                t,
                "`"@ + t + "` criterion is "@ + c.status.tag() + " (not passed)"@,
                "evaluate the criterion to Passed"@,
            ),
        ],
    }
}

/// Findings for the first `n` criteria.
pub open spec fn criteria_upto(
    cfg: EntryHeaderCompilerConfig,
    t: GraduationCriteriaTemplate,
    n: int,
) -> Seq<SchemaFindingView>
    decreases n,
{
    if n <= 0 {
        Seq::empty()
    } else {
        criteria_upto(cfg, t, n - 1) + criterion_findings(cfg, t.criteria@[n - 1])
    }
}

/// Passed criteria among the first `n`.
pub open spec fn passed_upto(t: GraduationCriteriaTemplate, n: int) -> nat
    decreases n,
{
    if n <= 0 {
        0
    } else {
        passed_upto(t, n - 1) + if t.criteria@[n - 1].status == CriterionStatus::Passed {
            1nat
        } else {
            0nat
        }
    }
}

/// Every graduation finding: missing artifacts, then per-criterion checks.
pub open spec fn graduation_findings(
    cfg: EntryHeaderCompilerConfig,
    t: GraduationCriteriaTemplate,
) -> Seq<SchemaFindingView> {
    missing_artifacts_upto(t, required_artifacts_spec(t.target_bar).len() as int) + criteria_upto(
        cfg,
        t,
        t.criteria@.len() as int,
    )
}

// ── Size findings ────────────────────────────────────────────────────────

/// Findings for the size estimate.
pub open spec fn size_findings(cfg: EntryHeaderCompilerConfig, size: Option<SizeEstimate>) -> Seq<
    SchemaFindingView,
> {
    match size {
        None => if cfg.require_size_estimate {
            seq![
                fv(
                    SchemaFindingCode::MissingSizeEstimate,
                    SchemaSeverity::Warn,
                    "size"@,
                    "no implementation-size estimate supplied"@,
                    "add a LOC estimate with a declared effort band"@,
                ),
            ]
        } else {
            Seq::empty()
        },
        Some(e) => if effort_band(e.loc) != e.declared_effort {
            seq![
                fv(
                    SchemaFindingCode::EffortBandMismatch,
                    SchemaSeverity::Warn,
                    "size"@,
                    "declared effort `"@ + e.declared_effort.tag()
                        + "` does not match the LOC-derived band `"@ + effort_band(e.loc).tag()
                        + "` ("@ + decimal(e.loc as nat) + " LOC)"@,
                    "reconcile the declared effort with the LOC estimate"@,
                ),
            ]
        } else {
            Seq::empty()
        },
    }
}

/// Every finding of a compilation, in report order.
pub open spec fn compile_findings(
    cfg: EntryHeaderCompilerConfig,
    draft: EntryHeaderDraft,
    t: GraduationCriteriaTemplate,
    size: Option<SizeEstimate>,
) -> Seq<SchemaFindingView> {
    header_upto(cfg, draft, 9) + graduation_findings(cfg, t) + size_findings(cfg, size)
}

/// Findings of severity `sev` among the first `n`.
pub open spec fn fseverity_count(vs: Seq<SchemaFindingView>, sev: SchemaSeverity, n: int) -> nat
    decreases n,
{
    if n <= 0 {
        0
    } else {
        fseverity_count(vs, sev, n - 1) + if vs[n - 1].severity == sev {
            1nat
        } else {
            0nat
        }
    }
}

/// Whether some finding has code `code`.
pub open spec fn has_code(vs: Seq<SchemaFindingView>, code: SchemaFindingCode) -> bool {
    exists|i: int| 0 <= i < vs.len() && (#[trigger] vs[i]).code == code
}

/// Whether every criterion passed with a CI link.
pub open spec fn all_passed_and_linked(t: GraduationCriteriaTemplate) -> bool {
    forall|i: int|
        0 <= i < t.criteria@.len() ==> (#[trigger] t.criteria@[i]).status == CriterionStatus::Passed
            && t.criteria@[i].ci_artifact_link is Some
}

// ── Executable checks ────────────────────────────────────────────────────

fn check_header(
    cfg: &EntryHeaderCompilerConfig,
    draft: &EntryHeaderDraft,
    findings: &mut Vec<SchemaFinding>,
) -> (counts: (usize, usize))
    ensures
        fviews(final(findings)@) == fviews(old(findings)@) + header_upto(*cfg, *draft, 9),
        counts.0 == provided_upto(*draft, 9),
        counts.1 == tbd_upto(*draft, 9),
{
    let all = HeaderFieldId::all();
    let mut provided: usize = 0;
    let mut tbd: usize = 0;
    let mut k: usize = 0;
    proof {
        assert(fviews(findings@) =~= fviews(old(findings)@) + header_upto(*cfg, *draft, 0));
    }
    while k < 9
        invariant
            k <= 9,
            all@.len() == 9,
            forall|m: int| 0 <= m < 9 ==> #[trigger] all@[m] == field_at(m),
            fviews(findings@) == fviews(old(findings)@) + header_upto(*cfg, *draft, k as int),
            provided == provided_upto(*draft, k as int),
            tbd == tbd_upto(*draft, k as int),
            provided <= k,
            tbd <= k,
        decreases 9 - k,
    {
        let field = all[k];
        let ghost before = fviews(findings@);
        match draft.get(field) {
            None => {
                push_finding(
                    findings,
                    SchemaFindingCode::MissingMandatoryHeaderField,
                    SchemaSeverity::Block,
                    String::from_str(field.as_str()),
                    cat3("mandatory header field `", field.as_str(), "` is absent"),
                    String::from_str("set this field to a value or an explicit Tbd with a reason"),
                );
            },
            Some(HeaderFieldValue::Provided(value)) => {
                if str_is_blank(value.as_str()) {
                    push_finding(
                        findings,
                        SchemaFindingCode::EmptyHeaderValue,
                        SchemaSeverity::Block,
                        String::from_str(field.as_str()),
                        cat3("header field `", field.as_str(), "` is empty"),
                        String::from_str("provide a non-empty value"),
                    );
                } else {
                    provided = provided + 1;
                }
            },
            Some(HeaderFieldValue::Tbd(reason)) => {
                tbd = tbd + 1;
                if str_is_blank(reason.as_str()) {
                    push_finding(
                        findings,
                        SchemaFindingCode::EmptyTbdReason,
                        SchemaSeverity::Block,
                        String::from_str(field.as_str()),
                        cat3("Tbd field `", field.as_str(), "` has no reason"),
                        String::from_str("give a reason for deferring this field"),
                    );
                } else {
                    push_finding(
                        findings,
                        SchemaFindingCode::TbdMandatoryField,
                        escalating_severity(cfg),
                        String::from_str(field.as_str()),
                        cat3("mandatory field `", field.as_str(), "` is still Tbd"),
                        String::from_str("resolve the Tbd before graduation"),
                    );
                }
            },
        }
        proof {
            assert(fviews(findings@) =~= before + header_field_findings(*cfg, *draft, field));
            assert(fviews(findings@) =~= fviews(old(findings)@) + header_upto(
                *cfg,
                *draft,
                k as int + 1,
            ));
        }
        k = k + 1;
    }
    (provided, tbd)
}

fn check_graduation(
    cfg: &EntryHeaderCompilerConfig,
    template: &GraduationCriteriaTemplate,
    findings: &mut Vec<SchemaFinding>,
) -> (passed: usize)
    ensures
        fviews(final(findings)@) == fviews(old(findings)@) + graduation_findings(*cfg, *template),
        passed == passed_upto(*template, template.criteria@.len() as int),
{
    let required = required_artifacts_for(template.target_bar);
    let mut i: usize = 0;
    proof {
        assert(fviews(findings@) =~= fviews(old(findings)@) + missing_artifacts_upto(*template, 0));
    }
    while i < required.len()
        invariant
            i <= required@.len(),
            required@ == required_artifacts_spec(template.target_bar),
            fviews(findings@) == fviews(old(findings)@) + missing_artifacts_upto(
                *template,
                i as int,
            ),
        decreases required@.len() - i,
    {
        let artifact = required[i];
        if template.criterion(artifact).is_none() {
            let detail = cat3(
                "graduation template for ",
                template.target_bar.as_str(),
                " omits the required `",
            );
            let detail = detail.concat(artifact.as_str());
            let detail = detail.concat("` artifact");
            push_finding(
                findings,
                SchemaFindingCode::MissingRequiredGraduationArtifact,
                SchemaSeverity::Block,
                String::from_str(artifact.as_str()),
                detail,
                String::from_str("add a graduation criterion for this quality artifact"),
            );
        }
        proof {
            assert(fviews(findings@) =~= fviews(old(findings)@) + missing_artifacts_upto(
                *template,
                i as int + 1,
            ));
        }
        i = i + 1;
    }
    let ghost mid = fviews(findings@);
    let mut passed: usize = 0;
    let mut j: usize = 0;
    proof {
        assert(fviews(findings@) =~= mid + criteria_upto(*cfg, *template, 0));
    }
    while j < template.criteria.len()
        invariant
            j <= template.criteria@.len(),
            fviews(findings@) == mid + criteria_upto(*cfg, *template, j as int),
            passed == passed_upto(*template, j as int),
            passed <= j,
        decreases template.criteria@.len() - j,
    {
        let criterion = &template.criteria[j];
        let target = criterion.artifact.as_str();
        let ghost before = fviews(findings@);
        if criterion.ci_artifact_link.is_none() {
            push_finding(
                findings,
                SchemaFindingCode::GraduationCriterionMissingCiLink,
                escalating_severity(cfg),
                String::from_str(target),
                cat3("`", target, "` criterion has no CI artifact link"),
                String::from_str("link the CI artifact that backs this criterion"),
            );
        }
        match criterion.status {
            CriterionStatus::Passed => {
                passed = passed + 1;
            },
            CriterionStatus::Failed => {
                push_finding(
                    findings,
                    SchemaFindingCode::GraduationCriterionFailed,
                    SchemaSeverity::Block,
                    String::from_str(target),
                    cat3("`", target, "` graduation criterion failed"),
                    String::from_str("fix the failing criterion before promotion"),
                );
            },
            _ => {
                let detail = cat3("`", target, "` criterion is ");
                let detail = detail.concat(criterion.status.as_str());
                let detail = detail.concat(" (not passed)");
                push_finding(
                    findings,
                    SchemaFindingCode::GraduationCriterionNotPassed,
                    escalating_severity(cfg),
                    String::from_str(target),
                    detail,
                    String::from_str("evaluate the criterion to Passed"),
                );
            },
        }
        proof {
            assert(fviews(findings@) =~= before + criterion_findings(*cfg, *criterion));
            assert(fviews(findings@) =~= mid + criteria_upto(*cfg, *template, j as int + 1));
        }
        j = j + 1;
    }
    passed
}

fn check_size(
    cfg: &EntryHeaderCompilerConfig,
    size: Option<&SizeEstimate>,
    findings: &mut Vec<SchemaFinding>,
) -> (band: Option<EffortSize>)
    ensures
        fviews(final(findings)@) == fviews(old(findings)@) + size_findings(
            *cfg,
            match size {
                None => None,
                Some(e) => Some(*e),
            },
        ),
        band == (match size {
            None => None,
            Some(e) => Some(effort_band(e.loc)),
        }),
{
    match size {
        None => {
            if cfg.require_size_estimate {
                push_finding(
                    findings,
                    SchemaFindingCode::MissingSizeEstimate,
                    SchemaSeverity::Warn,
                    String::from_str("size"),
                    String::from_str("no implementation-size estimate supplied"),
                    String::from_str("add a LOC estimate with a declared effort band"),
                );
            } else {
                proof {
                    assert(fviews(findings@) =~= fviews(old(findings)@) + Seq::<SchemaFindingView>::empty());
                }
            }
            None
        },
        Some(estimate) => {
            let band = estimate_effort_band(estimate.loc);
            if band != estimate.declared_effort {
                let detail = cat3(
                    "declared effort `",
                    estimate.declared_effort.as_str(),
                    "` does not match the LOC-derived band `",
                );
                let detail = detail.concat(band.as_str());
                let detail = detail.concat("` (");
                let loc_text = u64_to_string(estimate.loc as u64);
                let detail = detail.concat(loc_text.as_str());
                let detail = detail.concat(" LOC)");
                push_finding(
                    findings,
                    SchemaFindingCode::EffortBandMismatch,
                    SchemaSeverity::Warn,
                    String::from_str("size"),
                    detail,
                    String::from_str("reconcile the declared effort with the LOC estimate"),
                );
            } else {
                proof {
                    assert(fviews(findings@) =~= fviews(old(findings)@) + Seq::<SchemaFindingView>::empty());
                }
            }
            Some(band)
        },
    }
}

// ── Report ───────────────────────────────────────────────────────────────

/// Aggregate counts for an entry-header report.
#[derive(Debug, Clone, PartialEq, Eq)]
pub struct EntryHeaderSummary {
    /// Mandatory fields provided (non-empty, non-TBD).
    pub mandatory_provided: usize,
    /// Mandatory fields total.
    pub mandatory_total: usize,
    /// Fields marked `Tbd`.
    pub tbd_field_count: usize,
    /// Blocking findings.
    pub blocking_finding_count: usize,
    /// Advisory findings.
    pub advisory_finding_count: usize,
    /// Graduation criteria passed.
    pub criteria_passed: usize,
    /// Graduation criteria total.
    pub criteria_total: usize,
}

/// Deterministic JSON-stats artifact (content + checksum).
#[derive(Debug, Clone, PartialEq, Eq)]
pub struct EntryHeaderJsonStatsArtifact {
    /// Suggested relative output path.
    pub path: String,
    /// SHA-256 of `content`.
    pub sha256: String,
    /// Serialized JSON content.
    pub content: String,
}

/// Compiled entry-header report.
#[derive(Debug, Clone, PartialEq)]
pub struct EntryHeaderReport {
    /// Schema version constant.
    pub schema_version: String,
    /// Deterministic report id.
    pub report_id: String,
    /// Configuration used.
    pub config: EntryHeaderCompilerConfig,
    /// Entry id.
    pub entry_id: String,
    /// Findings.
    pub findings: Vec<SchemaFinding>,
    /// Aggregate summary.
    pub summary: EntryHeaderSummary,
    /// LOC-derived effort band, if a size estimate was supplied.
    pub effort_band: Option<EffortSize>,
    /// EV penalty for the effort band, in tenths of an EV point.
    pub effort_ev_penalty_tenths: Option<u32>,
    /// Whether the primitive can progress (complete header, no blocking issues).
    pub can_progress: bool,
    /// Whether the primitive can graduate (criteria passed, no TBD).
    pub can_graduate: bool,
    /// Deterministic JSON-stats artifact.
    pub exported_json_stats: EntryHeaderJsonStatsArtifact,
    /// Replay command for the report.
    pub replay_command: String,
}

/// The remediation clauses of the blocking findings among the first `n`.
pub open spec fn fremediations_upto(vs: Seq<SchemaFindingView>, n: int) -> Seq<Seq<char>>
    decreases n,
{
    if n <= 0 {
        Seq::empty()
    } else {
        fremediations_upto(vs, n - 1) + if vs[n - 1].severity == SchemaSeverity::Block {
            seq![vs[n - 1].remediation]
        } else {
            Seq::empty()
        }
    }
}

impl EntryHeaderReport {
    /// Every blocking remediation clause, in report order.
    pub fn blocking_remediations(&self) -> (out: Vec<String>)
        ensures
            string_views(out@) == fremediations_upto(
                fviews(self.findings@),
                self.findings@.len() as int,
            ),
    {
        let ghost vs = fviews(self.findings@);
        let mut out: Vec<String> = Vec::new();
        let mut i: usize = 0;
        proof {
            assert(string_views(out@) =~= fremediations_upto(vs, 0));
        }
        while i < self.findings.len()
            invariant
                i <= self.findings@.len(),
                vs == fviews(self.findings@),
                string_views(out@) == fremediations_upto(vs, i as int),
            decreases self.findings@.len() - i,
        {
            proof {
                assert(vs[i as int] == self.findings@[i as int]@);
            }
            if self.findings[i].severity == SchemaSeverity::Block {
                out.push(self.findings[i].remediation.clone());
            }
            proof {
                assert(string_views(out@) =~= fremediations_upto(vs, i as int + 1));
            }
            i = i + 1;
        }
        out
    }

    /// Attach rendered stats content, keeping the checksum consistent.
    pub fn with_json_stats(self, content: String) -> (r: EntryHeaderReport)
        ensures
            r == (EntryHeaderReport { exported_json_stats: r.exported_json_stats, ..self }),
            r.exported_json_stats.path == self.exported_json_stats.path,
            r.exported_json_stats.content@ == content@,
            r.exported_json_stats.sha256@ == hex_of(sha256_spec(utf8_of(content@))),
    {
        let sha = sha256_hex_of_text(content.as_str());
        let mut r = self;
        r.exported_json_stats.sha256 = sha;
        r.exported_json_stats.content = content;
        r
    }
}

// ── Report identity ──────────────────────────────────────────────────────

/// Identity text of a header value.
pub open spec fn value_identity(v: HeaderFieldValue) -> Seq<char> {
    match v {
        HeaderFieldValue::Provided(s) => "P"@ + field(s@),
        HeaderFieldValue::Tbd(s) => "T"@ + field(s@),
    }
}

/// Identity text of the first `n` header fields.
pub open spec fn fields_identity(d: EntryHeaderDraft, n: int) -> Seq<char>
    decreases n,
{
    if n <= 0 {
        Seq::empty()
    } else {
        fields_identity(d, n - 1) + field(d.fields@[n - 1].id.tag()) + value_identity(
            d.fields@[n - 1].value,
        )
    }
}

/// Identity text of the first `n` criteria.
pub open spec fn criteria_identity(t: GraduationCriteriaTemplate, n: int) -> Seq<char>
    decreases n,
{
    if n <= 0 {
        Seq::empty()
    } else {
        criteria_identity(t, n - 1) + field(t.criteria@[n - 1].artifact.tag()) + opt_field(
            t.criteria@[n - 1].ci_artifact_link,
        ) + field(t.criteria@[n - 1].status.tag())
    }
}

/// A flag as one character.
pub open spec fn flag(b: bool) -> Seq<char> {
    if b {
        "1"@
    } else {
        "0"@
    }
}

/// The identity text the report id hashes.
pub open spec fn header_identity(
    cfg: EntryHeaderCompilerConfig,
    d: EntryHeaderDraft,
    t: GraduationCriteriaTemplate,
    size: Option<SizeEstimate>,
) -> Seq<char> {
    flag(cfg.graduation_mode) + flag(cfg.require_size_estimate) + field(d.entry_id@) + field(
        decimal(d.fields@.len()),
    ) + fields_identity(d, d.fields@.len() as int) + field(t.target_bar.tag()) + field(
        decimal(t.criteria@.len()),
    ) + criteria_identity(t, t.criteria@.len() as int) + match size {
        None => "~"@,
        Some(e) => field(decimal(e.loc as nat)) + field(e.declared_effort.tag()),
    }
}

/// The deterministic report id.
pub open spec fn header_report_id(
    cfg: EntryHeaderCompilerConfig,
    d: EntryHeaderDraft,
    t: GraduationCriteriaTemplate,
    size: Option<SizeEstimate>,
) -> Seq<char> {
    "entry-header-"@ + content_id(utf8_of(header_identity(cfg, d, t, size)))
}

fn push_flag(out: &mut String, b: bool)
    ensures
        final(out)@ == old(out)@ + flag(b),
{
    if b {
        push_str(out, "1");
    } else {
        push_str(out, "0");
    }
}

fn push_count(out: &mut String, n: usize)
    ensures
        final(out)@ == old(out)@ + field(decimal(n as nat)),
{
    let text = usize_to_string(n);
    push_field(out, text.as_str());
}

fn identity_text(
    cfg: &EntryHeaderCompilerConfig,
    d: &EntryHeaderDraft,
    t: &GraduationCriteriaTemplate,
    size: Option<&SizeEstimate>,
) -> (s: String)
    ensures
        s@ == header_identity(
            *cfg,
            *d,
            *t,
            match size {
                None => None,
                Some(e) => Some(*e),
            },
        ),
{
    let mut out = String::new();
    push_flag(&mut out, cfg.graduation_mode);
    push_flag(&mut out, cfg.require_size_estimate);
    push_field(&mut out, d.entry_id.as_str());
    push_count(&mut out, d.fields.len());
    let ghost b1 = out@;
    let mut i: usize = 0;
    proof {
        assert(out@ =~= b1 + fields_identity(*d, 0));
    }
    while i < d.fields.len()
        invariant
            i <= d.fields@.len(),
            out@ == b1 + fields_identity(*d, i as int),
        decreases d.fields@.len() - i,
    {
        let f = &d.fields[i];
        push_field(&mut out, f.id.as_str());
        match &f.value {
            HeaderFieldValue::Provided(s) => {
                push_str(&mut out, "P");
                push_field(&mut out, s.as_str());
            },
            HeaderFieldValue::Tbd(s) => {
                push_str(&mut out, "T");
                push_field(&mut out, s.as_str());
            },
        }
        proof {
            assert(out@ =~= b1 + fields_identity(*d, i as int + 1));
        }
        i = i + 1;
    }
    let ghost b2 = out@;
    push_field(&mut out, t.target_bar.as_str());
    push_count(&mut out, t.criteria.len());
    let ghost b3 = out@;
    let mut j: usize = 0;
    proof {
        assert(out@ =~= b3 + criteria_identity(*t, 0));
    }
    while j < t.criteria.len()
        invariant
            j <= t.criteria@.len(),
            out@ == b3 + criteria_identity(*t, j as int),
        decreases t.criteria@.len() - j,
    {
        let c = &t.criteria[j];
        push_field(&mut out, c.artifact.as_str());
        push_opt_field(&mut out, &c.ci_artifact_link);
        push_field(&mut out, c.status.as_str());
        proof {
            assert(out@ =~= b3 + criteria_identity(*t, j as int + 1));
        }
        j = j + 1;
    }
    let ghost b4 = out@;
    match size {
        None => push_str(&mut out, "~"),
        Some(e) => {
            let loc_text = u64_to_string(e.loc as u64);
            push_field(&mut out, loc_text.as_str());
            push_field(&mut out, e.declared_effort.as_str());
        },
    }
    proof {
        assert(out@ =~= header_identity(
            *cfg,
            *d,
            *t,
            match size {
                None => None,
                Some(e) => Some(*e),
            },
        ));
    }
    out
}

// ── Compiler ─────────────────────────────────────────────────────────────

/// Compiles and validates entry headers, graduation templates, and size
/// estimates.
#[derive(Debug, Clone)]
pub struct EntryHeaderCompiler {
    config: EntryHeaderCompilerConfig,
}

impl Default for EntryHeaderCompiler {
    /// A compiler with the default configuration.
    fn default() -> (c: Self)
        ensures
            !c.config_view().graduation_mode,
            c.config_view().require_size_estimate,
    {
        EntryHeaderCompiler { config: EntryHeaderCompilerConfig::default() }
    }
}

/// The bool rendering of `Display`.
pub open spec fn bool_text(b: bool) -> Seq<char> {
    if b {
        "true"@
    } else {
        "false"@
    }
}

impl EntryHeaderCompiler {
    /// The compiler's configuration.
    pub closed spec fn config_view(&self) -> EntryHeaderCompilerConfig {
        self.config
    }

    /// Build a compiler from configuration.
    pub fn new(config: EntryHeaderCompilerConfig) -> (c: Self)
        ensures
            c.config_view() == config,
    {
        EntryHeaderCompiler { config }
    }

    /// Borrow the configuration.
    pub fn config(&self) -> (c: &EntryHeaderCompilerConfig)
        ensures
            *c == self.config_view(),
    {
        &self.config
    }

    /// Compile a draft header, a graduation template and an optional size
    /// estimate into a deterministic report.
    pub fn compile(
        &self,
        draft: &EntryHeaderDraft,
        graduation: &GraduationCriteriaTemplate,
        size: Option<&SizeEstimate>,
    ) -> (r: EntryHeaderReport)
        ensures
            ({
                let cfg = self.config_view();
                let sz = match size {
                    None => None,
                    Some(e) => Some(*e),
                };
                let vs = fviews(r.findings@);
                let blocking = fseverity_count(vs, SchemaSeverity::Block, vs.len() as int);
                &&& r.schema_version@ == ENTRY_HEADER_SCHEMA_VERSION@
                &&& r.report_id@ == header_report_id(cfg, *draft, *graduation, sz)
                &&& r.config == cfg
                &&& r.entry_id@ == draft.entry_id@
                &&& vs == compile_findings(cfg, *draft, *graduation, sz)
                &&& r.summary.mandatory_provided == provided_upto(*draft, 9)
                &&& r.summary.mandatory_total == 9
                &&& r.summary.tbd_field_count == tbd_upto(*draft, 9)
                &&& r.summary.blocking_finding_count == blocking
                &&& r.summary.advisory_finding_count == vs.len() - blocking
                &&& r.summary.criteria_passed == passed_upto(
                    *graduation,
                    graduation.criteria@.len() as int,
                )
                &&& r.summary.criteria_total == graduation.criteria@.len()
                &&& r.effort_band == (match size {
                    None => None,
                    Some(e) => Some(effort_band(e.loc)),
                })
                &&& r.effort_ev_penalty_tenths == (match size {
                    None => None,
                    Some(e) => Some(penalty_tenths(effort_band(e.loc))),
                })
                &&& r.can_progress == (blocking == 0)
                &&& r.can_graduate == (r.can_progress && tbd_upto(*draft, 9) == 0 && !has_code(
                    vs,
                    SchemaFindingCode::MissingRequiredGraduationArtifact,
                ) && graduation.criteria@.len() > 0 && all_passed_and_linked(*graduation))
                &&& r.exported_json_stats.path@ == r.report_id@ + "/entry_header_stats.json"@
                &&& r.exported_json_stats.content@.len() == 0
                &&& r.exported_json_stats.sha256@ == hex_of(
                    sha256_spec(utf8_of(r.exported_json_stats.content@)),
                )
                &&& r.replay_command@ == "doctor_frankentui entry-header --report-id "@
                    + r.report_id@ + " --entry "@ + draft.entry_id@ + " --graduation-mode "@
                    + bool_text(cfg.graduation_mode)
            }),
    {
        let mut findings: Vec<SchemaFinding> = Vec::new();
        let (provided, tbd) = check_header(&self.config, draft, &mut findings);
        let passed = check_graduation(&self.config, graduation, &mut findings);
        let band = check_size(&self.config, size, &mut findings);
        let ghost vs = fviews(findings@);
        proof {
            assert(vs =~= compile_findings(
                self.config,
                *draft,
                *graduation,
                match size {
                    None => None,
                    Some(e) => Some(*e),
                },
            ));
        }
        let mut blocking: usize = 0;
        let mut template_complete = true;
        let mut i: usize = 0;
        while i < findings.len()
            invariant
                i <= findings@.len(),
                vs == fviews(findings@),
                blocking == fseverity_count(vs, SchemaSeverity::Block, i as int),
                blocking <= i,
                template_complete == !exists|j: int|
                    0 <= j < i && (#[trigger] vs[j]).code
                        == SchemaFindingCode::MissingRequiredGraduationArtifact,
            decreases findings@.len() - i,
        {
            proof {
                assert(vs[i as int] == findings@[i as int]@);
            }
            if findings[i].severity == SchemaSeverity::Block {
                blocking = blocking + 1;
            }
            if findings[i].code == SchemaFindingCode::MissingRequiredGraduationArtifact {
                template_complete = false;
            }
            proof {
                if template_complete {
                    assert forall|j: int| 0 <= j < i + 1 implies (#[trigger] vs[j]).code
                        != SchemaFindingCode::MissingRequiredGraduationArtifact by {
                        if j < i {
                        }
                    }
                }
            }
            i = i + 1;
        }
        let advisory = findings.len() - blocking;
        let mut all_passed = true;
        let mut c: usize = 0;
        while c < graduation.criteria.len()
            invariant
                c <= graduation.criteria@.len(),
                all_passed == forall|j: int|
                    0 <= j < c ==> (#[trigger] graduation.criteria@[j]).status
                        == CriterionStatus::Passed && graduation.criteria@[j].ci_artifact_link is Some,
            decreases graduation.criteria@.len() - c,
        {
            let ok = graduation.criteria[c].status == CriterionStatus::Passed
                && graduation.criteria[c].ci_artifact_link.is_some();
            if !ok {
                all_passed = false;
            }
            proof {
                if all_passed {
                    assert forall|j: int| 0 <= j < c + 1 implies (#[trigger] graduation.criteria@[j]).status
                        == CriterionStatus::Passed && graduation.criteria@[j].ci_artifact_link is Some by {
                        if j < c {
                        }
                    }
                }
            }
            c = c + 1;
        }
        let can_progress = blocking == 0;
        let can_graduate = can_progress && tbd == 0 && template_complete
            && graduation.criteria.len() > 0 && all_passed;
        let penalty = match band {
            None => None,
            Some(b) => Some(crate::entry_header_compiler::ev_effort_penalty_tenths(b)),
        };
        let summary = EntryHeaderSummary {
            mandatory_provided: provided,
            mandatory_total: 9,
            tbd_field_count: tbd,
            blocking_finding_count: blocking,
            advisory_finding_count: advisory,
            criteria_passed: passed,
            criteria_total: graduation.criteria.len(),
        };
        let identity = identity_text(&self.config, draft, graduation, size);
        let short = text_short_id(identity.as_str());
        let report_id = cat("entry-header-", short.as_str());
        let path = cat(report_id.as_str(), "/entry_header_stats.json");
        let content = String::new();
        let sha = sha256_hex_of_text(content.as_str());
        let mode = if self.config.graduation_mode {
            "true"
        } else {
            "false"
        };
        let replay = cat3(
            "doctor_frankentui entry-header --report-id ",
            report_id.as_str(),
            " --entry ",
        );
        let replay = replay.concat(draft.entry_id.as_str());
        let replay = replay.concat(" --graduation-mode ");
        let replay = replay.concat(mode);
        EntryHeaderReport {
            schema_version: String::from_str(ENTRY_HEADER_SCHEMA_VERSION),
            report_id,
            config: EntryHeaderCompilerConfig {
                graduation_mode: self.config.graduation_mode,
                require_size_estimate: self.config.require_size_estimate,
            },
            entry_id: draft.entry_id.clone(),
            findings,
            summary,
            effort_band: band,
            effort_ev_penalty_tenths: penalty,
            can_progress,
            can_graduate,
            exported_json_stats: EntryHeaderJsonStatsArtifact { path, sha256: sha, content },
            replay_command: replay,
        }
    }
}


// ── Laws ─────────────────────────────────────────────────────────────────

/// Whether a mandatory field lets the entry progress: a non-blank value, or
/// (outside graduation mode) an explicit `Tbd` with a non-blank reason.
pub open spec fn field_acceptable(cfg: EntryHeaderCompilerConfig, draft: EntryHeaderDraft, f: HeaderFieldId) -> bool {
    match lookup(draft.fields@, f) {
        Some(HeaderFieldValue::Provided(v)) => !is_blank(v@),
        Some(HeaderFieldValue::Tbd(r)) => !is_blank(r@) && !cfg.graduation_mode,
        None => false,
    }
}

proof fn lemma_block_counted(vs: Seq<SchemaFindingView>, n: int, i: int)
    requires
        0 <= i < n <= vs.len(),
        vs[i].severity == SchemaSeverity::Block,
    ensures
        fseverity_count(vs, SchemaSeverity::Block, n) > 0,
    decreases n,
{
    if i < n - 1 {
        lemma_block_counted(vs, n - 1, i);
    }
}

proof fn lemma_header_prefix(cfg: EntryHeaderCompilerConfig, draft: EntryHeaderDraft, m: int, n: int)
    requires
        0 <= m <= n,
    ensures
        header_upto(cfg, draft, m).len() <= header_upto(cfg, draft, n).len(),
        forall|i: int|
            0 <= i < header_upto(cfg, draft, m).len() ==> #[trigger] header_upto(cfg, draft, n)[i]
                == header_upto(cfg, draft, m)[i],
    decreases n - m,
{
    if m < n {
        lemma_header_prefix(cfg, draft, m, n - 1);
    }
}

proof fn lemma_criteria_prefix(cfg: EntryHeaderCompilerConfig, t: GraduationCriteriaTemplate, m: int, n: int)
    requires
        0 <= m <= n,
    ensures
        criteria_upto(cfg, t, m).len() <= criteria_upto(cfg, t, n).len(),
        forall|i: int|
            0 <= i < criteria_upto(cfg, t, m).len() ==> #[trigger] criteria_upto(cfg, t, n)[i]
                == criteria_upto(cfg, t, m)[i],
    decreases n - m,
{
    if m < n {
        lemma_criteria_prefix(cfg, t, m, n - 1);
    }
}

/// A mandatory header field that is absent, blank, or deferred without a
/// reason blocks progression, whatever the graduation template and size
/// estimate; in graduation mode a deferred field blocks as well.
pub proof fn law_incomplete_header_blocks_progression(
    cfg: EntryHeaderCompilerConfig,
    draft: EntryHeaderDraft,
    t: GraduationCriteriaTemplate,
    size: Option<SizeEstimate>,
    k: int,
)
    requires
        0 <= k < 9,
        !field_acceptable(cfg, draft, field_at(k)),
    ensures
        fseverity_count(
            compile_findings(cfg, draft, t, size),
            SchemaSeverity::Block,
            compile_findings(cfg, draft, t, size).len() as int,
        ) > 0,
{
    let vs = compile_findings(cfg, draft, t, size);
    let before = header_upto(cfg, draft, k);
    let hf = header_field_findings(cfg, draft, field_at(k));
    assert(hf.len() == 1 && hf[0].severity == SchemaSeverity::Block);
    assert(header_upto(cfg, draft, k + 1) == before + hf);
    let idx = before.len() as int;
    assert(header_upto(cfg, draft, k + 1)[idx] == hf[0]);
    lemma_header_prefix(cfg, draft, k + 1, 9);
    let h9 = header_upto(cfg, draft, 9);
    assert(h9[idx] == hf[0]);
    assert(vs == h9 + graduation_findings(cfg, t) + size_findings(cfg, size));
    assert(vs[idx] == h9[idx]);
    lemma_block_counted(vs, vs.len() as int, idx);
}

/// In graduation mode, a graduation criterion that has not passed blocks
/// progression, whatever the header and size estimate.
pub proof fn law_unpassed_criterion_blocks_in_graduation_mode(
    cfg: EntryHeaderCompilerConfig,
    draft: EntryHeaderDraft,
    t: GraduationCriteriaTemplate,
    size: Option<SizeEstimate>,
    j: int,
)
    requires
        cfg.graduation_mode,
        0 <= j < t.criteria@.len(),
        t.criteria@[j].status != CriterionStatus::Passed,
    ensures
        fseverity_count(
            compile_findings(cfg, draft, t, size),
            SchemaSeverity::Block,
            compile_findings(cfg, draft, t, size).len() as int,
        ) > 0,
{
    let vs = compile_findings(cfg, draft, t, size);
    let c = t.criteria@[j];
    let cf = criterion_findings(cfg, c);
    let link = if c.ci_artifact_link is None {
        1int
    } else {
        0int
    };
    assert(cf.len() == link + 1);
    assert(cf[link].severity == SchemaSeverity::Block);
    let before = criteria_upto(cfg, t, j);
    assert(criteria_upto(cfg, t, j + 1) == before + cf);
    let at = before.len() + link;
    assert(criteria_upto(cfg, t, j + 1)[at] == cf[link]);
    lemma_criteria_prefix(cfg, t, j + 1, t.criteria@.len() as int);
    let call = criteria_upto(cfg, t, t.criteria@.len() as int);
    assert(call[at] == cf[link]);
    let missing = missing_artifacts_upto(t, required_artifacts_spec(t.target_bar).len() as int);
    let g = graduation_findings(cfg, t);
    assert(g == missing + call);
    assert(g[missing.len() + at] == cf[link]);
    let h9 = header_upto(cfg, draft, 9);
    let idx = h9.len() + missing.len() + at;
    assert(vs == h9 + g + size_findings(cfg, size));
    assert(vs[idx] == g[missing.len() + at]);
    lemma_block_counted(vs, vs.len() as int, idx);
}

/// In graduation mode, a graduation criterion without a CI artifact link
/// blocks progression whatever its status: compilation reports a blocking
/// GraduationCriterionMissingCiLink finding for it.
pub proof fn law_missing_ci_link_blocks_in_graduation_mode(
    cfg: EntryHeaderCompilerConfig,
    draft: EntryHeaderDraft,
    t: GraduationCriteriaTemplate,
    size: Option<SizeEstimate>,
    j: int,
)
    requires
        cfg.graduation_mode,
        0 <= j < t.criteria@.len(),
        t.criteria@[j].ci_artifact_link is None,
    ensures
        exists|i: int|
            0 <= i < compile_findings(cfg, draft, t, size).len() && (#[trigger] compile_findings(
                cfg,
                draft,
                t,
                size,
            )[i]).code == SchemaFindingCode::GraduationCriterionMissingCiLink && compile_findings(
                cfg,
                draft,
                t,
                size,
            )[i].severity == SchemaSeverity::Block,
        fseverity_count(
            compile_findings(cfg, draft, t, size),
            SchemaSeverity::Block,
            compile_findings(cfg, draft, t, size).len() as int,
        ) > 0,
{
    let vs = compile_findings(cfg, draft, t, size);
    let c = t.criteria@[j];
    let cf = criterion_findings(cfg, c);
    assert(cf[0].code == SchemaFindingCode::GraduationCriterionMissingCiLink);
    assert(cf[0].severity == SchemaSeverity::Block);
    let before = criteria_upto(cfg, t, j);
    assert(criteria_upto(cfg, t, j + 1) == before + cf);
    let at = before.len() as int;
    assert(criteria_upto(cfg, t, j + 1)[at] == cf[0]);
    lemma_criteria_prefix(cfg, t, j + 1, t.criteria@.len() as int);
    let call = criteria_upto(cfg, t, t.criteria@.len() as int);
    assert(call[at] == cf[0]);
    let missing = missing_artifacts_upto(t, required_artifacts_spec(t.target_bar).len() as int);
    let g = graduation_findings(cfg, t);
    assert(g == missing + call);
    assert(g[missing.len() + at] == cf[0]);
    let h9 = header_upto(cfg, draft, 9);
    let idx = h9.len() + missing.len() + at;
    assert(vs == h9 + g + size_findings(cfg, size));
    assert(vs[idx] == g[missing.len() + at]);
    assert(vs[idx].code == SchemaFindingCode::GraduationCriterionMissingCiLink);
    lemma_block_counted(vs, vs.len() as int, idx);
}

} // verus!
