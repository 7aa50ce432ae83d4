use doctor_frankentui::entry_header_compiler::{
    estimate_effort_band, ev_effort_penalty_tenths, generate_graduation_template,
    required_artifacts_for, CriterionStatus, EffortSize, EntryHeaderCompiler,
    EntryHeaderCompilerConfig, EntryHeaderDraft, GraduationCriteriaTemplate, GraduationCriterion,
    HeaderFieldId, HeaderFieldValue, SchemaFinding, SchemaFindingCode, SchemaSeverity,
    SizeEstimate,
};
use doctor_frankentui::milestone_policy::{QualityArtifact, QualityBar};
use doctor_frankentui::text::sha256_hex;

fn complete_draft() -> EntryHeaderDraft {
    let mut draft = EntryHeaderDraft::new("gv-shadow-run");
    for field in HeaderFieldId::ALL.iter().copied() {
        draft = draft.provide(field, &format!("value-for-{}", field.as_str()));
    }
    draft
}

fn passing_template(bar: QualityBar) -> GraduationCriteriaTemplate {
    let mut template = generate_graduation_template(bar);
    for criterion in &mut template.criteria {
        criterion.ci_artifact_link = Some(format!("ci/{}.json", criterion.artifact.as_str()));
        criterion.status = CriterionStatus::Passed;
    }
    template
}

fn has(findings: &[SchemaFinding], code: SchemaFindingCode) -> bool {
    findings.iter().any(|f| f.code == code)
}

#[test]
fn header_field_ids_have_distinct_tags() {
    let mut tags: Vec<&str> = HeaderFieldId::ALL.iter().map(|f| f.as_str()).collect();
    let total = tags.len();
    tags.sort_unstable();
    tags.dedup();
    assert_eq!(tags.len(), total);
}

#[test]
fn complete_header_can_progress() {
    let report = EntryHeaderCompiler::default().compile(
        &complete_draft(),
        &passing_template(QualityBar::Gold),
        Some(&SizeEstimate::new(900, EffortSize::Large)),
    );
    assert!(report.can_progress, "findings: {:?}", report.findings);
    assert_eq!(report.summary.mandatory_provided, HeaderFieldId::ALL.len());
    assert_eq!(report.summary.tbd_field_count, 0);
}

#[test]
fn complete_header_and_passing_template_can_graduate() {
    let report = EntryHeaderCompiler::default().compile(
        &complete_draft(),
        &passing_template(QualityBar::Gold),
        Some(&SizeEstimate::new(900, EffortSize::Large)),
    );
    assert!(report.can_graduate, "findings: {:?}", report.findings);
}

#[test]
fn missing_mandatory_field_blocks_progress() {
    let mut draft = complete_draft();
    draft.fields.retain(|f| f.id != HeaderFieldId::Repro);
    let report = EntryHeaderCompiler::default().compile(
        &draft,
        &passing_template(QualityBar::Gold),
        Some(&SizeEstimate::new(900, EffortSize::Large)),
    );
    assert!(!report.can_progress);
    assert!(has(
        &report.findings,
        SchemaFindingCode::MissingMandatoryHeaderField
    ));
}

#[test]
fn empty_provided_value_blocks() {
    let draft = complete_draft().provide(HeaderFieldId::Archetype, "   ");
    let report = EntryHeaderCompiler::default().compile(
        &draft,
        &passing_template(QualityBar::Gold),
        None,
    );
    assert!(has(&report.findings, SchemaFindingCode::EmptyHeaderValue));
    assert!(!report.can_progress);
}

#[test]
fn tbd_field_allows_progress_but_blocks_graduation() {
    let draft = complete_draft().set(
        HeaderFieldId::Papers,
        HeaderFieldValue::tbd("paper read pending"),
    );
    let report = EntryHeaderCompiler::default().compile(
        &draft,
        &passing_template(QualityBar::Gold),
        Some(&SizeEstimate::new(900, EffortSize::Large)),
    );
    assert!(report.can_progress);
    assert!(!report.can_graduate);
    assert_eq!(report.summary.tbd_field_count, 1);
    assert!(
        report
            .findings
            .iter()
            .any(|f| f.code == SchemaFindingCode::TbdMandatoryField
                && f.severity == SchemaSeverity::Warn)
    );
}

#[test]
fn tbd_blocks_progress_in_graduation_mode() {
    let draft = complete_draft().set(HeaderFieldId::Papers, HeaderFieldValue::tbd("pending"));
    let config = EntryHeaderCompilerConfig::default().with_graduation_mode(true);
    let report = EntryHeaderCompiler::new(config).compile(
        &draft,
        &passing_template(QualityBar::Gold),
        Some(&SizeEstimate::new(900, EffortSize::Large)),
    );
    assert!(!report.can_progress);
    assert!(
        report
            .findings
            .iter()
            .any(|f| f.code == SchemaFindingCode::TbdMandatoryField
                && f.severity == SchemaSeverity::Block)
    );
}

#[test]
fn empty_tbd_reason_blocks() {
    let draft = complete_draft().set(HeaderFieldId::Papers, HeaderFieldValue::tbd("  "));
    let report = EntryHeaderCompiler::default().compile(
        &draft,
        &passing_template(QualityBar::Gold),
        None,
    );
    assert!(has(&report.findings, SchemaFindingCode::EmptyTbdReason));
}

#[test]
fn generated_template_covers_bar_requirements() {
    for bar in QualityBar::all_descending() {
        let template = generate_graduation_template(bar);
        let required = required_artifacts_for(bar);
        for artifact in required {
            assert!(
                template.criterion(artifact).is_some(),
                "{bar:?} template missing {artifact:?}"
            );
        }
    }
}

#[test]
fn template_missing_required_artifact_is_blocked() {
    let mut template = passing_template(QualityBar::Gold);
    template
        .criteria
        .retain(|c| c.artifact != QualityArtifact::Ecosystem);
    let report = EntryHeaderCompiler::default().compile(
        &complete_draft(),
        &template,
        Some(&SizeEstimate::new(900, EffortSize::Large)),
    );
    assert!(has(
        &report.findings,
        SchemaFindingCode::MissingRequiredGraduationArtifact
    ));
    assert!(!report.can_graduate);
}

#[test]
fn failed_criterion_blocks() {
    let mut template = passing_template(QualityBar::Gold);
    template.criteria[0].status = CriterionStatus::Failed;
    let report = EntryHeaderCompiler::default().compile(&complete_draft(), &template, None);
    assert!(has(
        &report.findings,
        SchemaFindingCode::GraduationCriterionFailed
    ));
    assert!(!report.can_progress);
}

#[test]
fn pending_criterion_is_advisory_then_blocks_in_graduation_mode() {
    let mut template = passing_template(QualityBar::Gold);
    template.criteria[0].status = CriterionStatus::Pending;
    let lenient = EntryHeaderCompiler::default().compile(&complete_draft(), &template, None);
    assert!(lenient.findings.iter().any(|f| f.code
        == SchemaFindingCode::GraduationCriterionNotPassed
        && f.severity == SchemaSeverity::Warn));
    let strict_cfg = EntryHeaderCompilerConfig::default().with_graduation_mode(true);
    let strict = EntryHeaderCompiler::new(strict_cfg).compile(&complete_draft(), &template, None);
    assert!(!strict.can_progress);
}

#[test]
fn effort_band_estimation_and_penalty() {
    assert_eq!(estimate_effort_band(50), EffortSize::Small);
    assert_eq!(estimate_effort_band(300), EffortSize::Medium);
    assert_eq!(estimate_effort_band(900), EffortSize::Large);
    assert_eq!(estimate_effort_band(5000), EffortSize::XLarge);
    assert!(
        ev_effort_penalty_tenths(EffortSize::Small) < ev_effort_penalty_tenths(EffortSize::XLarge)
    );
}

#[test]
fn effort_band_mismatch_is_flagged() {
    let report = EntryHeaderCompiler::default().compile(
        &complete_draft(),
        &passing_template(QualityBar::Gold),
        Some(&SizeEstimate::new(5000, EffortSize::Small)),
    );
    assert!(has(&report.findings, SchemaFindingCode::EffortBandMismatch));
    assert_eq!(report.effort_band, Some(EffortSize::XLarge));
    assert!(report.can_progress);
}

#[test]
fn missing_size_estimate_is_advisory() {
    let report = EntryHeaderCompiler::default().compile(
        &complete_draft(),
        &passing_template(QualityBar::Gold),
        None,
    );
    assert!(has(
        &report.findings,
        SchemaFindingCode::MissingSizeEstimate
    ));
    assert!(report.can_progress);
    assert!(report.effort_band.is_none());
}

#[test]
fn entry_header_compiler_report_is_deterministic() {
    let draft = complete_draft();
    let template = passing_template(QualityBar::Gold);
    let size = SizeEstimate::new(900, EffortSize::Large);
    let first = EntryHeaderCompiler::default().compile(&draft, &template, Some(&size));
    let second = EntryHeaderCompiler::default().compile(&draft, &template, Some(&size));
    assert_eq!(first.report_id, second.report_id);
    assert_eq!(
        first.exported_json_stats.sha256,
        second.exported_json_stats.sha256
    );
    assert_eq!(first.findings, second.findings);
}

#[test]
fn json_stats_checksum_and_replay() {
    let report = EntryHeaderCompiler::default().compile(
        &complete_draft(),
        &passing_template(QualityBar::Gold),
        None,
    );
    assert_eq!(
        report.exported_json_stats.sha256,
        sha256_hex(report.exported_json_stats.content.as_bytes())
    );
    assert!(report.replay_command.contains("entry-header"));
    assert!(report.replay_command.contains(&report.report_id));
}

#[test]
fn draft_set_replaces_prior_value() {
    let draft = EntryHeaderDraft::new("e")
        .provide(HeaderFieldId::Status, "first")
        .provide(HeaderFieldId::Status, "second");
    assert_eq!(
        draft.get(HeaderFieldId::Status),
        Some(&HeaderFieldValue::Provided("second".to_string()))
    );
    assert_eq!(draft.fields.len(), 1);
}

// ── Further scenarios ────────────────────────────────────────────────────

#[test]
fn effort_band_boundaries_and_penalties() {
    assert_eq!(estimate_effort_band(0), EffortSize::Small);
    assert_eq!(estimate_effort_band(99), EffortSize::Small);
    assert_eq!(estimate_effort_band(100), EffortSize::Medium);
    assert_eq!(estimate_effort_band(499), EffortSize::Medium);
    assert_eq!(estimate_effort_band(500), EffortSize::Large);
    assert_eq!(estimate_effort_band(1999), EffortSize::Large);
    assert_eq!(estimate_effort_band(2000), EffortSize::XLarge);
    assert_eq!(ev_effort_penalty_tenths(EffortSize::Small), 0);
    assert_eq!(ev_effort_penalty_tenths(EffortSize::Medium), 5);
    assert_eq!(ev_effort_penalty_tenths(EffortSize::Large), 15);
    assert_eq!(ev_effort_penalty_tenths(EffortSize::XLarge), 30);
}

#[test]
fn required_artifacts_are_sorted_per_bar() {
    assert_eq!(
        required_artifacts_for(QualityBar::Bronze),
        vec![QualityArtifact::Correctness]
    );
    assert_eq!(
        required_artifacts_for(QualityBar::Gold),
        vec![
            QualityArtifact::Performance,
            QualityArtifact::Correctness,
            QualityArtifact::Ecosystem,
            QualityArtifact::Docs,
        ]
    );
    assert_eq!(
        required_artifacts_for(QualityBar::Platinum),
        vec![
            QualityArtifact::Performance,
            QualityArtifact::Correctness,
            QualityArtifact::Ergonomics,
            QualityArtifact::Ecosystem,
            QualityArtifact::Docs,
        ]
    );
}

#[test]
fn mismatch_detail_names_both_bands_and_loc() {
    let report = EntryHeaderCompiler::default().compile(
        &complete_draft(),
        &passing_template(QualityBar::Bronze),
        Some(&SizeEstimate::new(5000, EffortSize::Small)),
    );
    let finding = report
        .findings
        .iter()
        .find(|f| f.code == SchemaFindingCode::EffortBandMismatch)
        .unwrap();
    assert_eq!(
        finding.detail,
        "declared effort `small` does not match the LOC-derived band `xlarge` (5000 LOC)"
    );
    assert_eq!(report.effort_ev_penalty_tenths, Some(30));
}

#[test]
fn replay_command_and_summary_are_exact() {
    let report = EntryHeaderCompiler::default().compile(
        &complete_draft(),
        &passing_template(QualityBar::Gold),
        Some(&SizeEstimate::new(900, EffortSize::Large)),
    );
    assert_eq!(
        report.replay_command,
        format!(
            "doctor_frankentui entry-header --report-id {} --entry gv-shadow-run --graduation-mode false",
            report.report_id
        )
    );
    assert_eq!(report.summary.criteria_total, 4);
    assert_eq!(report.summary.criteria_passed, 4);
    assert_eq!(report.summary.blocking_finding_count, 0);
    assert_eq!(report.summary.mandatory_total, 9);
    assert!(report.report_id.starts_with("entry-header-"));
}

#[test]
fn missing_field_finding_is_exact() {
    let report = EntryHeaderCompiler::default().compile(
        &EntryHeaderDraft::new("e"),
        &GraduationCriteriaTemplate {
            target_bar: QualityBar::Bronze,
            criteria: vec![GraduationCriterion::pending(QualityArtifact::Correctness)
                .with_ci("ci/c.json", CriterionStatus::Linked)],
        },
        None,
    );
    assert_eq!(report.summary.blocking_finding_count, 9);
    assert_eq!(report.findings[0].target, "status");
    assert_eq!(
        report.findings[0].detail,
        "mandatory header field `status` is absent"
    );
    let not_passed = report
        .findings
        .iter()
        .find(|f| f.code == SchemaFindingCode::GraduationCriterionNotPassed)
        .unwrap();
    assert_eq!(not_passed.detail, "`correctness` criterion is linked (not passed)");
    assert_eq!(report.blocking_remediations().len(), 9);
}

#[test]
fn order_index_follows_canonical_order() {
    for (i, field) in HeaderFieldId::ALL.iter().enumerate() {
        assert_eq!(field.order_index(), i);
    }
}
