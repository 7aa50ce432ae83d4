use doctor_frankentui::ecosystem_scan::{EcosystemScanGate, ScanSeverity};
use doctor_frankentui::governance::{
    assemble_governance_report, normalize_scan_report, paper_remediation_for, scan_ledger_clean,
    scan_ledger_duplicate, scan_ledger_missing_candidate, GovernanceDiagnostic,
    GovernanceSeverity, GovernanceValidationConfig, ValidatorClass,
    GOVERNANCE_VALIDATOR_SCHEMA_VERSION,
};
use doctor_frankentui::text::sha256_hex;

#[test]
fn scan_missing_candidate_blocks_coverage() {
    let report = EcosystemScanGate::default().evaluate(scan_ledger_missing_candidate());
    let diagnostics = normalize_scan_report(&report);
    assert!(!report.coverage_complete);
    assert!(!report.scan_gate_passes);
    assert!(diagnostics
        .iter()
        .any(|d| d.code == "missing_candidate_coverage" && d.is_blocking()));
}

#[test]
fn scan_duplicate_candidate_is_flagged() {
    let report = EcosystemScanGate::default().evaluate(scan_ledger_duplicate());
    let diagnostics = normalize_scan_report(&report);
    assert!(!report.scan_gate_passes);
    assert!(diagnostics
        .iter()
        .any(|d| d.code == "duplicate_candidate" && d.is_blocking()));
}

#[test]
fn clean_scan_ledger_passes() {
    let report = EcosystemScanGate::default().evaluate(scan_ledger_clean());
    assert!(report.scan_gate_passes);
    assert!(normalize_scan_report(&report).iter().all(|d| !d.is_blocking()));
}

#[test]
fn every_scan_diagnostic_carries_required_fields() {
    let report = EcosystemScanGate::default().evaluate(scan_ledger_missing_candidate());
    let diagnostics = normalize_scan_report(&report);
    assert!(!diagnostics.is_empty());
    for d in &diagnostics {
        assert!(d.has_required_fields(), "{d:?}");
        assert!(d.replay_cmd.contains("doctor_frankentui"));
        assert_eq!(d.validator_class, ValidatorClass::EcosystemScan);
        assert_eq!(d.contract_id, "n/a");
        assert_eq!(d.checklist_id, "n/a");
        assert_ne!(d.subject_id, "n/a");
        assert_eq!(d.clause_id, d.code);
        assert_eq!(d.artifact_path, report.exported_json_stats.path);
    }
}

fn diagnostic(class: ValidatorClass, severity: GovernanceSeverity) -> GovernanceDiagnostic {
    GovernanceDiagnostic {
        validator_class: class,
        subject_id: "s".to_string(),
        contract_id: "n/a".to_string(),
        clause_id: "c".to_string(),
        checklist_id: "n/a".to_string(),
        code: "code".to_string(),
        severity,
        artifact_path: "a".to_string(),
        detail: "d".to_string(),
        remediation_hint: "r".to_string(),
        dependency_hint: "n/a".to_string(),
        replay_cmd: "doctor_frankentui x".to_string(),
    }
}

#[test]
fn report_counts_and_gate() {
    let diagnostics = vec![
        diagnostic(ValidatorClass::ContractLinter, GovernanceSeverity::Warn),
        diagnostic(ValidatorClass::EcosystemScan, GovernanceSeverity::Block),
        diagnostic(ValidatorClass::PaperChecklist, GovernanceSeverity::Block),
        diagnostic(ValidatorClass::PaperChecklist, GovernanceSeverity::Warn),
    ];
    let report = assemble_governance_report(
        "red",
        GovernanceValidationConfig::default(),
        diagnostics,
        true,
        false,
        false,
    );
    assert_eq!(report.schema_version, GOVERNANCE_VALIDATOR_SCHEMA_VERSION);
    assert_eq!(report.summary.total_diagnostics, 4);
    assert_eq!(report.summary.blocking_diagnostics, 2);
    assert_eq!(report.summary.advisory_diagnostics, 2);
    assert_eq!(report.summary.contract_diagnostics, 1);
    assert_eq!(report.summary.scan_diagnostics, 1);
    assert_eq!(report.summary.paper_diagnostics, 2);
    assert!(!report.summary.governance_gate_passes);
    assert_eq!(report.blocking().len(), 2);
    assert_eq!(report.diagnostics_for(ValidatorClass::PaperChecklist).len(), 2);
    assert_eq!(report.diagnostics_for(ValidatorClass::ContractLinter).len(), 1);
}

#[test]
fn green_gate_needs_every_validator_and_no_blocking_diagnostic() {
    let warn_only = vec![diagnostic(ValidatorClass::EcosystemScan, GovernanceSeverity::Warn)];
    let green = assemble_governance_report(
        "green",
        GovernanceValidationConfig::default(),
        warn_only.clone(),
        true,
        true,
        true,
    );
    assert!(green.summary.governance_gate_passes);
    let lint_failed = assemble_governance_report(
        "green",
        GovernanceValidationConfig::default(),
        warn_only,
        false,
        true,
        true,
    );
    assert!(!lint_failed.summary.governance_gate_passes);
}

#[test]
fn replay_command_references_report_id() {
    let report = assemble_governance_report("green", GovernanceValidationConfig::default(), Vec::new(), true, true, true);
    assert!(report.replay_command.contains(&report.report_id));
    assert!(report.replay_command.contains("governance-validate"));
    assert!(report.report_id.starts_with("governance-validator-tests-"));
    assert_eq!(
        report.exported_json_stats.path,
        format!("{}/governance_validator_stats.json", report.report_id)
    );
}

#[test]
fn distinct_scenario_label_changes_report_id() {
    let green = assemble_governance_report("green", GovernanceValidationConfig::default(), Vec::new(), true, true, true);
    let red = assemble_governance_report("red", GovernanceValidationConfig::default(), Vec::new(), true, true, true);
    assert_ne!(green.report_id, red.report_id);
    assert_eq!(green.evidence_checksum, red.evidence_checksum);
    let blocked = assemble_governance_report(
        "green",
        GovernanceValidationConfig::default(),
        vec![diagnostic(ValidatorClass::EcosystemScan, GovernanceSeverity::Block)],
        true,
        true,
        true,
    );
    assert_ne!(green.evidence_checksum, blocked.evidence_checksum);
}

#[test]
fn governance_json_stats_checksum_is_self_consistent() {
    let report = assemble_governance_report("x", GovernanceValidationConfig::default(), Vec::new(), true, true, true);
    assert_eq!(report.exported_json_stats.sha256, sha256_hex(b""));
    let report = report.with_json_stats("{}".to_string());
    assert_eq!(report.exported_json_stats.sha256, sha256_hex(b"{}"));
}

#[test]
fn governance_report_is_deterministic() {
    let build = || {
        assemble_governance_report(
            "red",
            GovernanceValidationConfig::default(),
            vec![diagnostic(ValidatorClass::PaperChecklist, GovernanceSeverity::Block)],
            true,
            true,
            false,
        )
    };
    let a = build();
    let b = build();
    assert_eq!(a.report_id, b.report_id);
    assert_eq!(a.evidence_checksum, b.evidence_checksum);
    assert_eq!(a.diagnostics, b.diagnostics);
}

#[test]
fn severity_conversion_and_tags() {
    assert_eq!(GovernanceSeverity::from(ScanSeverity::Block), GovernanceSeverity::Block);
    assert_eq!(GovernanceSeverity::from(ScanSeverity::Warn), GovernanceSeverity::Warn);
    assert_eq!(GovernanceSeverity::Warn.as_str(), "warn");
    let tags: Vec<&str> = ValidatorClass::ALL.iter().map(|c| c.as_str()).collect();
    assert_eq!(tags, vec!["contract_linter", "ecosystem_scan", "paper_checklist"]);
}

#[test]
fn required_fields_reject_empty_slots() {
    let mut d = diagnostic(ValidatorClass::ContractLinter, GovernanceSeverity::Warn);
    assert!(d.has_required_fields());
    d.dependency_hint = String::new();
    assert!(!d.has_required_fields());
}

#[test]
fn paper_remediation_hints() {
    assert_eq!(
        paper_remediation_for("checklist.claims.claim_id"),
        "give every claim a unique, non-empty id"
    );
    assert_eq!(
        paper_remediation_for("legal_ip.patent_status"),
        "reconcile patent status with the production-clearance flag"
    );
    assert_eq!(
        paper_remediation_for("something.else"),
        "review the paper-verification invariant for this field"
    );
}
