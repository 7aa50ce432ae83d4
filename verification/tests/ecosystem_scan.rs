use doctor_frankentui::ecosystem_scan::{
    canonical_ledger, canonical_scan_report, AdoptionDecision, BenchmarkDelta, ConstraintAxis,
    ConstraintRationale, CrateCandidate, CrateVerdict, DeterminismRisk, EcosystemScanConfig,
    EcosystemScanGate, EcosystemScanRecord, LicensePosture, PortabilityPosture, ScanSeverity,
    ScanViolationCode, UnsafePolicyFit, UpliftCandidate,
};
use doctor_frankentui::text::sha256_hex;

fn clean_build_record(candidate: UpliftCandidate) -> EcosystemScanRecord {
    let mut record = EcosystemScanRecord::new(candidate, AdoptionDecision::Build)
        .summary("built in-tree")
        .with_crate(
            CrateCandidate::new("some-crate", CrateVerdict::Rejected)
                .posture(
                    DeterminismRisk::NoRisk,
                    UnsafePolicyFit::Clean,
                    LicensePosture::Permissive,
                    PortabilityPosture::Portable,
                )
                .rationale("does not fit the domain"),
        )
        .fallback("conservative fallback");
    for axis in ConstraintAxis::ALL.iter().copied() {
        record = record.with_reject_rationale(ConstraintRationale::new(
            axis,
            "constraint-grounded reason",
        ));
    }
    record
}

fn full_clean_ledger() -> Vec<EcosystemScanRecord> {
    UpliftCandidate::ALL
        .iter()
        .copied()
        .map(clean_build_record)
        .collect()
}

#[test]
fn candidate_metadata_is_consistent() {
    for candidate in UpliftCandidate::ALL.iter().copied() {
        assert!(!candidate.name().is_empty());
        assert!(!candidate.candidate_id().is_empty());
        assert!(!candidate.in_tree_module().is_empty());
        assert!(
            candidate
                .candidate_id()
                .chars()
                .all(|c| c.is_ascii_lowercase() || c == '-')
        );
    }
    let mut ids: Vec<&str> = UpliftCandidate::ALL
        .iter()
        .map(|c| c.candidate_id())
        .collect();
    ids.sort_unstable();
    let unique = ids.len();
    ids.dedup();
    assert_eq!(unique, ids.len());
}

#[test]
fn canonical_ledger_covers_every_candidate() {
    let ledger = canonical_ledger();
    assert_eq!(ledger.len(), UpliftCandidate::ALL.len());
    for candidate in UpliftCandidate::ALL.iter().copied() {
        assert!(
            ledger.iter().any(|r| r.candidate == candidate),
            "missing candidate {candidate:?}"
        );
    }
}

#[test]
fn canonical_ledger_passes_the_default_gate() {
    let report = canonical_scan_report();
    assert!(
        report.scan_gate_passes,
        "canonical ledger should pass; violations: {:?}",
        report.violations
    );
    assert!(report.coverage_complete);
    assert!(report.blocked_candidate_ids.is_empty());
    assert!(report.serves_quality_artifact());
    assert!(report.missing_candidates().is_empty());
}

#[test]
fn canonical_records_satisfy_acceptance_criteria() {
    for record in canonical_ledger() {
        assert!(
            record.has_considered_crate()
                || record
                    .none_found_statement
                    .as_ref()
                    .is_some_and(|s| !s.trim().is_empty()),
            "{} lacks crate coverage",
            record.candidate_id
        );
        if record.decision.rejects_full_adoption() {
            let axes = record.covered_axes();
            for axis in ConstraintAxis::ALL.iter() {
                assert!(
                    axes.contains(axis),
                    "{} missing axis {axis:?}",
                    record.candidate_id
                );
            }
            assert!(
                record
                    .fallback_plan
                    .as_ref()
                    .is_some_and(|p| !p.trim().is_empty()),
                "{} missing fallback",
                record.candidate_id
            );
        }
    }
}

#[test]
fn missing_coverage_blocks_the_gate() {
    let mut ledger = full_clean_ledger();
    ledger.pop();
    let report = EcosystemScanGate::default().evaluate(ledger);
    assert!(!report.scan_gate_passes);
    assert!(!report.coverage_complete);
    assert_eq!(report.summary.missing_candidate_count, 1);
    assert!(
        report
            .violations
            .iter()
            .any(|v| v.code == ScanViolationCode::MissingCandidateCoverage)
    );
    assert!(!report.serves_quality_artifact());
}

#[test]
fn coverage_can_be_disabled() {
    let config = EcosystemScanConfig::default().with_full_coverage(false);
    let report = EcosystemScanGate::new(config)
        .evaluate(vec![clean_build_record(UpliftCandidate::ShadowRun)]);
    assert!(
        !report
            .violations
            .iter()
            .any(|v| v.code == ScanViolationCode::MissingCandidateCoverage)
    );
    assert!(report.scan_gate_passes);
}

#[test]
fn empty_decision_summary_is_caught() {
    let mut record = clean_build_record(UpliftCandidate::ShadowRun);
    record.decision_summary = String::new();
    let config = EcosystemScanConfig::default().with_full_coverage(false);
    let report = EcosystemScanGate::new(config).evaluate(vec![record]);
    assert!(
        report
            .violations
            .iter()
            .any(|v| v.code == ScanViolationCode::EmptyDecisionSummary)
    );
}

#[test]
fn no_crate_and_no_none_found_is_blocked() {
    let mut record = EcosystemScanRecord::new(UpliftCandidate::ShadowRun, AdoptionDecision::Build)
        .summary("built");
    for axis in ConstraintAxis::ALL.iter().copied() {
        record = record.with_reject_rationale(ConstraintRationale::new(axis, "reason"));
    }
    record = record.fallback("fallback");
    let config = EcosystemScanConfig::default().with_full_coverage(false);
    let report = EcosystemScanGate::new(config).evaluate(vec![record]);
    assert!(
        report
            .violations
            .iter()
            .any(|v| v.code == ScanViolationCode::NoCrateConsideredWithoutNoneFound)
    );
}

#[test]
fn empty_none_found_statement_is_blocked() {
    let mut record = clean_build_record(UpliftCandidate::ShadowRun);
    record.considered_crates.clear();
    record.none_found_statement = Some("   ".to_string());
    let config = EcosystemScanConfig::default().with_full_coverage(false);
    let report = EcosystemScanGate::new(config).evaluate(vec![record]);
    assert!(
        report
            .violations
            .iter()
            .any(|v| v.code == ScanViolationCode::NoneFoundStatementEmpty)
    );
}

#[test]
fn reject_decision_missing_axis_is_blocked() {
    let mut record = clean_build_record(UpliftCandidate::ShadowRun);
    record
        .reject_rationale
        .retain(|r| r.axis != ConstraintAxis::Determinism);
    let config = EcosystemScanConfig::default().with_full_coverage(false);
    let report = EcosystemScanGate::new(config).evaluate(vec![record]);
    assert!(report.violations.iter().any(|v| {
        v.code == ScanViolationCode::MissingRequiredConstraintAxis
            && v.detail.contains("determinism")
    }));
}

#[test]
fn reject_decision_missing_fallback_is_blocked() {
    let mut record = clean_build_record(UpliftCandidate::ShadowRun);
    record.fallback_plan = None;
    let config = EcosystemScanConfig::default().with_full_coverage(false);
    let report = EcosystemScanGate::new(config).evaluate(vec![record]);
    assert!(
        report
            .violations
            .iter()
            .any(|v| v.code == ScanViolationCode::MissingFallbackPlan)
    );
}

#[test]
fn build_decision_requires_in_tree_module() {
    let mut record = clean_build_record(UpliftCandidate::ShadowRun);
    record.in_tree_module = None;
    let config = EcosystemScanConfig::default().with_full_coverage(false);
    let report = EcosystemScanGate::new(config).evaluate(vec![record]);
    assert!(
        report
            .violations
            .iter()
            .any(|v| v.code == ScanViolationCode::MissingInTreeModule)
    );
}

#[test]
fn rejected_crate_without_rationale_is_blocked() {
    let mut record = clean_build_record(UpliftCandidate::ShadowRun);
    record.considered_crates[0].rationale = String::new();
    let config = EcosystemScanConfig::default().with_full_coverage(false);
    let report = EcosystemScanGate::new(config).evaluate(vec![record]);
    assert!(
        report
            .violations
            .iter()
            .any(|v| v.code == ScanViolationCode::RejectedCrateMissingRationale)
    );
}

#[test]
fn selected_crate_contradicting_build_is_blocked() {
    let mut record = clean_build_record(UpliftCandidate::ShadowRun);
    record.considered_crates[0].verdict = CrateVerdict::Selected;
    let config = EcosystemScanConfig::default().with_full_coverage(false);
    let report = EcosystemScanGate::new(config).evaluate(vec![record]);
    assert!(
        report
            .violations
            .iter()
            .any(|v| v.code == ScanViolationCode::SelectedCrateContradictsBuild)
    );
}

#[test]
fn adopting_unsafe_violating_crate_is_blocked() {
    let record = EcosystemScanRecord::new(UpliftCandidate::ContractsAsCode, AdoptionDecision::Adopt)
        .summary("adopt")
        .adopt_crate("bad-crate")
        .with_crate(
            CrateCandidate::new("bad-crate", CrateVerdict::Selected).posture(
                DeterminismRisk::NoRisk,
                UnsafePolicyFit::Violates,
                LicensePosture::Permissive,
                PortabilityPosture::Portable,
            ),
        );
    let config = EcosystemScanConfig::default().with_full_coverage(false);
    let report = EcosystemScanGate::new(config).evaluate(vec![record]);
    assert!(
        report
            .violations
            .iter()
            .any(|v| v.code == ScanViolationCode::UnsafePolicyViolationAdopted)
    );
}

#[test]
fn adopting_high_determinism_risk_crate_is_blocked() {
    let record = EcosystemScanRecord::new(UpliftCandidate::ContractsAsCode, AdoptionDecision::Adopt)
        .summary("adopt")
        .adopt_crate("risky")
        .with_crate(
            CrateCandidate::new("risky", CrateVerdict::Selected).posture(
                DeterminismRisk::High,
                UnsafePolicyFit::Clean,
                LicensePosture::Permissive,
                PortabilityPosture::Portable,
            ),
        );
    let config = EcosystemScanConfig::default().with_full_coverage(false);
    let report = EcosystemScanGate::new(config).evaluate(vec![record]);
    assert!(
        report
            .violations
            .iter()
            .any(|v| v.code == ScanViolationCode::AdoptedCrateDeterminismRiskTooHigh)
    );
}

#[test]
fn adopt_without_adopted_crate_is_blocked() {
    let record = EcosystemScanRecord::new(UpliftCandidate::ContractsAsCode, AdoptionDecision::Adopt)
        .summary("adopt but no crate named");
    let config = EcosystemScanConfig::default().with_full_coverage(false);
    let report = EcosystemScanGate::new(config).evaluate(vec![record]);
    assert!(
        report
            .violations
            .iter()
            .any(|v| v.code == ScanViolationCode::AdoptWithoutAdoptedCrate)
    );
}

#[test]
fn candidate_id_mismatch_is_blocked() {
    let mut record = clean_build_record(UpliftCandidate::ShadowRun);
    record.candidate_id = "wrong-id".to_string();
    let config = EcosystemScanConfig::default().with_full_coverage(false);
    let report = EcosystemScanGate::new(config).evaluate(vec![record]);
    assert!(
        report
            .violations
            .iter()
            .any(|v| v.code == ScanViolationCode::CandidateIdMismatch)
    );
}

#[test]
fn duplicate_candidate_is_blocked() {
    let report = EcosystemScanGate::default().evaluate(vec![
        clean_build_record(UpliftCandidate::ShadowRun),
        clean_build_record(UpliftCandidate::ShadowRun),
    ]);
    assert!(
        report
            .violations
            .iter()
            .any(|v| v.code == ScanViolationCode::DuplicateCandidate)
    );
}

#[test]
fn ecosystem_scan_report_is_deterministic() {
    let first = EcosystemScanGate::default().evaluate(full_clean_ledger());
    let second = EcosystemScanGate::default().evaluate(full_clean_ledger());
    assert_eq!(first.report_id, second.report_id);
    assert_eq!(
        first.exported_json_stats.sha256,
        second.exported_json_stats.sha256
    );
    assert_eq!(
        canonical_scan_report().report_id,
        canonical_scan_report().report_id
    );
}

#[test]
fn different_inputs_produce_different_report_ids() {
    let full = EcosystemScanGate::default().evaluate(full_clean_ledger());
    let mut trimmed = full_clean_ledger();
    trimmed.pop();
    let partial = EcosystemScanGate::default().evaluate(trimmed);
    assert_ne!(full.report_id, partial.report_id);
}

#[test]
fn json_stats_artifact_is_self_consistent() {
    let report = canonical_scan_report();
    assert_eq!(
        report.exported_json_stats.sha256,
        sha256_hex(report.exported_json_stats.content.as_bytes())
    );
    assert!(
        report
            .exported_json_stats
            .path
            .ends_with("ecosystem_scan_stats.json")
    );
}

#[test]
fn replay_command_references_module() {
    let report = canonical_scan_report();
    assert!(report.replay_command.contains("ecosystem-scan"));
    assert!(report.replay_command.contains(&report.report_id));
}

#[test]
fn blocking_remediations_are_actionable() {
    let mut ledger = full_clean_ledger();
    ledger.pop();
    let report = EcosystemScanGate::default().evaluate(ledger);
    let remediations = report.blocking_remediations();
    assert!(!remediations.is_empty());
    assert!(remediations.iter().all(|r| !r.trim().is_empty()));
}

#[test]
fn ecosystem_scan_summary_counts_decisions() {
    let report = canonical_scan_report();
    let s = &report.summary;
    assert_eq!(
        s.adopt_count + s.build_count + s.hybrid_count + s.deferred_count,
        UpliftCandidate::ALL.len()
    );
    assert_eq!(s.total_records, UpliftCandidate::ALL.len());
    assert_eq!(s.hybrid_count, 2);
}

// ── Further scenarios ────────────────────────────────────────────────────

#[test]
fn required_axes_are_sorted_and_deduplicated() {
    let config = EcosystemScanConfig::default().with_required_axes(&[
        ConstraintAxis::License,
        ConstraintAxis::Determinism,
        ConstraintAxis::Determinism,
    ]);
    assert_eq!(
        config.required_constraint_axes,
        vec![ConstraintAxis::Determinism, ConstraintAxis::License]
    );
}

#[test]
fn report_id_and_replay_command_have_their_documented_shape() {
    let report = EcosystemScanGate::default().evaluate(full_clean_ledger());
    assert!(report.report_id.starts_with("ecosystem-scan-"));
    assert_eq!(report.report_id.len(), "ecosystem-scan-".len() + 16);
    assert_eq!(
        report.replay_command,
        format!(
            "doctor_frankentui ecosystem-scan --report-id {} --required-axes 5 --max-adopted-determinism-risk low",
            report.report_id
        )
    );
    assert_eq!(
        report.exported_json_stats.path,
        format!("{}/ecosystem_scan_stats.json", report.report_id)
    );
}

#[test]
fn clean_ledger_passes_and_counts_every_build() {
    let report = EcosystemScanGate::default().evaluate(full_clean_ledger());
    assert!(report.scan_gate_passes);
    assert!(report.violations.is_empty());
    assert_eq!(report.summary.build_count, 8);
    assert_eq!(report.summary.blocked_records, 0);
}

#[test]
fn violation_messages_name_the_candidate_and_count() {
    let report = EcosystemScanGate::default().evaluate(vec![
        clean_build_record(UpliftCandidate::ShadowRun),
        clean_build_record(UpliftCandidate::ShadowRun),
        clean_build_record(UpliftCandidate::ShadowRun),
    ]);
    let dup = report
        .violations
        .iter()
        .find(|v| v.code == ScanViolationCode::DuplicateCandidate)
        .unwrap();
    assert_eq!(dup.candidate_id, "shadow-run");
    assert_eq!(
        dup.detail,
        "candidate Shadow-Run Dual Execution Harness has 3 scan records; expected exactly one"
    );
    assert_eq!(dup.severity, ScanSeverity::Block);
    assert_eq!(report.summary.missing_candidate_count, 7);
    assert_eq!(report.summary.blocked_records, 3);
    assert_eq!(
        report.blocked_candidate_ids,
        vec![
            "abstract-interpretation".to_string(),
            "cegis-synthesis".to_string(),
            "concolic-differential".to_string(),
            "contracts-as-code".to_string(),
            "controller-interference-guardrails".to_string(),
            "egraph-optimizer".to_string(),
            "metamorphic-oracle".to_string(),
            "shadow-run".to_string(),
        ]
    );
}

#[test]
fn determinism_ceiling_message_names_both_levels() {
    let record = EcosystemScanRecord::new(UpliftCandidate::ContractsAsCode, AdoptionDecision::Adopt)
        .summary("adopt")
        .adopt_crate("risky")
        .with_crate(CrateCandidate::new("risky", CrateVerdict::Selected).posture(
            DeterminismRisk::Medium,
            UnsafePolicyFit::Clean,
            LicensePosture::Permissive,
            PortabilityPosture::Portable,
        ));
    let config = EcosystemScanConfig::default()
        .with_full_coverage(false)
        .with_max_adopted_determinism_risk(DeterminismRisk::Low);
    let report = EcosystemScanGate::new(config).evaluate(vec![record]);
    assert_eq!(report.violations.len(), 1);
    assert_eq!(
        report.violations[0].detail,
        "adopted crate `risky` has determinism risk `medium`, above the `low` ceiling"
    );
}

#[test]
fn attached_stats_keep_their_checksum() {
    let report = canonical_scan_report().with_json_stats("{\"k\":1}".to_string());
    assert_eq!(report.exported_json_stats.content, "{\"k\":1}");
    assert_eq!(
        report.exported_json_stats.sha256,
        sha256_hex("{\"k\":1}".as_bytes())
    );
    assert_ne!(report.exported_json_stats.sha256, sha256_hex(b""));
}

#[test]
fn quantified_benchmark_keeps_its_bits() {
    let delta = BenchmarkDelta::quantified("latency", "slower", 12.5f64.to_bits());
    assert_eq!(delta.delta_pct_bits.map(f64::from_bits), Some(12.5));
    let qualitative = BenchmarkDelta::qualitative("latency", "same");
    assert_eq!(qualitative.delta_pct_bits, None);
}

#[test]
fn sha256_of_empty_input_matches_the_standard_digest() {
    assert_eq!(
        sha256_hex(b""),
        "e3b0c44298fc1c149afbf4c8996fb92427ae41e4649b934ca495991b7852b855"
    );
    assert_eq!(
        sha256_hex(b"abc"),
        "ba7816bf8f01cfea414140de5dae2223b00361a396177a9cb410ff61f20015ad"
    );
}
