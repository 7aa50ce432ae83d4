use doctor_frankentui::golden_isomorphism::{
    first_counterexample, fixture_replay_command, invariant_status_for, proof_behavior_preserved,
    proof_replay_command, ChecksumVerdict, FixtureVerdict, GoldenFindingCode,
    GoldenIsomorphismConfig, GoldenIsomorphismGate, GoldenPolicyException, GoldenSeverity,
    InvariantKind, InvariantSet, InvariantStatus, IsomorphismInvariant, IsomorphismProof,
    OptimizationChange, GOLDEN_ISOMORPHISM_SCHEMA_VERSION,
};
use doctor_frankentui::text::sha256_hex;

fn s(v: &str) -> String {
    v.to_string()
}

fn verdict(id: &str, g_raw: &str, c_raw: &str, g_norm: &str, c_norm: &str) -> FixtureVerdict {
    FixtureVerdict::from_checksums(s(id), s(g_raw), s(c_raw), s(g_norm), s(c_norm))
}

fn build_proof(change: &OptimizationChange, verdicts: Vec<FixtureVerdict>) -> IsomorphismProof {
    let proof_id = s("isomorphism-proof-0123456789abcdef");
    let behavior_preserved = proof_behavior_preserved(&verdicts);
    let counterexample = first_counterexample(&change.change_id, &proof_id, &verdicts);
    let replay_command = proof_replay_command(&proof_id, &change.change_id);
    IsomorphismProof {
        schema_version: s(GOLDEN_ISOMORPHISM_SCHEMA_VERSION),
        proof_id,
        change_id: change.change_id.clone(),
        baseline_change_id: change.baseline_change_id.clone(),
        fixture_ids: verdicts.iter().map(|v| v.fixture_id.clone()).collect(),
        golden_manifest_checksum: s("g"),
        candidate_manifest_checksum: s("c"),
        invariant_checks: Vec::new(),
        fixture_verdicts: verdicts,
        behavior_preserved,
        counterexample,
        replay_command,
    }
}

fn ids(list: &[&str]) -> Vec<String> {
    list.iter().map(|v| v.to_string()).collect()
}

fn change(id: &str) -> OptimizationChange {
    OptimizationChange::new(id, "baseline-1", "lever")
}

#[test]
fn identical_candidate_promotes() {
    let c = change("chg-identity");
    let p = build_proof(&c, vec![verdict("f1", "a", "a", "a", "a"), verdict("f2", "b", "b", "b", "b")]);
    let report = GoldenIsomorphismGate::default().verify_proof(&c, &ids(&["f1", "f2"]), &ids(&["f1", "f2"]), p);
    assert!(report.promotion_allowed);
    assert!(report.findings.is_empty());
    assert_eq!(report.summary.matched, 2);
    assert!(report.summary.behavior_preserved);
    assert!(report.isomorphism_proof.counterexample.is_none());
}

#[test]
fn behavior_change_without_exception_blocks() {
    let c = change("chg-reorder").with_description("reorder records");
    let p = build_proof(&c, vec![verdict("f1", "a", "x", "a", "y")]);
    let report = GoldenIsomorphismGate::default().verify_proof(&c, &ids(&["f1"]), &ids(&["f1"]), p);
    assert!(!report.promotion_allowed);
    assert_eq!(report.findings.len(), 1);
    let finding = &report.findings[0];
    assert_eq!(finding.code, GoldenFindingCode::UncoveredBehaviorChange);
    assert_eq!(finding.severity, GoldenSeverity::Block);
    assert_eq!(finding.checksum_verdict, "mismatch");
    assert_eq!(report.summary.uncovered_changes, 1);
    assert_eq!(report.blocking().len(), 1);
    let cx = report.isomorphism_proof.counterexample.as_ref().expect("counterexample");
    assert_eq!(cx.fixture_id, "f1");
    assert_eq!(cx.golden_checksum, "a");
    assert_eq!(cx.candidate_checksum, "y");
    assert_eq!(cx.detail, "fixture `f1` behavior changed under the declared invariants");
}

#[test]
fn normalized_match_is_isomorphic() {
    let c = change("chg-ordering").with_invariant(IsomorphismInvariant::Reordering);
    let p = build_proof(&c, vec![verdict("f1", "a", "b", "n", "n")]);
    assert_eq!(p.fixture_verdicts[0].verdict, ChecksumVerdict::NormalizedMatch);
    let report = GoldenIsomorphismGate::default().verify_proof(&c, &ids(&["f1"]), &ids(&["f1"]), p);
    assert!(report.promotion_allowed);
    assert_eq!(report.summary.normalized_matched, 1);
}

#[test]
fn behavior_change_with_valid_exception_promotes() {
    let c = change("chg-exception").with_exception(GoldenPolicyException::new(
        "f1",
        "intentional output change",
        ids(&["evidence/ledger.json"]),
    ));
    let p = build_proof(&c, vec![verdict("f1", "a", "x", "a", "y")]);
    let report = GoldenIsomorphismGate::default().verify_proof(&c, &ids(&["f1"]), &ids(&["f1"]), p);
    assert!(report.promotion_allowed);
    assert_eq!(report.findings.len(), 1);
    assert_eq!(report.findings[0].code, GoldenFindingCode::CoveredBehaviorChange);
    assert_eq!(report.findings[0].severity, GoldenSeverity::Warn);
    assert_eq!(report.summary.covered_changes, 1);
    assert_eq!(report.summary.advisory_findings, 1);
}

#[test]
fn behavior_change_with_evidence_free_exception_blocks() {
    let c = change("chg-bad-exception").with_exception(GoldenPolicyException::new("f1", "trust me", Vec::new()));
    let p = build_proof(&c, vec![verdict("f1", "a", "x", "a", "y")]);
    let report = GoldenIsomorphismGate::default().verify_proof(&c, &ids(&["f1"]), &ids(&["f1"]), p);
    assert!(!report.promotion_allowed);
    let codes: Vec<GoldenFindingCode> = report.findings.iter().map(|f| f.code).collect();
    assert_eq!(
        codes,
        vec![GoldenFindingCode::InvalidPolicyException, GoldenFindingCode::UncoveredBehaviorChange]
    );
    assert_eq!(report.findings[0].checksum_verdict, "n/a");
}

#[test]
fn evidence_free_exception_is_honored_when_evidence_is_not_required() {
    let config = GoldenIsomorphismConfig {
        allow_policy_exceptions: true,
        require_exception_evidence: false,
        require_full_fixture_coverage: true,
    };
    let c = change("chg-lenient").with_exception(GoldenPolicyException::new("f1", "known drift", Vec::new()));
    let p = build_proof(&c, vec![verdict("f1", "a", "x", "a", "y")]);
    let report = GoldenIsomorphismGate::new(config).verify_proof(&c, &ids(&["f1"]), &ids(&["f1"]), p);
    assert!(report.promotion_allowed);
}

#[test]
fn exceptions_disabled_blocks_every_exception() {
    let config = GoldenIsomorphismConfig {
        allow_policy_exceptions: false,
        require_exception_evidence: true,
        require_full_fixture_coverage: true,
    };
    let c = change("chg-off").with_exception(GoldenPolicyException::new("f1", "why", ids(&["e"])));
    let p = build_proof(&c, vec![verdict("f1", "a", "a", "a", "a")]);
    let report = GoldenIsomorphismGate::new(config).verify_proof(&c, &ids(&["f1"]), &ids(&["f1"]), p);
    assert!(!report.promotion_allowed);
    assert_eq!(report.findings[0].code, GoldenFindingCode::InvalidPolicyException);
}

#[test]
fn exception_for_unchanged_fixture_is_advisory() {
    let c = change("chg-stale").with_exception(GoldenPolicyException::new("f1", "old", ids(&["e"])));
    let p = build_proof(&c, vec![verdict("f1", "a", "a", "a", "a")]);
    let report = GoldenIsomorphismGate::default().verify_proof(&c, &ids(&["f1"]), &ids(&["f1"]), p);
    assert!(report.promotion_allowed);
    assert_eq!(report.findings.len(), 1);
    assert_eq!(report.findings[0].code, GoldenFindingCode::UnusedPolicyException);
    assert_eq!(report.findings[0].checksum_verdict, "match");
}

#[test]
fn missing_candidate_output_blocks() {
    let c = change("chg-missing");
    let p = build_proof(&c, vec![verdict("f1", "a", "a", "a", "a")]);
    let report =
        GoldenIsomorphismGate::default().verify_proof(&c, &ids(&["f2", "f1", "f0"]), &ids(&["f1"]), p);
    assert!(!report.promotion_allowed);
    let missing: Vec<&str> = report
        .findings
        .iter()
        .filter(|f| f.code == GoldenFindingCode::MissingCandidateOutput)
        .map(|f| f.fixture_id.as_str())
        .collect();
    assert_eq!(missing, vec!["f0", "f2"]);
    assert_eq!(report.findings[0].detail, "golden fixture has no candidate output: `f0`");
}

#[test]
fn extraneous_candidate_output_blocks() {
    let c = change("chg-extra");
    let p = build_proof(&c, vec![verdict("f1", "a", "a", "a", "a")]);
    let report =
        GoldenIsomorphismGate::default().verify_proof(&c, &ids(&["f1"]), &ids(&["f1", "f9", "f9"]), p);
    assert!(!report.promotion_allowed);
    assert_eq!(report.findings.len(), 1);
    assert_eq!(report.findings[0].code, GoldenFindingCode::ExtraneousCandidateOutput);
    assert_eq!(report.findings[0].fixture_id, "f9");
}

#[test]
fn coverage_is_not_checked_when_not_required() {
    let config = GoldenIsomorphismConfig {
        allow_policy_exceptions: true,
        require_exception_evidence: true,
        require_full_fixture_coverage: false,
    };
    let c = change("chg-partial");
    let p = build_proof(&c, vec![verdict("f1", "a", "a", "a", "a")]);
    let report = GoldenIsomorphismGate::new(config).verify_proof(&c, &ids(&["f1", "f2"]), &ids(&["f1"]), p);
    assert!(report.promotion_allowed);
}

#[test]
fn every_finding_carries_proof_id_and_replay_command() {
    let c = change("chg-all").with_exception(GoldenPolicyException::new("f3", "", Vec::new()));
    let p = build_proof(&c, vec![verdict("f1", "a", "x", "a", "y"), verdict("f2", "b", "b", "b", "b")]);
    let proof_id = p.proof_id.clone();
    let report = GoldenIsomorphismGate::default().verify_proof(&c, &ids(&["f1", "f2", "f4"]), &ids(&["f1", "f2"]), p);
    assert!(report.findings.len() >= 3);
    for finding in &report.findings {
        assert_eq!(finding.proof_id, proof_id);
        assert_eq!(finding.change_id, "chg-all");
        assert_eq!(
            finding.replay_command,
            fixture_replay_command("chg-all", &finding.fixture_id, &proof_id)
        );
    }
}

#[test]
fn report_is_deterministic_and_ids_are_derived() {
    let build = || {
        let c = change("chg-det");
        let p = build_proof(&c, vec![verdict("f1", "a", "x", "a", "y")]);
        GoldenIsomorphismGate::default().verify_proof(&c, &ids(&["f1"]), &ids(&["f1"]), p)
    };
    let first = build();
    let second = build();
    assert_eq!(first.oracle_id, second.oracle_id);
    assert_eq!(first.evidence_checksum, second.evidence_checksum);
    assert!(first.oracle_id.starts_with("golden-isomorphism-"));
    assert_eq!(first.oracle_id.len(), "golden-isomorphism-".len() + 16);
    assert_eq!(first.evidence_checksum.len(), 64);
    assert_eq!(
        first.replay_command,
        format!("doctor_frankentui golden-isomorphism-verify --oracle-id {} --change chg-det", first.oracle_id)
    );
    assert_eq!(
        first.exported_json_stats.path,
        format!("{}/golden_isomorphism_stats.json", first.oracle_id)
    );
    let other = {
        let c = change("chg-other");
        let p = build_proof(&c, vec![verdict("f1", "a", "x", "a", "y")]);
        GoldenIsomorphismGate::default().verify_proof(&c, &ids(&["f1"]), &ids(&["f1"]), p)
    };
    assert_ne!(first.oracle_id, other.oracle_id);
}

#[test]
fn golden_json_stats_checksum_is_self_consistent() {
    let c = change("chg-json");
    let p = build_proof(&c, vec![verdict("f1", "a", "a", "a", "a")]);
    let report = GoldenIsomorphismGate::default().verify_proof(&c, &ids(&["f1"]), &ids(&["f1"]), p);
    assert_eq!(report.exported_json_stats.sha256, sha256_hex(b""));
    let report = report.with_json_stats("{\"ok\":true}".to_string());
    assert_eq!(
        report.exported_json_stats.sha256,
        sha256_hex(report.exported_json_stats.content.as_bytes())
    );
}

#[test]
fn invariant_sets_and_dedup() {
    let c = change("chg-inv")
        .with_invariant(IsomorphismInvariant::FloatingPoint { tolerance_decimals: 3 })
        .with_invariant(IsomorphismInvariant::TieBreak)
        .with_invariant(IsomorphismInvariant::FloatingPoint { tolerance_decimals: 6 })
        .with_invariant(IsomorphismInvariant::RngSeed);
    let deduped = c.deduped_invariants();
    assert_eq!(
        deduped,
        vec![
            IsomorphismInvariant::FloatingPoint { tolerance_decimals: 3 },
            IsomorphismInvariant::TieBreak,
            IsomorphismInvariant::RngSeed,
        ]
    );
    let all = InvariantSet::from_invariants(&c.declared_invariants);
    assert_eq!(all.fp_decimals, Some(6));
    assert!(all.tie_break && all.rng_seed && !all.ordering);
    let set = InvariantSet::from_invariants(&deduped);
    assert_eq!(set.fp_decimals, Some(3));
    assert_eq!(set.without(InvariantKind::FloatingPoint).fp_decimals, None);
    assert_eq!(InvariantSet::raw(), InvariantSet::from_invariants(&[]));
    assert_eq!(IsomorphismInvariant::Reordering.as_str(), "ordering");
    assert_eq!(IsomorphismInvariant::Reordering.kind(), InvariantKind::Reordering);
}

#[test]
fn invariant_status_by_leave_one_out() {
    assert_eq!(invariant_status_for(false, true), InvariantStatus::Violated);
    assert_eq!(invariant_status_for(true, true), InvariantStatus::HoldsUnused);
    assert_eq!(invariant_status_for(true, false), InvariantStatus::HoldsLoadBearing);
    assert_eq!(InvariantStatus::HoldsLoadBearing.as_str(), "holds_load_bearing");
}

#[test]
fn exception_evidence_requires_reason_and_refs() {
    assert!(GoldenPolicyException::new("f", "why", ids(&["e"])).is_evidence_backed());
    assert!(!GoldenPolicyException::new("f", "   ", ids(&["e"])).is_evidence_backed());
    assert!(!GoldenPolicyException::new("f", "why", Vec::new()).is_evidence_backed());
}

#[test]
fn replay_commands_name_change_fixture_and_proof() {
    assert_eq!(
        fixture_replay_command("c", "f", "p"),
        "doctor_frankentui golden-isomorphism-verify --change c --fixture f --proof p"
    );
    assert_eq!(
        proof_replay_command("p", "c"),
        "doctor_frankentui golden-isomorphism-verify --proof p --change c"
    );
    assert!(ChecksumVerdict::NormalizedMatch.behavior_preserved());
    assert!(!ChecksumVerdict::Mismatch.behavior_preserved());
}
