use doctor_frankentui::milestone_policy::{
    achieved_bar, card_achieved_bar, card_field_violations, card_meets_level,
    default_quality_bar_requirements, diversity_count_violation, empty_milestone_violation,
    join_strings, milestone_passes, quality_bar_remediation, quality_bar_shortfall,
    summarize_milestones, CardEvidence, MathFamily, PolicySeverity, PriorityTier,
    QualityArtifact, QualityBar, ViolationCode,
};

fn card(id: &str, tier: PriorityTier, artifacts: &[QualityArtifact], repro: bool, fallback: bool) -> CardEvidence {
    CardEvidence {
        card_id: id.to_string(),
        tier,
        present_artifacts: artifacts.to_vec(),
        reproducible: repro,
        fallback_validated: fallback,
    }
}

fn platinum_card(id: &str) -> CardEvidence {
    card(
        id,
        PriorityTier::S,
        &[
            QualityArtifact::Performance,
            QualityArtifact::Correctness,
            QualityArtifact::Docs,
            QualityArtifact::Ecosystem,
            QualityArtifact::Ergonomics,
        ],
        true,
        true,
    )
}

#[test]
fn card_achieved_bar_climbs_with_evidence() {
    let reqs = default_quality_bar_requirements();
    let bronze = card("b", PriorityTier::C, &[QualityArtifact::Correctness], false, false);
    assert_eq!(card_achieved_bar(&reqs, &bronze), Some(QualityBar::Bronze));

    let silver = card(
        "s",
        PriorityTier::B,
        &[QualityArtifact::Correctness, QualityArtifact::Docs],
        true,
        false,
    );
    assert_eq!(card_achieved_bar(&reqs, &silver), Some(QualityBar::Silver));

    let under_tier = card(
        "u",
        PriorityTier::C,
        &[QualityArtifact::Correctness, QualityArtifact::Docs],
        true,
        false,
    );
    assert_eq!(card_achieved_bar(&reqs, &under_tier), Some(QualityBar::Bronze));

    let none = card("n", PriorityTier::C, &[], false, false);
    assert_eq!(card_achieved_bar(&reqs, &none), None);
}

#[test]
fn quality_bar_shortfall_names_the_bottleneck() {
    let reqs = default_quality_bar_requirements();
    let weak = card("c_weak", PriorityTier::S, &[QualityArtifact::Correctness], false, false);
    let cards = vec![platinum_card("c_sym"), platinum_card("c_prob"), weak];
    let (bar, bottlenecks) = achieved_bar(&reqs, &cards, QualityBar::Platinum);
    assert_eq!(bar, Some(QualityBar::Bronze));
    assert_eq!(bottlenecks, vec!["c_weak".to_string()]);
    let remediation = quality_bar_remediation(&reqs, QualityBar::Platinum, &bottlenecks);
    assert!(remediation.contains("c_weak"));
    assert!(remediation.contains("platinum"));
}

#[test]
fn milestone_bar_is_the_weakest_card() {
    let reqs = default_quality_bar_requirements();
    let silver = card(
        "s",
        PriorityTier::A,
        &[QualityArtifact::Correctness, QualityArtifact::Docs],
        true,
        false,
    );
    let cards = vec![platinum_card("p"), silver];
    let (bar, _) = achieved_bar(&reqs, &cards, QualityBar::Bronze);
    assert_eq!(bar, Some(QualityBar::Silver));
}

#[test]
fn empty_milestone_achieves_no_bar() {
    let reqs = default_quality_bar_requirements();
    let (bar, bottlenecks) = achieved_bar(&reqs, &Vec::new(), QualityBar::Bronze);
    assert_eq!(bar, None);
    assert!(bottlenecks.is_empty());
}

#[test]
fn a_card_without_any_bar_sinks_the_milestone() {
    let reqs = default_quality_bar_requirements();
    let cards = vec![platinum_card("p"), card("none", PriorityTier::S, &[], false, false)];
    let (bar, bottlenecks) = achieved_bar(&reqs, &cards, QualityBar::Gold);
    assert_eq!(bar, None);
    assert_eq!(bottlenecks, vec!["none".to_string()]);
}

#[test]
fn card_meets_level_checks_tier_and_proofs() {
    let reqs = default_quality_bar_requirements();
    let gold_without_fallback = card(
        "g",
        PriorityTier::A,
        &[
            QualityArtifact::Performance,
            QualityArtifact::Correctness,
            QualityArtifact::Docs,
            QualityArtifact::Ecosystem,
        ],
        true,
        false,
    );
    assert!(!card_meets_level(&reqs, &gold_without_fallback, QualityBar::Gold));
    assert!(card_meets_level(&reqs, &gold_without_fallback, QualityBar::Silver));
    let mut gold = gold_without_fallback.clone();
    gold.fallback_validated = true;
    assert!(card_meets_level(&reqs, &gold, QualityBar::Gold));
    assert!(!card_meets_level(&reqs, &gold, QualityBar::Platinum));
}

#[test]
fn default_requirements_grow_with_the_level() {
    let reqs = default_quality_bar_requirements();
    let levels: Vec<QualityBar> = reqs.iter().map(|r| r.level).collect();
    assert_eq!(
        levels,
        vec![QualityBar::Bronze, QualityBar::Silver, QualityBar::Gold, QualityBar::Platinum]
    );
    for pair in reqs.windows(2) {
        for artifact in &pair[0].required_artifacts {
            assert!(pair[1].required_artifacts.contains(artifact));
        }
    }
    assert_eq!(reqs[3].min_tier, PriorityTier::S);
}

#[test]
fn joining_card_ids() {
    assert_eq!(join_strings(&vec![]), "");
    assert_eq!(join_strings(&vec!["a".to_string()]), "a");
    assert_eq!(join_strings(&vec!["a".to_string(), "b".to_string()]), "a, b");
}

#[test]
fn tags_and_ranks() {
    assert_eq!(QualityBar::Platinum.as_str(), "platinum");
    assert_eq!(QualityBar::Bronze.rank(), 0);
    assert_eq!(PriorityTier::S.rank(), 3);
    assert_eq!(PriorityTier::C.as_str(), "c");
}

#[test]
fn blank_baseline_and_wedge_are_blocking_with_remediation() {
    let violations = card_field_violations("m", "c1", "", "  ");
    let codes: Vec<ViolationCode> = violations.iter().map(|v| v.code).collect();
    assert_eq!(
        codes,
        vec![ViolationCode::MissingBaselineComparator, ViolationCode::MissingAdoptionWedge]
    );
    for violation in &violations {
        assert_eq!(violation.severity, PolicySeverity::Block);
        assert_eq!(violation.milestone_id, "m");
        assert_eq!(violation.card_id.as_deref(), Some("c1"));
    }
    assert_eq!(violations[0].detail, "card 'c1' declares no baseline comparator");
    assert_eq!(
        violations[0].remediation,
        "card 'c1': declare the baseline_comparator this uplift is measured against"
    );
    assert_eq!(
        violations[1].remediation,
        "card 'c1': declare the adoption_wedge (how this lands in production)"
    );
    assert!(card_field_violations("m", "c1", "base", "wedge").is_empty());
}

#[test]
fn two_families_fall_short_of_the_default_minimum() {
    let families = vec![MathFamily::Symbolic, MathFamily::Probabilistic];
    let violation = diversity_count_violation("m", &families, 3).expect("diversity violation");
    assert_eq!(violation.code, ViolationCode::InsufficientBranchDiversity);
    assert_eq!(violation.severity, PolicySeverity::Block);
    assert_eq!(violation.card_id, None);
    assert_eq!(
        violation.detail,
        "milestone spans 2 math families [symbolic, probabilistic], need >= 3"
    );
    assert_eq!(
        violation.remediation,
        "add cards from 1 more math families to break heuristic monoculture"
    );
    assert!(diversity_count_violation("m", &families, 2).is_none());
}

#[test]
fn empty_milestone_violation_names_the_minimum() {
    let violation = empty_milestone_violation("m", 3);
    assert_eq!(violation.code, ViolationCode::EmptyMilestone);
    assert_eq!(violation.severity, PolicySeverity::Block);
    assert_eq!(violation.detail, "milestone declares no recommendation cards");
    assert_eq!(
        violation.remediation,
        "add at least 3 cards spanning distinct math families"
    );
}

#[test]
fn shortfall_is_reported_only_below_target() {
    let reqs = default_quality_bar_requirements();
    let bottlenecks = vec!["weak".to_string()];
    let violation = quality_bar_shortfall(&reqs, "m", QualityBar::Gold, Some(QualityBar::Silver), &bottlenecks)
        .expect("shortfall");
    assert_eq!(violation.code, ViolationCode::QualityBarShortfall);
    assert_eq!(violation.card_id.as_deref(), Some("weak"));
    assert_eq!(
        violation.detail,
        "target quality bar 'gold' but achieved 'silver'; bottleneck cards [weak]"
    );
    assert_eq!(
        violation.remediation,
        quality_bar_remediation(&reqs, QualityBar::Gold, &bottlenecks)
    );
    let unrated = quality_bar_shortfall(&reqs, "m", QualityBar::Bronze, None, &Vec::new()).expect("unrated");
    assert_eq!(unrated.card_id, None);
    assert!(unrated.detail.contains("achieved 'unrated'"));
    assert!(quality_bar_shortfall(&reqs, "m", QualityBar::Gold, Some(QualityBar::Platinum), &bottlenecks).is_none());
}

#[test]
fn summary_counts_passing_and_blocked_milestones() {
    let milestones = vec![
        vec![],
        vec![PolicySeverity::Warn],
        vec![PolicySeverity::Block, PolicySeverity::Warn, PolicySeverity::Block],
    ];
    assert!(milestone_passes(&milestones[1]));
    assert!(!milestone_passes(&milestones[2]));
    let summary = summarize_milestones(&milestones);
    assert_eq!(summary.total_milestones, 3);
    assert_eq!(summary.passing_milestones, 2);
    assert_eq!(summary.blocked_milestones, 1);
    assert_eq!(summary.blocking_violation_count, 2);
    assert_eq!(summary.advisory_violation_count, 2);
}
