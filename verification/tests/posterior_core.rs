use doctor_frankentui::posterior_core::{summarize_outcomes, EvidenceChannel, MigrationDecision};

#[test]
fn channels_have_stable_tags_and_order() {
    let tags: Vec<&str> = EvidenceChannel::ALL.iter().map(|c| c.as_str()).collect();
    assert_eq!(tags, vec!["semantic", "visual", "performance", "accessibility", "determinism"]);
    let order: Vec<usize> = EvidenceChannel::ALL.iter().map(|c| c.order_index()).collect();
    assert_eq!(order, vec![0, 1, 2, 3, 4]);
}

#[test]
fn summary_counts_each_decision_and_folds_rollback_into_fallback() {
    let outcomes = vec![
        (MigrationDecision::AutoApprove, false),
        (MigrationDecision::HumanReview, true),
        (MigrationDecision::Reject, false),
        (MigrationDecision::HardReject, false),
        (MigrationDecision::ConservativeFallback, true),
        (MigrationDecision::Rollback, true),
        (MigrationDecision::AutoApprove, false),
    ];
    let s = summarize_outcomes(&outcomes);
    assert_eq!(s.total_claims, 7);
    assert_eq!(s.auto_approve_count, 2);
    assert_eq!(s.human_review_count, 1);
    assert_eq!(s.reject_count, 1);
    assert_eq!(s.hard_reject_count, 1);
    assert_eq!(s.conservative_fallback_count, 2);
    assert_eq!(s.degraded_count, 3);
}

#[test]
fn empty_batch_summary() {
    let s = summarize_outcomes(&Vec::new());
    assert_eq!(s.total_claims, 0);
    assert_eq!(s.degraded_count, 0);
}
