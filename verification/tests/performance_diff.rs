use doctor_frankentui::performance_diff::{
    artifact_file, assemble_artifact_bundle, overall_verdict, perf_replay_command, sorted_unique,
    MetricComparisonVerdict, PerformanceDiffVerdict, PerformanceDifferenceKind,
    PerformanceMetricDirection, PerformanceMetricKind, PerformanceWorkloadTrace,
    canonicalize_workload_traces, check_workload_controls, SampleControl, WorkloadControl,
};
use doctor_frankentui::text::sha256_hex;

#[test]
fn metric_directions_and_units() {
    assert_eq!(
        PerformanceMetricKind::ThroughputOpsPerSec.direction(),
        PerformanceMetricDirection::HigherIsBetter
    );
    assert_eq!(
        PerformanceMetricKind::LatencyP99Ms.direction(),
        PerformanceMetricDirection::LowerIsBetter
    );
    assert_eq!(PerformanceMetricKind::FrameJitterMs.unit(), "ms");
    assert_eq!(PerformanceMetricKind::ThroughputOpsPerSec.unit(), "ops/sec");
    assert_eq!(PerformanceMetricKind::AllocationBytes.unit(), "bytes");
    assert_eq!(PerformanceMetricKind::DroppedFrameRatio.unit(), "ratio");
}

#[test]
fn workload_trace_key_and_controlled_inputs() {
    let trace = PerformanceWorkloadTrace::new("wl", "scroll", 42, "abc", 1000)
        .with_controlled_inputs(vec!["z".to_string(), "a".to_string(), "z".to_string()]);
    assert_eq!(trace.controlled_inputs, vec!["a".to_string(), "z".to_string()]);
    assert_eq!(trace.canonical_key(), "scroll:wl:42:abc:1000");
    assert_eq!(
        sorted_unique(vec!["b".to_string(), "a".to_string(), "b".to_string()]),
        vec!["a".to_string(), "b".to_string()]
    );
}

#[test]
fn overall_verdict_precedence() {
    assert_eq!(overall_verdict(&vec![MetricComparisonVerdict::Equivalent], &vec![]), PerformanceDiffVerdict::Equivalent);
    assert_eq!(
        overall_verdict(&vec![MetricComparisonVerdict::SignificantImprovement], &vec![]),
        PerformanceDiffVerdict::Improvement
    );
    assert_eq!(
        overall_verdict(&vec![MetricComparisonVerdict::SignificantImprovement, MetricComparisonVerdict::SignificantRegressionWithinPolicy], &vec![]),
        PerformanceDiffVerdict::RegressionWithinPolicy
    );
    assert_eq!(
        overall_verdict(&vec![MetricComparisonVerdict::Inconclusive], &vec![]),
        PerformanceDiffVerdict::NeedsMoreEvidence
    );
    assert_eq!(
        overall_verdict(&vec![MetricComparisonVerdict::Equivalent], &vec![PerformanceDifferenceKind::InsufficientSamples]),
        PerformanceDiffVerdict::NeedsMoreEvidence
    );
    assert_eq!(
        overall_verdict(&vec![MetricComparisonVerdict::Inconclusive], &vec![PerformanceDifferenceKind::PolicyRegression]),
        PerformanceDiffVerdict::PolicyRegression
    );
    assert_eq!(
        overall_verdict(&vec![MetricComparisonVerdict::SignificantImprovement], &vec![PerformanceDifferenceKind::UncontrolledWorkload]),
        PerformanceDiffVerdict::PolicyRegression
    );
}

#[test]
fn replay_command_composition() {
    let source = Some("run-a.sh".to_string());
    let translated = Some("run-b.sh".to_string());
    assert_eq!(perf_replay_command("s", &source, "t", &translated), "run-a.sh && run-b.sh");
    assert_eq!(perf_replay_command("s", &source, "t", &None), "run-a.sh");
    assert_eq!(perf_replay_command("s", &None, "t", &translated), "run-b.sh");
    assert_eq!(
        perf_replay_command("s", &None, "t", &None),
        "doctor_frankentui perf-replay --source-run s --translated-run t"
    );
}

#[test]
fn artifact_files_and_bundle_are_checksummed() {
    let file = artifact_file("summary.json", "{\"é\":1}".to_string());
    assert_eq!(file.byte_len, "{\"é\":1}".len());
    assert_eq!(file.sha256, sha256_hex("{\"é\":1}".as_bytes()));
    let other = artifact_file("replay.sh", "echo hi\n".to_string());
    let expected_input = format!(
        "summary.json:{}:{}\nreplay.sh:{}:{}",
        file.sha256, file.byte_len, other.sha256, other.byte_len
    );
    let bundle = assemble_artifact_bundle("replay".to_string(), vec![file, other]);
    assert_eq!(bundle.bundle_sha256, sha256_hex(expected_input.as_bytes()));
    assert_eq!(bundle.bundle_id, format!("performance-diff-{}", &bundle.bundle_sha256[..12]));
    assert_eq!(bundle.files.len(), 2);
    assert_eq!(bundle.replay_command, "replay");
}

fn sample(workload: &str, seed: u64) -> SampleControl {
    SampleControl { workload_id: workload.to_string(), deterministic_seed: seed }
}

fn trace(workload: &str, scenario: &str, seed: u64, hash: &str) -> PerformanceWorkloadTrace {
    PerformanceWorkloadTrace::new(workload, scenario, seed, hash, 1000)
}

fn reason(w: &WorkloadControl) -> (Option<String>, Option<String>, String) {
    match w {
        WorkloadControl::Controlled(id) => (Some(id.clone()), None, String::new()),
        WorkloadControl::Uncontrolled { workload_id, value, reason } => {
            (workload_id.clone(), value.clone(), reason.clone())
        }
    }
}

#[test]
fn controlled_workloads_pass_the_control_check() {
    let samples = vec![sample("wl", 42), sample("wl", 42)];
    let w = check_workload_controls(
        "scroll",
        &samples,
        &vec![trace("wl", "scroll", 42, "abc")],
        &vec![trace("wl", "scroll", 42, "abc")],
    );
    assert_eq!(w, WorkloadControl::Controlled("wl".to_string()));
}

#[test]
fn control_check_reports_the_first_violation() {
    let ok = vec![trace("wl", "scroll", 42, "abc")];
    let w = check_workload_controls("scroll", &vec![sample("a", 1), sample("b", 1)], &ok, &ok);
    assert_eq!(
        reason(&w),
        (None, None, "source and translated samples do not share one workload_id".to_string())
    );
    let w = check_workload_controls("scroll", &Vec::new(), &ok, &ok);
    assert_eq!(reason(&w).0, None);
    let w = check_workload_controls("scroll", &vec![sample("wl", 42)], &Vec::new(), &ok);
    assert_eq!(reason(&w).2, "source run is missing the workload trace descriptor");
    let w = check_workload_controls("scroll", &vec![sample("wl", 42)], &ok, &Vec::new());
    assert_eq!(reason(&w).2, "translated run is missing the workload trace descriptor");
    let w = check_workload_controls(
        "scroll",
        &vec![sample("wl", 42)],
        &vec![trace("wl", "resize", 42, "abc")],
        &ok,
    );
    assert_eq!(
        reason(&w),
        (
            Some("wl".to_string()),
            Some("source_scenario=resize;translated_scenario=scroll".to_string()),
            "workload trace scenario does not match sampled scenario".to_string()
        )
    );
    let w = check_workload_controls("scroll", &vec![sample("wl", 1)], &vec![trace("wl", "scroll", 1, "abc")], &vec![trace("wl", "scroll", 2, "abc")]);
    assert_eq!(reason(&w).1.as_deref(), Some("source_seed=1;translated_seed=2"));
    let w = check_workload_controls("scroll", &vec![sample("wl", 42)], &ok, &vec![trace("wl", "scroll", 42, "def")]);
    assert_eq!(
        reason(&w).1.as_deref(),
        Some("source=scroll:wl:42:abc:1000;translated=scroll:wl:42:def:1000")
    );
    let w = check_workload_controls("scroll", &vec![sample("wl", 42), sample("wl", 7)], &ok, &ok);
    assert_eq!(reason(&w).1.as_deref(), Some("expected_sample_seed=42"));
    assert_eq!(
        reason(&w).2,
        "at least one sample was collected with a seed outside the controlled trace"
    );
}

#[test]
fn a_later_trace_replaces_an_earlier_one_with_the_same_id() {
    let source = vec![trace("wl", "resize", 42, "abc"), trace("wl", "scroll", 42, "abc")];
    let w = check_workload_controls("scroll", &vec![sample("wl", 42)], &source, &vec![trace("wl", "scroll", 42, "abc")]);
    assert_eq!(w, WorkloadControl::Controlled("wl".to_string()));
}

#[test]
fn workload_traces_are_canonicalized_by_scenario_workload_seed_and_hash() {
    let traces = vec![
        PerformanceWorkloadTrace::new("wl-b", "scroll", 1, "h1", 10),
        PerformanceWorkloadTrace::new("wl-a", "scroll", 2, "h1", 10),
        PerformanceWorkloadTrace::new("wl-a", "resize", 9, "h9", 10),
        PerformanceWorkloadTrace::new("wl-a", "scroll", 1, "h2", 10),
        PerformanceWorkloadTrace::new("wl-a", "scroll", 1, "h1", 10),
    ];
    let keys: Vec<(String, String, u64, String)> = canonicalize_workload_traces(traces)
        .into_iter()
        .map(|t| (t.scenario_id, t.workload_id, t.deterministic_seed, t.trace_hash))
        .collect();
    let expected: Vec<(String, String, u64, String)> = vec![
        ("resize".into(), "wl-a".into(), 9, "h9".into()),
        ("scroll".into(), "wl-a".into(), 1, "h1".into()),
        ("scroll".into(), "wl-a".into(), 1, "h2".into()),
        ("scroll".into(), "wl-a".into(), 2, "h1".into()),
        ("scroll".into(), "wl-b".into(), 1, "h1".into()),
    ];
    assert_eq!(keys, expected);
}
