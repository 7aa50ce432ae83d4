use doctor_frankentui::profile_orchestrator::{
    BenchmarkProfileKey, ProfileModality, ProfileOrchestrationPlan, ProfilerInvocation,
    PROFILE_ORCHESTRATION_SCHEMA_VERSION, candidate_levers_for, dedup_preserve_order,
    present_extra,
};

fn profile() -> BenchmarkProfileKey {
    BenchmarkProfileKey::new("benchmark_capture", "fixture-scroll")
}

#[test]
fn invocations_are_sorted_for_stable_plan_ids() {
    let forward = ProfileOrchestrationPlan::new(
        "workload",
        profile(),
        1,
        vec![
            ProfilerInvocation::new(ProfileModality::Cpu, "a", vec![], "cpu.json"),
            ProfilerInvocation::new(ProfileModality::Syscall, "b", vec![], "sys.txt"),
        ],
    );
    let reversed = ProfileOrchestrationPlan::new(
        "workload",
        profile(),
        1,
        vec![
            ProfilerInvocation::new(ProfileModality::Syscall, "b", vec![], "sys.txt"),
            ProfilerInvocation::new(ProfileModality::Cpu, "a", vec![], "cpu.json"),
        ],
    );
    assert_eq!(forward.plan_id, reversed.plan_id);
    assert_eq!(forward.invocations, reversed.invocations);
}

#[test]
fn invocations_sort_by_modality_tool_then_artifact() {
    let plan = ProfileOrchestrationPlan::new(
        "w",
        profile(),
        7,
        vec![
            ProfilerInvocation::new(ProfileModality::Syscall, "strace", vec![], "z.txt"),
            ProfilerInvocation::new(ProfileModality::Cpu, "perf", vec![], "b.json"),
            ProfilerInvocation::new(ProfileModality::Allocation, "heaptrack", vec![], "h.out"),
            ProfilerInvocation::new(ProfileModality::Cpu, "perf", vec![], "a.json"),
            ProfilerInvocation::new(ProfileModality::Cpu, "flamegraph", vec![], "c.svg"),
        ],
    );
    let order: Vec<(ProfileModality, &str, &str)> = plan
        .invocations
        .iter()
        .map(|i| (i.modality, i.tool.as_str(), i.output_artifact.as_str()))
        .collect();
    assert_eq!(
        order,
        vec![
            (ProfileModality::Cpu, "flamegraph", "c.svg"),
            (ProfileModality::Cpu, "perf", "a.json"),
            (ProfileModality::Cpu, "perf", "b.json"),
            (ProfileModality::Allocation, "heaptrack", "h.out"),
            (ProfileModality::Syscall, "strace", "z.txt"),
        ]
    );
    assert_eq!(plan.schema_version, PROFILE_ORCHESTRATION_SCHEMA_VERSION);
    assert!(plan.plan_id.starts_with("profile-plan-"));
    assert_eq!(plan.plan_id.len(), "profile-plan-".len() + 16);
}

#[test]
fn plan_id_depends_on_target_seed_and_invocations() {
    let base = ProfileOrchestrationPlan::new("w", profile(), 1, Vec::new());
    let other_target = ProfileOrchestrationPlan::new("v", profile(), 1, Vec::new());
    let other_seed = ProfileOrchestrationPlan::new("w", profile(), 2, Vec::new());
    let with_invocation = ProfileOrchestrationPlan::new(
        "w",
        profile(),
        1,
        vec![ProfilerInvocation::new(ProfileModality::Cpu, "perf", vec![], "cpu.json")],
    );
    assert_ne!(base.plan_id, other_target.plan_id);
    assert_ne!(base.plan_id, other_seed.plan_id);
    assert_ne!(base.plan_id, with_invocation.plan_id);
}

#[test]
fn replay_commands() {
    let invocation = ProfilerInvocation::new(
        ProfileModality::Cpu,
        "cargo",
        vec!["flamegraph".to_string(), "--bench".to_string(), "scroll".to_string()],
        "cpu.svg",
    );
    assert_eq!(invocation.replay_command(), "cargo flamegraph --bench scroll # artifact=cpu.svg");
    let plan = ProfileOrchestrationPlan::new("target-x", profile(), 42, vec![invocation.clone()]);
    assert_eq!(
        plan.replay_command(),
        format!("doctor_frankentui profile-orchestrate --plan-id {} --target target-x --seed 42", plan.plan_id)
    );
    assert_eq!(
        plan.invocation_replay_commands(),
        vec!["cargo flamegraph --bench scroll # artifact=cpu.svg".to_string()]
    );
}

#[test]
fn fingerprints_are_content_addressed() {
    let a = ProfilerInvocation::new(ProfileModality::Cpu, "perf", vec!["x".to_string()], "o");
    let b = ProfilerInvocation::new(ProfileModality::Cpu, "perf", vec!["x".to_string()], "o");
    let c = ProfilerInvocation::new(ProfileModality::Cpu, "perf", vec!["y".to_string()], "o");
    assert_eq!(a.fingerprint_sha256, b.fingerprint_sha256);
    assert_ne!(a.fingerprint_sha256, c.fingerprint_sha256);
    assert_eq!(a.fingerprint_sha256.len(), 64);
}

#[test]
fn modality_tags_and_units() {
    let tags: Vec<&str> = ProfileModality::ALL.iter().map(|m| m.category_tag()).collect();
    assert_eq!(tags, vec!["cpu", "allocation", "syscall"]);
    assert_eq!(ProfileModality::Allocation.weight_unit(), "bytes");
    assert_eq!(ProfileModality::Cpu.weight_unit(), "self_time_us");
    assert_eq!(ProfileModality::Syscall.weight_unit(), "syscalls");
    assert_eq!(ProfileModality::default(), ProfileModality::Cpu);
}

fn strings(items: &[&str]) -> Vec<String> {
    items.iter().map(|s| s.to_string()).collect()
}

#[test]
fn levers_follow_the_dominant_modality_then_secondary_audits() {
    let levers = candidate_levers_for(ProfileModality::Cpu, &strings(&["cpu", "allocation"]));
    assert_eq!(
        levers,
        strings(&[
            "reduce-redundant-computation",
            "hoist-invariant-work",
            "batch-and-vectorize",
            "audit-allocation-pressure",
        ])
    );
    let levers = candidate_levers_for(
        ProfileModality::Syscall,
        &strings(&["cpu", "allocation", "syscall"]),
    );
    assert_eq!(
        levers,
        strings(&[
            "batch-io",
            "buffer-writes",
            "coalesce-syscalls",
            "audit-cpu-self-time",
            "audit-allocation-pressure",
        ])
    );
    assert_eq!(
        candidate_levers_for(ProfileModality::Allocation, &Vec::new()),
        strings(&["reuse-buffers", "pool-allocations", "avoid-intermediate-clones"])
    );
}

#[test]
fn dedup_keeps_first_occurrences_in_order() {
    assert_eq!(
        dedup_preserve_order(strings(&["b", "a", "b", "c", "a"])),
        strings(&["b", "a", "c"])
    );
    assert!(dedup_preserve_order(Vec::new()).is_empty());
}

#[test]
fn present_extra_counts_modalities_beyond_the_first() {
    assert_eq!(present_extra(0), 0);
    assert_eq!(present_extra(1), 0);
    assert_eq!(present_extra(3), 2);
}

#[test]
fn candidate_levers_match_dominant_modality() {
    // flush_writer is attributed by syscall samples only.
    let flush = candidate_levers_for(ProfileModality::Syscall, &strings(&["syscall"]));
    assert!(flush.contains(&"batch-io".to_string()));
    // wrap_text is allocation-dominant but also CPU-present.
    let wrap = candidate_levers_for(ProfileModality::Allocation, &strings(&["cpu", "allocation"]));
    assert!(wrap.contains(&"reuse-buffers".to_string()));
    assert!(wrap.contains(&"audit-cpu-self-time".to_string()));
}
