//! Performance-comparison vocabulary for migration certification: metric
//! kinds and their directions, controlled workload traces, the overall
//! verdict rule, and the replay artifact bundle.
//!
//! The statistics themselves (means, confidence intervals) are computed in
//! floating point outside this library; the decisions taken from them are
//! stated here.

use vstd::prelude::*;
use vstd::string::*;

use crate::text::{
    cat, cat3, decimal, hex_of, insert_sorted_unique, lemma_is_sorted_set, lemma_seq_lt_asym,
    lemma_seq_lt_irreflexive, lemma_seq_lt_total, lemma_seq_lt_trans, seq_lt, sha256_hex_of_text,
    sha256_spec, short_of, sorted_set, string_views, strictly_sorted, u64_to_string, usize_to_string,
    str_lt, utf8_bytes, utf8_of,
};

verus! {

/// Identifier of the performance-diff validator.
pub const PERFORMANCE_DIFF_VALIDATOR_ID: &'static str = "performance_diff_validator";

/// Overall verdict of a performance comparison.
#[derive(Debug, Clone, Copy, PartialEq, Eq, Structural)]
pub enum PerformanceDiffVerdict {
    /// No significant change.
    Equivalent,
    /// A significant improvement and no regression.
    Improvement,
    /// A significant regression that stays within policy.
    RegressionWithinPolicy,
    /// Not enough evidence to decide.
    NeedsMoreEvidence,
    /// A regression beyond policy, or a control violation.
    PolicyRegression,
}

/// Verdict for one metric of one scenario.
#[derive(Debug, Clone, Copy, PartialEq, Eq, Structural)]
pub enum MetricComparisonVerdict {
    /// No significant change.
    Equivalent,
    /// A significant improvement.
    SignificantImprovement,
    /// A significant regression within policy.
    SignificantRegressionWithinPolicy,
    /// The interval straddles the significance threshold.
    Inconclusive,
    /// A regression beyond policy.
    PolicyRegression,
    /// Too few samples.
    InsufficientSamples,
    /// The workloads were not controlled.
    UncontrolledWorkload,
}

/// A measured performance metric.
#[derive(Debug, Clone, Copy, PartialEq, Eq, PartialOrd, Ord, Structural)]
pub enum PerformanceMetricKind {
    /// Mean latency in milliseconds.
    LatencyMeanMs,
    /// 95th-percentile latency in milliseconds.
    LatencyP95Ms,
    /// 99th-percentile latency in milliseconds.
    LatencyP99Ms,
    /// Throughput in operations per second.
    ThroughputOpsPerSec,
    /// Bytes allocated.
    AllocationBytes,
    /// Frame jitter in milliseconds.
    FrameJitterMs,
    /// Ratio of dropped frames.
    DroppedFrameRatio,
}

/// Which way a metric improves.
#[derive(Debug, Clone, Copy, PartialEq, Eq, Structural)]
pub enum PerformanceMetricDirection {
    /// Smaller values are better.
    LowerIsBetter,
    /// Larger values are better.
    HigherIsBetter,
}

impl PerformanceMetricKind {
    /// Which way the metric improves: only throughput improves upward.
    pub open spec fn direction_spec(self) -> PerformanceMetricDirection {
        if self == PerformanceMetricKind::ThroughputOpsPerSec {
            PerformanceMetricDirection::HigherIsBetter
        } else {
            PerformanceMetricDirection::LowerIsBetter
        }
    }

    /// Which way the metric improves.
    pub fn direction(self) -> (d: PerformanceMetricDirection)
        ensures
            d == self.direction_spec(),
    {
        match self {
            PerformanceMetricKind::ThroughputOpsPerSec => PerformanceMetricDirection::HigherIsBetter,
            PerformanceMetricKind::LatencyMeanMs
            | PerformanceMetricKind::LatencyP95Ms
            | PerformanceMetricKind::LatencyP99Ms
            | PerformanceMetricKind::AllocationBytes
            | PerformanceMetricKind::FrameJitterMs
            | PerformanceMetricKind::DroppedFrameRatio => PerformanceMetricDirection::LowerIsBetter,
        }
    }

    /// The metric's unit label.
    pub open spec fn unit_spec(self) -> Seq<char> {
        match self {
            PerformanceMetricKind::LatencyMeanMs
            | PerformanceMetricKind::LatencyP95Ms
            | PerformanceMetricKind::LatencyP99Ms
            | PerformanceMetricKind::FrameJitterMs => "ms"@,
            PerformanceMetricKind::ThroughputOpsPerSec => "ops/sec"@,
            PerformanceMetricKind::AllocationBytes => "bytes"@,
            PerformanceMetricKind::DroppedFrameRatio => "ratio"@,
        }
    }

    /// The metric's unit label.
    pub fn unit(self) -> (s: &'static str)
        ensures
            s@ == self.unit_spec(),
    {
        match self {
            PerformanceMetricKind::LatencyMeanMs
            | PerformanceMetricKind::LatencyP95Ms
            | PerformanceMetricKind::LatencyP99Ms
            | PerformanceMetricKind::FrameJitterMs => "ms",
            PerformanceMetricKind::ThroughputOpsPerSec => "ops/sec",
            PerformanceMetricKind::AllocationBytes => "bytes",
            PerformanceMetricKind::DroppedFrameRatio => "ratio",
        }
    }
}

// ── Controlled workload traces ───────────────────────────────────────────

/// The strings of `v`, ascending, each once.
pub open spec fn sorted_unique_spec(v: Seq<Seq<char>>) -> Seq<Seq<char>> {
    sorted_set(|x: Seq<char>| v.contains(x))
}

/// The strings of `values`, ascending, each once.
pub fn sorted_unique(values: Vec<String>) -> (out: Vec<String>)
    ensures
        string_views(out@) == sorted_unique_spec(string_views(values@)),
{
    let ghost vv = string_views(values@);
    let mut out: Vec<String> = Vec::new();
    let mut i: usize = 0;
    while i < values.len()
        invariant
            i <= values@.len(),
            vv == string_views(values@),
            strictly_sorted(string_views(out@)),
            forall|x: Seq<char>| #[trigger] string_views(out@).contains(x) <==> vv.take(i as int).contains(x),
        decreases values@.len() - i,
    {
        insert_sorted_unique(&mut out, values[i].clone());
        proof {
            assert(vv.take(i as int + 1) =~= vv.take(i as int).push(vv[i as int]));
            assert(vv[i as int] == values@[i as int]@);
            assert forall|x: Seq<char>| #[trigger] string_views(out@).contains(x) <==> vv.take(
                i as int + 1,
            ).contains(x) by {
                let t = vv.take(i as int + 1);
                if t.contains(x) {
                    let k = choose|k: int| 0 <= k < t.len() && t[k] == x;
                    if k < i {
                        assert(vv.take(i as int)[k] == x);
                    }
                }
                if vv.take(i as int).contains(x) {
                    let k = choose|k: int| 0 <= k < i && vv.take(i as int)[k] == x;
                    assert(t[k] == x);
                }
                if x == vv[i as int] {
                    assert(t[i as int] == x);
                }
            }
        }
        i = i + 1;
    }
    proof {
        assert(vv.take(i as int) =~= vv);
        let p = |x: Seq<char>| vv.contains(x);
        assert forall|x: Seq<char>| #[trigger] string_views(out@).contains(x) <==> p(x) by {}
        lemma_is_sorted_set(string_views(out@), p);
    }
    out
}

/// The workload trace a benchmark scenario was driven by.
#[derive(Debug, Clone, PartialEq, Eq)]
pub struct PerformanceWorkloadTrace {
    /// Workload identity.
    pub workload_id: String,
    /// Scenario the workload drives.
    pub scenario_id: String,
    /// Seed of the deterministic workload.
    pub deterministic_seed: u64,
    /// Hash of the recorded trace.
    pub trace_hash: String,
    /// Number of operations in the trace.
    pub operation_count: u64,
    /// Controlled inputs, ascending, each once.
    pub controlled_inputs: Vec<String>,
}

/// The canonical key of a workload trace.
pub open spec fn canonical_key_spec(t: PerformanceWorkloadTrace) -> Seq<char> {
    t.scenario_id@ + ":"@ + t.workload_id@ + ":"@ + decimal(t.deterministic_seed as nat) + ":"@
        + t.trace_hash@ + ":"@ + decimal(t.operation_count as nat)
}

impl PerformanceWorkloadTrace {
    /// A workload trace with no controlled inputs.
    pub fn new(
        workload_id: &str,
        scenario_id: &str,
        deterministic_seed: u64,
        trace_hash: &str,
        operation_count: u64,
    ) -> (t: PerformanceWorkloadTrace)
        ensures
            t.workload_id@ == workload_id@,
            t.scenario_id@ == scenario_id@,
            t.deterministic_seed == deterministic_seed,
            t.trace_hash@ == trace_hash@,
            t.operation_count == operation_count,
            t.controlled_inputs@.len() == 0,
    {
        PerformanceWorkloadTrace {
            workload_id: String::from_str(workload_id),
            scenario_id: String::from_str(scenario_id),
            deterministic_seed,
            trace_hash: String::from_str(trace_hash),
            operation_count,
            controlled_inputs: Vec::new(),
        }
    }

    /// Set the controlled inputs, sorted and deduplicated.
    pub fn with_controlled_inputs(self, controlled_inputs: Vec<String>) -> (t: PerformanceWorkloadTrace)
        ensures
            t == (PerformanceWorkloadTrace { controlled_inputs: t.controlled_inputs, ..self }),
            string_views(t.controlled_inputs@) == sorted_unique_spec(string_views(controlled_inputs@)),
    {
        let mut t = self;
        t.controlled_inputs = sorted_unique(controlled_inputs);
        t
    }

    /// `scenario:workload:seed:trace_hash:operation_count`.
    pub fn canonical_key(&self) -> (s: String)
        ensures
            s@ == canonical_key_spec(*self),
    {
        let mut s = self.scenario_id.clone();
        s.append(":");
        s.append(self.workload_id.as_str());
        s.append(":");
        let seed = u64_to_string(self.deterministic_seed);
        s.append(seed.as_str());
        s.append(":");
        s.append(self.trace_hash.as_str());
        s.append(":");
        let ops = u64_to_string(self.operation_count);
        s.append(ops.as_str());
        s
    }
}

// ── Trace order ──────────────────────────────────────────────────────────

/// Traces ordered by scenario, then workload, then seed, then trace hash.
pub open spec fn trace_lt(a: PerformanceWorkloadTrace, b: PerformanceWorkloadTrace) -> bool {
    ||| seq_lt(a.scenario_id@, b.scenario_id@)
    ||| (a.scenario_id@ == b.scenario_id@ && seq_lt(a.workload_id@, b.workload_id@))
    ||| (a.scenario_id@ == b.scenario_id@ && a.workload_id@ == b.workload_id@
        && a.deterministic_seed < b.deterministic_seed)
    ||| (a.scenario_id@ == b.scenario_id@ && a.workload_id@ == b.workload_id@
        && a.deterministic_seed == b.deterministic_seed && seq_lt(a.trace_hash@, b.trace_hash@))
}

/// Whether two traces share a sort key.
pub open spec fn same_trace_key(a: PerformanceWorkloadTrace, b: PerformanceWorkloadTrace) -> bool {
    &&& a.scenario_id@ == b.scenario_id@
    &&& a.workload_id@ == b.workload_id@
    &&& a.deterministic_seed == b.deterministic_seed
    &&& a.trace_hash@ == b.trace_hash@
}

/// Traces ascending by key (ties allowed).
pub open spec fn traces_sorted(s: Seq<PerformanceWorkloadTrace>) -> bool {
    forall|i: int, j: int| 0 <= i < j < s.len() ==> !trace_lt(#[trigger] s[j], #[trigger] s[i])
}

proof fn lemma_trace_lt_trans(a: PerformanceWorkloadTrace, b: PerformanceWorkloadTrace, c: PerformanceWorkloadTrace)
    requires
        trace_lt(a, b),
        trace_lt(b, c),
    ensures
        trace_lt(a, c),
{
    lemma_seq_lt_irreflexive(a.scenario_id@);
    lemma_seq_lt_irreflexive(b.scenario_id@);
    lemma_seq_lt_irreflexive(a.workload_id@);
    lemma_seq_lt_irreflexive(b.workload_id@);
    if seq_lt(a.scenario_id@, b.scenario_id@) && seq_lt(b.scenario_id@, c.scenario_id@) {
        lemma_seq_lt_trans(a.scenario_id@, b.scenario_id@, c.scenario_id@);
    }
    if a.scenario_id@ == b.scenario_id@ && b.scenario_id@ == c.scenario_id@ {
        if seq_lt(a.workload_id@, b.workload_id@) && seq_lt(b.workload_id@, c.workload_id@) {
            lemma_seq_lt_trans(a.workload_id@, b.workload_id@, c.workload_id@);
        }
        if a.workload_id@ == b.workload_id@ && b.workload_id@ == c.workload_id@
            && a.deterministic_seed == b.deterministic_seed
            && b.deterministic_seed == c.deterministic_seed {
            lemma_seq_lt_trans(a.trace_hash@, b.trace_hash@, c.trace_hash@);
        }
    }
}

proof fn lemma_trace_not_lt_total(a: PerformanceWorkloadTrace, b: PerformanceWorkloadTrace)
    requires
        !trace_lt(a, b),
    ensures
        trace_lt(b, a) || same_trace_key(a, b),
{
    lemma_seq_lt_total(a.scenario_id@, b.scenario_id@);
    lemma_seq_lt_total(a.workload_id@, b.workload_id@);
    lemma_seq_lt_total(a.trace_hash@, b.trace_hash@);
}

proof fn lemma_trace_lt_asym(a: PerformanceWorkloadTrace, b: PerformanceWorkloadTrace)
    requires
        trace_lt(a, b),
    ensures
        !trace_lt(b, a),
{
    lemma_seq_lt_irreflexive(a.scenario_id@);
    lemma_seq_lt_irreflexive(a.workload_id@);
    lemma_seq_lt_irreflexive(a.trace_hash@);
    if seq_lt(a.scenario_id@, b.scenario_id@) {
        lemma_seq_lt_asym(a.scenario_id@, b.scenario_id@);
    } else if seq_lt(a.workload_id@, b.workload_id@) {
        lemma_seq_lt_asym(a.workload_id@, b.workload_id@);
    } else if seq_lt(a.trace_hash@, b.trace_hash@) {
        lemma_seq_lt_asym(a.trace_hash@, b.trace_hash@);
    }
}

fn trace_before(a: &PerformanceWorkloadTrace, b: &PerformanceWorkloadTrace) -> (r: bool)
    ensures
        r == trace_lt(*a, *b),
{
    proof {
        lemma_seq_lt_irreflexive(a.scenario_id@);
        lemma_seq_lt_irreflexive(a.workload_id@);
    }
    if a.scenario_id != b.scenario_id {
        return str_lt(a.scenario_id.as_str(), b.scenario_id.as_str());
    }
    if a.workload_id != b.workload_id {
        return str_lt(a.workload_id.as_str(), b.workload_id.as_str());
    }
    if a.deterministic_seed != b.deterministic_seed {
        return a.deterministic_seed < b.deterministic_seed;
    }
    str_lt(a.trace_hash.as_str(), b.trace_hash.as_str())
}

proof fn lemma_trace_multiset_split(s: Seq<PerformanceWorkloadTrace>, x: PerformanceWorkloadTrace)
    requires
        s.len() > 0,
        s[0] == x,
    ensures
        s.to_multiset() == s.drop_first().to_multiset().insert(x),
{
    broadcast use vstd::seq_lib::group_to_multiset_ensures;
    assert(s =~= s.drop_first().insert(0, x));
}

proof fn lemma_trace_insert_multiset(s: Seq<PerformanceWorkloadTrace>, p: int, x: PerformanceWorkloadTrace)
    requires
        0 <= p <= s.len(),
    ensures
        s.insert(p, x).to_multiset() == s.to_multiset().insert(x),
{
    broadcast use vstd::seq_lib::group_to_multiset_ensures;
}

proof fn lemma_trace_empty_multiset(s: Seq<PerformanceWorkloadTrace>)
    requires
        s.len() == 0,
    ensures
        s.to_multiset() =~= vstd::multiset::Multiset::empty(),
{
    broadcast use vstd::seq_lib::group_to_multiset_ensures;
}

/// The traces of a run in canonical order: ascending by scenario, workload,
/// seed and trace hash, the same traces as given.
pub fn canonicalize_workload_traces(workload_traces: Vec<PerformanceWorkloadTrace>) -> (out: Vec<
    PerformanceWorkloadTrace,
>)
    ensures
        traces_sorted(out@),
        out@.to_multiset() == workload_traces@.to_multiset(),
{
    let ghost input = workload_traces@;
    let mut out: Vec<PerformanceWorkloadTrace> = Vec::new();
    let mut rest = workload_traces;
    proof {
        lemma_trace_empty_multiset(out@);
        assert(out@.to_multiset().add(rest@.to_multiset()) =~= input.to_multiset());
    }
    while rest.len() > 0
        invariant
            traces_sorted(out@),
            out@.to_multiset().add(rest@.to_multiset()) == input.to_multiset(),
        decreases rest@.len(),
    {
        let ghost rv = rest@;
        let x = rest.remove(0);
        proof {
            assert(rest@ =~= rv.drop_first());
            lemma_trace_multiset_split(rv, x);
        }
        let ghost ov = out@;
        let mut p: usize = out.len();
        while p > 0 && trace_before(&x, &out[p - 1])
            invariant
                p <= out@.len(),
                ov == out@,
                forall|k: int| p <= k < out@.len() ==> trace_lt(x, #[trigger] ov[k]),
            decreases p,
        {
            p = p - 1;
        }
        proof {
            if p > 0 {
                assert(!trace_lt(x, ov[p - 1]));
            }
        }
        out.insert(p, x);
        proof {
            let nv = out@;
            assert(nv =~= ov.insert(p as int, x));
            assert forall|i: int, j: int| 0 <= i < j < nv.len() implies !trace_lt(
                #[trigger] nv[j],
                #[trigger] nv[i],
            ) by {
                if j < p {
                    assert(nv[i] == ov[i] && nv[j] == ov[j]);
                } else if j == p {
                    assert(nv[i] == ov[i] && nv[j] == x);
                    if trace_lt(x, ov[i]) {
                        if i < p - 1 {
                            assert(!trace_lt(ov[p - 1], ov[i]));
                            lemma_trace_not_lt_total(x, ov[p - 1]);
                            if trace_lt(ov[p - 1], x) {
                                lemma_trace_lt_trans(ov[p - 1], x, ov[i]);
                            }
                        }
                    }
                } else if i == p {
                    assert(nv[i] == x && nv[j] == ov[j - 1]);
                    lemma_trace_lt_asym(x, ov[j - 1]);
                } else if i < p {
                    assert(nv[i] == ov[i] && nv[j] == ov[j - 1]);
                } else {
                    assert(nv[i] == ov[i - 1] && nv[j] == ov[j - 1]);
                }
            }
            lemma_trace_insert_multiset(ov, p as int, x);
            assert(out@.to_multiset().add(rest@.to_multiset()) =~= ov.to_multiset().add(
                rv.to_multiset(),
            ));
        }
    }
    proof {
        lemma_trace_empty_multiset(rest@);
        assert(out@.to_multiset().add(vstd::multiset::Multiset::empty()) =~= out@.to_multiset());
    }
    out
}

// ── Differences and the overall verdict ──────────────────────────────────

/// Kind of a certification-relevant difference.
#[derive(Debug, Clone, Copy, PartialEq, Eq, Structural)]
pub enum PerformanceDifferenceKind {
    /// The translated run lacks a scenario metric the source has.
    MissingScenarioMetric,
    /// The translated run has a scenario metric the source lacks.
    UnexpectedScenarioMetric,
    /// The two runs were not driven by the same controlled workload.
    UncontrolledWorkload,
    /// Too few samples to compare.
    InsufficientSamples,
    /// A regression beyond policy.
    PolicyRegression,
}

/// The overall verdict, decided in this order: a metric worse than its
/// policy limit; missing samples or an inconclusive metric, which call for
/// more evidence; any other difference, which counts as beyond the limit; a
/// significant slowdown within the limit; an improvement; otherwise
/// equivalence.
pub open spec fn overall_verdict_spec(
    comparisons: Seq<MetricComparisonVerdict>,
    differences: Seq<PerformanceDifferenceKind>,
) -> PerformanceDiffVerdict {
    if differences.contains(PerformanceDifferenceKind::PolicyRegression) {
        PerformanceDiffVerdict::PolicyRegression
    } else if differences.contains(PerformanceDifferenceKind::InsufficientSamples)
        || comparisons.contains(MetricComparisonVerdict::Inconclusive) {
        PerformanceDiffVerdict::NeedsMoreEvidence
    } else if differences.len() > 0 {
        PerformanceDiffVerdict::PolicyRegression
    } else if comparisons.contains(MetricComparisonVerdict::SignificantRegressionWithinPolicy) {
        PerformanceDiffVerdict::RegressionWithinPolicy
    } else if comparisons.contains(MetricComparisonVerdict::SignificantImprovement) {
        PerformanceDiffVerdict::Improvement
    } else {
        PerformanceDiffVerdict::Equivalent
    }
}

fn has_difference(ds: &Vec<PerformanceDifferenceKind>, k: PerformanceDifferenceKind) -> (b: bool)
    ensures
        b == ds@.contains(k),
{
    let mut i: usize = 0;
    while i < ds.len()
        invariant
            i <= ds@.len(),
            forall|j: int| 0 <= j < i ==> ds@[j] != k,
        decreases ds@.len() - i,
    {
        if ds[i] == k {
            return true;
        }
        i = i + 1;
    }
    false
}

fn has_comparison(cs: &Vec<MetricComparisonVerdict>, v: MetricComparisonVerdict) -> (b: bool)
    ensures
        b == cs@.contains(v),
{
    let mut i: usize = 0;
    while i < cs.len()
        invariant
            i <= cs@.len(),
            forall|j: int| 0 <= j < i ==> cs@[j] != v,
        decreases cs@.len() - i,
    {
        if cs[i] == v {
            return true;
        }
        i = i + 1;
    }
    false
}

/// The overall verdict from the per-metric verdicts and the kinds of the
/// differences found.
pub fn overall_verdict(
    comparisons: &Vec<MetricComparisonVerdict>,
    differences: &Vec<PerformanceDifferenceKind>,
) -> (v: PerformanceDiffVerdict)
    ensures
        v == overall_verdict_spec(comparisons@, differences@),
{
    if has_difference(differences, PerformanceDifferenceKind::PolicyRegression) {
        return PerformanceDiffVerdict::PolicyRegression;
    }
    if has_difference(differences, PerformanceDifferenceKind::InsufficientSamples) || has_comparison(
        comparisons,
        MetricComparisonVerdict::Inconclusive,
    ) {
        return PerformanceDiffVerdict::NeedsMoreEvidence;
    }
    if differences.len() > 0 {
        return PerformanceDiffVerdict::PolicyRegression;
    }
    if has_comparison(comparisons, MetricComparisonVerdict::SignificantRegressionWithinPolicy) {
        return PerformanceDiffVerdict::RegressionWithinPolicy;
    }
    if has_comparison(comparisons, MetricComparisonVerdict::SignificantImprovement) {
        return PerformanceDiffVerdict::Improvement;
    }
    PerformanceDiffVerdict::Equivalent
}

// ── Replay and artifact bundle ───────────────────────────────────────────

/// The replay command of a comparison: both runs' own commands joined with
/// `&&` when both have one, the one present otherwise, or a generated
/// `perf-replay` command.
pub open spec fn perf_replay_spec(
    source_run_id: Seq<char>,
    source_replay: Option<String>,
    translated_run_id: Seq<char>,
    translated_replay: Option<String>,
) -> Seq<char> {
    match (source_replay, translated_replay) {
        (Some(s), Some(t)) => s@ + " && "@ + t@,
        (Some(s), None) => s@,
        (None, Some(t)) => t@,
        (None, None) => "doctor_frankentui perf-replay --source-run "@ + source_run_id
            + " --translated-run "@ + translated_run_id,
    }
}

/// The replay command of a comparison between two runs.
pub fn perf_replay_command(
    source_run_id: &str,
    source_replay: &Option<String>,
    translated_run_id: &str,
    translated_replay: &Option<String>,
) -> (s: String)
    ensures
        s@ == perf_replay_spec(source_run_id@, *source_replay, translated_run_id@, *translated_replay),
{
    match (source_replay, translated_replay) {
        (Some(s), Some(t)) => cat3(s.as_str(), " && ", t.as_str()),
        (Some(s), None) => s.clone(),
        (None, Some(t)) => t.clone(),
        (None, None) => {
            let mut out = String::from_str("doctor_frankentui perf-replay --source-run ");
            out.append(source_run_id);
            out.append(" --translated-run ");
            out.append(translated_run_id);
            out
        },
    }
}

/// One file of the replay artifact bundle.
#[derive(Debug, Clone, PartialEq, Eq)]
pub struct PerformanceDiffArtifactFile {
    /// Relative path.
    pub path: String,
    /// SHA-256 of `content`.
    pub sha256: String,
    /// Length of `content` in UTF-8 bytes.
    pub byte_len: usize,
    /// File content.
    pub content: String,
}

/// Whether `f` records its content's checksum and byte length.
pub open spec fn file_consistent(f: PerformanceDiffArtifactFile) -> bool {
    &&& f.sha256@ == hex_of(sha256_spec(utf8_of(f.content@)))
    &&& f.byte_len == utf8_of(f.content@).len()
}

/// An artifact file for `content` at `path`.
pub fn artifact_file(path: &str, content: String) -> (f: PerformanceDiffArtifactFile)
    ensures
        f.path@ == path@,
        f.content@ == content@,
        file_consistent(f),
{
    let bytes = utf8_bytes(content.as_str());
    let sha = sha256_hex_of_text(content.as_str());
    PerformanceDiffArtifactFile {
        path: String::from_str(path),
        sha256: sha,
        byte_len: bytes.len(),
        content,
    }
}

/// The replay artifact bundle.
#[derive(Debug, Clone, PartialEq, Eq)]
pub struct PerformanceDiffArtifactBundle {
    /// Deterministic bundle identifier.
    pub bundle_id: String,
    /// Replay command of the comparison.
    pub replay_command: String,
    /// The bundle's files.
    pub files: Vec<PerformanceDiffArtifactFile>,
    /// SHA-256 over every file's path, checksum and length.
    pub bundle_sha256: String,
}

/// The line a file contributes to the bundle hash: `path:sha256:byte_len`.
pub open spec fn file_line(f: PerformanceDiffArtifactFile) -> Seq<char> {
    f.path@ + ":"@ + f.sha256@ + ":"@ + decimal(f.byte_len as nat)
}

/// The lines of the first `n` files joined with newlines.
pub open spec fn bundle_hash_input(files: Seq<PerformanceDiffArtifactFile>, n: int) -> Seq<char>
    decreases n,
{
    if n <= 0 {
        Seq::empty()
    } else if n == 1 {
        file_line(files[0])
    } else {
        bundle_hash_input(files, n - 1) + "\n"@ + file_line(files[n - 1])
    }
}

/// The bundle's checksum.
pub open spec fn bundle_sha_spec(files: Seq<PerformanceDiffArtifactFile>) -> Seq<char> {
    hex_of(sha256_spec(utf8_of(bundle_hash_input(files, files.len() as int))))
}

/// Assemble a bundle from its files: the checksum covers every file's path,
/// checksum and length, and the id is `performance-diff-` followed by the
/// checksum's first twelve characters.
pub fn assemble_artifact_bundle(replay_command: String, files: Vec<PerformanceDiffArtifactFile>) -> (b:
    PerformanceDiffArtifactBundle)
    ensures
        b.replay_command == replay_command,
        b.files@ == files@,
        b.bundle_sha256@ == bundle_sha_spec(files@),
        b.bundle_id@ == "performance-diff-"@ + bundle_sha_spec(files@).take(12),
{
    let mut input = String::new();
    let mut i: usize = 0;
    while i < files.len()
        invariant
            i <= files@.len(),
            input@ == bundle_hash_input(files@, i as int),
        decreases files@.len() - i,
    {
        if i > 0 {
            input.append("\n");
        }
        let f = &files[i];
        let mut line = f.path.clone();
        line.append(":");
        line.append(f.sha256.as_str());
        line.append(":");
        let len_text = usize_to_string(f.byte_len);
        line.append(len_text.as_str());
        input.append(line.as_str());
        proof {
            if i == 0 {
                assert(input@ =~= file_line(files@[0]));
            }
        }
        i = i + 1;
    }
    let sha = sha256_hex_of_text(input.as_str());
    let chars = crate::text::chars_of(sha.as_str());
    let mut prefix: Vec<char> = Vec::new();
    let mut k: usize = 0;
    while k < 12
        invariant
            k <= 12,
            chars@ == sha@,
            sha@.len() == 64,
            prefix@ == chars@.take(k as int),
        decreases 12 - k,
    {
        prefix.push(chars[k]);
        proof {
            assert(chars@.take(k as int + 1) =~= chars@.take(k as int).push(chars@[k as int]));
        }
        k = k + 1;
    }
    let head = crate::text::string_from_chars(prefix.as_slice());
    let id = cat("performance-diff-", head.as_str());
    PerformanceDiffArtifactBundle { bundle_id: id, replay_command, files, bundle_sha256: sha }
}

// ── Workload controls ────────────────────────────────────────────────────

/// What the control check reads of one benchmark sample.
#[derive(Debug, Clone, PartialEq, Eq)]
pub struct SampleControl {
    /// Workload the sample was collected under.
    pub workload_id: String,
    /// Seed the sample was collected with.
    pub deterministic_seed: u64,
}

/// Outcome of checking that both runs of a scenario metric were driven by
/// the same controlled workload.
#[derive(Debug, Clone, PartialEq, Eq)]
pub enum WorkloadControl {
    /// Both runs used this controlled workload.
    Controlled(String),
    /// The control failed: the workload involved (when one was
    /// identified), the offending values, and why.
    Uncontrolled {
        /// The workload involved, when one was identified.
        workload_id: Option<String>,
        /// The offending values.
        value: Option<String>,
        /// Why the control failed.
        reason: String,
    },
}

/// The one workload id all samples share, if they share exactly one.
pub open spec fn single_id(samples: Seq<SampleControl>) -> Option<Seq<char>> {
    if samples.len() > 0 && forall|i: int| 0 <= i < samples.len() ==> (#[trigger] samples[i]).workload_id@
        == samples[0].workload_id@ {
        Some(samples[0].workload_id@)
    } else {
        None
    }
}

/// The last trace among the first `n` with workload id `id` (a later trace
/// replaces an earlier one with the same id).
pub open spec fn trace_for(ts: Seq<PerformanceWorkloadTrace>, id: Seq<char>, n: int) -> Option<PerformanceWorkloadTrace>
    decreases n,
{
    if n <= 0 {
        None
    } else if ts[n - 1].workload_id@ == id {
        Some(ts[n - 1])
    } else {
        trace_for(ts, id, n - 1)
    }
}

/// Whether every sample was collected with `seed`.
pub open spec fn seeds_match(samples: Seq<SampleControl>, seed: u64) -> bool {
    forall|i: int| 0 <= i < samples.len() ==> (#[trigger] samples[i]).deterministic_seed == seed
}

/// The outcome of the control check, in order: one shared workload id, a
/// trace for it on each side, traces of the sampled scenario, equal seeds,
/// byte-equivalent traces, and samples collected with the trace's seed.
pub open spec fn control_spec(
    scenario_id: Seq<char>,
    samples: Seq<SampleControl>,
    source_workloads: Seq<PerformanceWorkloadTrace>,
    translated_workloads: Seq<PerformanceWorkloadTrace>,
) -> (Option<Seq<char>>, Option<Seq<char>>, Seq<char>) {
    match single_id(samples) {
        None => (None, None, "source and translated samples do not share one workload_id"@),
        Some(id) => match trace_for(source_workloads, id, source_workloads.len() as int) {
            None => (Some(id), None, "source run is missing the workload trace descriptor"@),
            Some(s) => match trace_for(translated_workloads, id, translated_workloads.len() as int) {
                None => (Some(id), None, "translated run is missing the workload trace descriptor"@),
                Some(t) => if s.scenario_id@ != scenario_id || t.scenario_id@ != scenario_id {
                    (
                        Some(id),
                        Some(
                            "source_scenario="@ + s.scenario_id@ + ";translated_scenario="@
                                + t.scenario_id@,
                        ),
                        "workload trace scenario does not match sampled scenario"@,
                    )
                } else if s.deterministic_seed != t.deterministic_seed {
                    (
                        Some(id),
                        Some(
                            "source_seed="@ + decimal(s.deterministic_seed as nat)
                                + ";translated_seed="@ + decimal(t.deterministic_seed as nat),
                        ),
                        "workload traces used different deterministic seeds"@,
                    )
                } else if s.trace_hash@ != t.trace_hash@ || s.operation_count != t.operation_count
                    || string_views(s.controlled_inputs@) != string_views(t.controlled_inputs@) {
                    (
                        Some(id),
                        Some("source="@ + canonical_key_spec(s) + ";translated="@ + canonical_key_spec(t)),
                        "workload traces are not byte-equivalent controlled inputs"@,
                    )
                } else if !seeds_match(samples, s.deterministic_seed) {
                    (
                        Some(id),
                        Some("expected_sample_seed="@ + decimal(s.deterministic_seed as nat)),
                        "at least one sample was collected with a seed outside the controlled trace"@,
                    )
                } else {
                    (Some(id), None, Seq::empty())
                },
            },
        },
    }
}

/// Whether `w` is the outcome `control_spec` describes (an empty reason
/// meaning the workload is controlled).
pub open spec fn control_matches(w: WorkloadControl, c: (Option<Seq<char>>, Option<Seq<char>>, Seq<char>)) -> bool {
    match w {
        WorkloadControl::Controlled(id) => c.2.len() == 0 && c.0 == Some(id@),
        WorkloadControl::Uncontrolled { workload_id, value, reason } => {
            &&& c.2.len() > 0
            &&& reason@ == c.2
            &&& match workload_id {
                None => c.0 is None,
                Some(i) => c.0 == Some(i@),
            }
            &&& match value {
                None => c.1 is None,
                Some(v) => c.1 == Some(v@),
            }
        },
    }
}

fn uncontrolled(workload_id: Option<String>, value: Option<String>, reason: &str) -> (w: WorkloadControl)
    ensures
        w == (WorkloadControl::Uncontrolled { workload_id, value, reason: w->reason }),
        w->reason@ == reason@,
{
    WorkloadControl::Uncontrolled { workload_id, value, reason: String::from_str(reason) }
}

fn shared_workload_id(samples: &Vec<SampleControl>) -> (r: Option<String>)
    ensures
        match r {
            None => single_id(samples@) is None,
            Some(id) => single_id(samples@) == Some(id@),
        },
{
    if samples.len() == 0 {
        return None;
    }
    let first = &samples[0].workload_id;
    let mut i: usize = 1;
    while i < samples.len()
        invariant
            1 <= i <= samples@.len(),
            *first == samples@[0].workload_id,
            forall|k: int| 0 <= k < i ==> (#[trigger] samples@[k]).workload_id@ == samples@[0].workload_id@,
        decreases samples@.len() - i,
    {
        if samples[i].workload_id != *first {
            return None;
        }
        i = i + 1;
    }
    Some(first.clone())
}

fn find_trace(ts: &Vec<PerformanceWorkloadTrace>, id: &String) -> (r: Option<usize>)
    ensures
        match r {
            None => trace_for(ts@, id@, ts@.len() as int) is None,
            Some(k) => k < ts@.len() && trace_for(ts@, id@, ts@.len() as int) == Some(ts@[k as int]),
        },
{
    let mut n: usize = ts.len();
    while n > 0
        invariant
            n <= ts@.len(),
            trace_for(ts@, id@, ts@.len() as int) == trace_for(ts@, id@, n as int),
        decreases n,
    {
        if ts[n - 1].workload_id == *id {
            return Some(n - 1);
        }
        n = n - 1;
    }
    None
}

fn same_strings(a: &Vec<String>, b: &Vec<String>) -> (r: bool)
    ensures
        r == (string_views(a@) == string_views(b@)),
{
    if a.len() != b.len() {
        proof {
            assert(string_views(a@).len() != string_views(b@).len());
        }
        return false;
    }
    let mut i: usize = 0;
    while i < a.len()
        invariant
            i <= a@.len(),
            a@.len() == b@.len(),
            forall|k: int| 0 <= k < i ==> (#[trigger] a@[k])@ == b@[k]@,
        decreases a@.len() - i,
    {
        if a[i] != b[i] {
            proof {
                assert(string_views(a@)[i as int] != string_views(b@)[i as int]);
            }
            return false;
        }
        i = i + 1;
    }
    proof {
        assert(string_views(a@) =~= string_views(b@));
    }
    true
}

fn all_seeds(samples: &Vec<SampleControl>, seed: u64) -> (r: bool)
    ensures
        r == seeds_match(samples@, seed),
{
    let mut i: usize = 0;
    while i < samples.len()
        invariant
            i <= samples@.len(),
            forall|k: int| 0 <= k < i ==> (#[trigger] samples@[k]).deterministic_seed == seed,
        decreases samples@.len() - i,
    {
        if samples[i].deterministic_seed != seed {
            return false;
        }
        i = i + 1;
    }
    true
}

/// Check that the source and translated samples of one scenario metric were
/// driven by the same controlled workload. `samples` holds the source
/// samples followed by the translated ones.
pub fn check_workload_controls(
    scenario_id: &str,
    samples: &Vec<SampleControl>,
    source_workloads: &Vec<PerformanceWorkloadTrace>,
    translated_workloads: &Vec<PerformanceWorkloadTrace>,
) -> (w: WorkloadControl)
    ensures
        control_matches(
            w,
            control_spec(scenario_id@, samples@, source_workloads@, translated_workloads@),
        ),
{
    proof {
        reveal_strlit("source and translated samples do not share one workload_id");
        reveal_strlit("source run is missing the workload trace descriptor");
        reveal_strlit("translated run is missing the workload trace descriptor");
        reveal_strlit("workload trace scenario does not match sampled scenario");
        reveal_strlit("workload traces used different deterministic seeds");
        reveal_strlit("workload traces are not byte-equivalent controlled inputs");
        reveal_strlit("at least one sample was collected with a seed outside the controlled trace");
    }
    let id = match shared_workload_id(samples) {
        None => {
            return uncontrolled(None, None, "source and translated samples do not share one workload_id");
        },
        Some(id) => id,
    };
    let si = match find_trace(source_workloads, &id) {
        None => {
            return uncontrolled(Some(id), None, "source run is missing the workload trace descriptor");
        },
        Some(k) => k,
    };
    let ti = match find_trace(translated_workloads, &id) {
        None => {
            return uncontrolled(Some(id), None, "translated run is missing the workload trace descriptor");
        },
        Some(k) => k,
    };
    let s = &source_workloads[si];
    let t = &translated_workloads[ti];
    let scenario = String::from_str(scenario_id);
    if s.scenario_id != scenario || t.scenario_id != scenario {
        let mut v = String::from_str("source_scenario=");
        v.append(s.scenario_id.as_str());
        v.append(";translated_scenario=");
        v.append(t.scenario_id.as_str());
        return uncontrolled(Some(id), Some(v), "workload trace scenario does not match sampled scenario");
    }
    if s.deterministic_seed != t.deterministic_seed {
        let mut v = String::from_str("source_seed=");
        let a = u64_to_string(s.deterministic_seed);
        v.append(a.as_str());
        v.append(";translated_seed=");
        let b = u64_to_string(t.deterministic_seed);
        v.append(b.as_str());
        return uncontrolled(Some(id), Some(v), "workload traces used different deterministic seeds");
    }
    if s.trace_hash != t.trace_hash || s.operation_count != t.operation_count || !same_strings(
        &s.controlled_inputs,
        &t.controlled_inputs,
    ) {
        let mut v = String::from_str("source=");
        let a = s.canonical_key();
        v.append(a.as_str());
        v.append(";translated=");
        let b = t.canonical_key();
        v.append(b.as_str());
        return uncontrolled(Some(id), Some(v), "workload traces are not byte-equivalent controlled inputs");
    }
    if !all_seeds(samples, s.deterministic_seed) {
        let mut v = String::from_str("expected_sample_seed=");
        let a = u64_to_string(s.deterministic_seed);
        v.append(a.as_str());
        return uncontrolled(
            Some(id),
            Some(v),
            "at least one sample was collected with a seed outside the controlled trace",
        );
    }
    WorkloadControl::Controlled(id)
}

} // verus!
