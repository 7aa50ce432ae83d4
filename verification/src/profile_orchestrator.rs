//! Profiler orchestration plans: the profiling modalities, the profiler
//! invocations a plan records (described, not executed), and the plan's
//! deterministic identity and replay commands.
//!
//! A plan sorts its invocations by modality, tool and output artifact, so
//! the same set of invocations gives the same plan whatever order they were
//! listed in.

use vstd::prelude::*;
use vstd::string::*;

use crate::text::{
    cat, content_id, field, hex_of, lemma_seq_lt_asym, lemma_seq_lt_irreflexive,
    lemma_seq_lt_total, lemma_seq_lt_trans, push_field, seq_lt, sha256_hex_of_text, sha256_spec,
    str_lt, string_views, strings_contain, text_short_id, u64_to_string, utf8_of, decimal,
};

verus! {

/// Schema version for profile orchestration plans and reports.
pub const PROFILE_ORCHESTRATION_SCHEMA_VERSION: &'static str = "profile-orchestration-v1";

/// Profiling modality attributing one dimension of runtime cost.
#[derive(Debug, Clone, Copy, PartialEq, Eq, PartialOrd, Ord, Hash, Structural)]
pub enum ProfileModality {
    /// CPU self-time (flamegraph-style sampling).
    Cpu,
    /// Allocation pressure (bytes allocated / retained).
    Allocation,
    /// Syscall overhead (count or time spent in kernel).
    Syscall,
}

impl ProfileModality {
    /// Canonical orchestration order used for deterministic iteration.
    pub const ALL: [ProfileModality; 3] = [
        ProfileModality::Cpu,
        ProfileModality::Allocation,
        ProfileModality::Syscall,
    ];

    /// Position in the canonical order.
    pub open spec fn rank(self) -> int {
        match self {
            ProfileModality::Cpu => 0,
            ProfileModality::Allocation => 1,
            ProfileModality::Syscall => 2,
        }
    }

    /// Stable lowercase tag used in identifiers and evidence.
    pub open spec fn tag(self) -> Seq<char> {
        match self {
            ProfileModality::Cpu => "cpu"@,
            ProfileModality::Allocation => "allocation"@,
            ProfileModality::Syscall => "syscall"@,
        }
    }

    /// Stable lowercase tag used in identifiers and evidence.
    pub fn category_tag(self) -> (s: &'static str)
        ensures
            s@ == self.tag(),
    {
        match self {
            ProfileModality::Cpu => "cpu",
            ProfileModality::Allocation => "allocation",
            ProfileModality::Syscall => "syscall",
        }
    }

    /// Unit label for the modality's raw weight.
    pub open spec fn unit(self) -> Seq<char> {
        match self {
            ProfileModality::Cpu => "self_time_us"@,
            ProfileModality::Allocation => "bytes"@,
            ProfileModality::Syscall => "syscalls"@,
        }
    }

    /// Human-facing unit label for the modality's raw weight.
    pub fn weight_unit(self) -> (s: &'static str)
        ensures
            s@ == self.unit(),
    {
        match self {
            ProfileModality::Cpu => "self_time_us",
            ProfileModality::Allocation => "bytes",
            ProfileModality::Syscall => "syscalls",
        }
    }
}

impl Default for ProfileModality {
    /// CPU self-time.
    fn default() -> (m: Self)
        ensures
            m == ProfileModality::Cpu,
    {
        ProfileModality::Cpu
    }
}

/// The benchmark profile a plan targets: a profile name and a fixture.
#[derive(Debug, Clone, PartialEq, Eq)]
pub struct BenchmarkProfileKey {
    /// Benchmark profile name.
    pub profile: String,
    /// Fixture within the profile.
    pub fixture: String,
}

impl BenchmarkProfileKey {
    /// A profile key.
    pub fn new(profile: &str, fixture: &str) -> (k: BenchmarkProfileKey)
        ensures
            k.profile@ == profile@,
            k.fixture@ == fixture@,
    {
        BenchmarkProfileKey { profile: String::from_str(profile), fixture: String::from_str(fixture) }
    }
}

// ── Invocations ──────────────────────────────────────────────────────────

/// One profiler invocation recorded in the orchestration plan.
#[derive(Debug, Clone, PartialEq, Eq)]
pub struct ProfilerInvocation {
    /// The modality the invocation attributes.
    pub modality: ProfileModality,
    /// The profiler tool.
    pub tool: String,
    /// Its arguments.
    pub args: Vec<String>,
    /// The artifact the run produces.
    pub output_artifact: String,
    /// Fingerprint of the invocation's identity.
    pub fingerprint_sha256: String,
}

/// The mathematical content of an invocation.
pub struct ProfilerInvocationView {
    pub modality: ProfileModality,
    pub tool: Seq<char>,
    pub args: Seq<Seq<char>>,
    pub output_artifact: Seq<char>,
    pub fingerprint_sha256: Seq<char>,
}

impl View for ProfilerInvocation {
    type V = ProfilerInvocationView;

    open spec fn view(&self) -> ProfilerInvocationView {
        ProfilerInvocationView {
            modality: self.modality,
            tool: self.tool@,
            args: string_views(self.args@),
            output_artifact: self.output_artifact@,
            fingerprint_sha256: self.fingerprint_sha256@,
        }
    }
}

/// The views of a list of invocations.
pub open spec fn invocation_views(s: Seq<ProfilerInvocation>) -> Seq<ProfilerInvocationView> {
    s.map_values(|i: ProfilerInvocation| i@)
}

/// The fields of the first `n` strings, one after another.
pub open spec fn fields_of(s: Seq<Seq<char>>, n: int) -> Seq<char>
    decreases n,
{
    if n <= 0 {
        Seq::empty()
    } else {
        fields_of(s, n - 1) + field(s[n - 1])
    }
}

/// The identity text of an invocation: modality tag, tool, argument count,
/// each argument, output artifact.
pub open spec fn invocation_identity(
    modality: ProfileModality,
    tool: Seq<char>,
    args: Seq<Seq<char>>,
    output_artifact: Seq<char>,
) -> Seq<char> {
    field(modality.tag()) + field(tool) + field(decimal(args.len())) + fields_of(
        args,
        args.len() as int,
    ) + field(output_artifact)
}

/// Append the fields of every string of `v`.
fn push_fields(out: &mut String, v: &Vec<String>)
    ensures
        final(out)@ == old(out)@ + fields_of(string_views(v@), v@.len() as int),
{
    let ghost sv = string_views(v@);
    let mut i: usize = 0;
    proof {
        assert(out@ =~= old(out)@ + fields_of(sv, 0));
    }
    while i < v.len()
        invariant
            i <= v@.len(),
            sv == string_views(v@),
            out@ == old(out)@ + fields_of(sv, i as int),
        decreases v@.len() - i,
    {
        push_field(out, v[i].as_str());
        proof {
            assert(sv[i as int] == v@[i as int]@);
            assert(out@ =~= old(out)@ + fields_of(sv, i as int + 1));
        }
        i = i + 1;
    }
}

/// The tool followed by each argument, separated by single spaces.
pub open spec fn command_line(tool: Seq<char>, args: Seq<Seq<char>>, n: int) -> Seq<char>
    decreases n,
{
    if n <= 0 {
        tool
    } else {
        command_line(tool, args, n - 1) + " "@ + args[n - 1]
    }
}

/// The replay command of an invocation.
pub open spec fn invocation_replay_spec(i: ProfilerInvocationView) -> Seq<char> {
    command_line(i.tool, i.args, i.args.len() as int) + " # artifact="@ + i.output_artifact
}

impl ProfilerInvocation {
    /// An invocation; its fingerprint is the hex SHA-256 of its identity.
    pub fn new(modality: ProfileModality, tool: &str, args: Vec<String>, output_artifact: &str) -> (
        i: ProfilerInvocation)
        ensures
            i.modality == modality,
            i.tool@ == tool@,
            i.args@ == args@,
            i.output_artifact@ == output_artifact@,
            i.fingerprint_sha256@ == hex_of(
                sha256_spec(
                    utf8_of(
                        invocation_identity(
                            modality,
                            tool@,
                            string_views(args@),
                            output_artifact@,
                        ),
                    ),
                ),
            ),
    {
        let mut identity = String::new();
        push_field(&mut identity, modality.category_tag());
        proof {
            assert(identity@ =~= field(modality.tag()));
        }
        push_field(&mut identity, tool);
        let count = crate::text::usize_to_string(args.len());
        push_field(&mut identity, count.as_str());
        push_fields(&mut identity, &args);
        push_field(&mut identity, output_artifact);
        let fingerprint = sha256_hex_of_text(identity.as_str());
        ProfilerInvocation {
            modality,
            tool: String::from_str(tool),
            args,
            output_artifact: String::from_str(output_artifact),
            fingerprint_sha256: fingerprint,
        }
    }

    /// Deterministic shell-style replay command for this invocation.
    pub fn replay_command(&self) -> (s: String)
        ensures
            s@ == invocation_replay_spec(self@),
    {
        let ghost av = string_views(self.args@);
        let mut out = self.tool.clone();
        let mut i: usize = 0;
        while i < self.args.len()
            invariant
                i <= self.args@.len(),
                av == string_views(self.args@),
                out@ == command_line(self.tool@, av, i as int),
            decreases self.args@.len() - i,
        {
            out.append(" ");
            out.append(self.args[i].as_str());
            proof {
                assert(av[i as int] == self.args@[i as int]@);
            }
            i = i + 1;
        }
        out.append(" # artifact=");
        out.append(self.output_artifact.as_str());
        out
    }
}

// ── Invocation order ─────────────────────────────────────────────────────

/// Invocations ordered by modality, then tool, then output artifact.
pub open spec fn invocation_lt(a: ProfilerInvocationView, b: ProfilerInvocationView) -> bool {
    ||| a.modality.rank() < b.modality.rank()
    ||| (a.modality == b.modality && seq_lt(a.tool, b.tool))
    ||| (a.modality == b.modality && a.tool == b.tool && seq_lt(a.output_artifact, b.output_artifact))
}

/// Whether two invocations share a sort key.
pub open spec fn same_key(a: ProfilerInvocationView, b: ProfilerInvocationView) -> bool {
    a.modality == b.modality && a.tool == b.tool && a.output_artifact == b.output_artifact
}

/// Invocations ascending by key (ties allowed).
pub open spec fn invocations_sorted(s: Seq<ProfilerInvocationView>) -> bool {
    forall|i: int, j: int| 0 <= i < j < s.len() ==> !invocation_lt(#[trigger] s[j], #[trigger] s[i])
}

proof fn lemma_lt_trans(a: ProfilerInvocationView, b: ProfilerInvocationView, c: ProfilerInvocationView)
    requires
        invocation_lt(a, b),
        invocation_lt(b, c),
    ensures
        invocation_lt(a, c),
{
    lemma_seq_lt_irreflexive(a.tool);
    lemma_seq_lt_irreflexive(b.tool);
    if a.modality == b.modality && b.modality == c.modality {
        if a.tool == b.tool && b.tool == c.tool {
            lemma_seq_lt_trans(a.output_artifact, b.output_artifact, c.output_artifact);
        } else if a.tool == b.tool {
        } else if b.tool == c.tool {
        } else {
            lemma_seq_lt_trans(a.tool, b.tool, c.tool);
        }
    }
}

proof fn lemma_not_lt_total(a: ProfilerInvocationView, b: ProfilerInvocationView)
    requires
        !invocation_lt(a, b),
    ensures
        !invocation_lt(b, a) ==> same_key(a, b),
        invocation_lt(b, a) || same_key(a, b),
{
    lemma_seq_lt_total(a.tool, b.tool);
    lemma_seq_lt_total(a.output_artifact, b.output_artifact);
    if a.modality != b.modality {
        assert(a.modality.rank() != b.modality.rank());
    }
}

proof fn lemma_lt_asym(a: ProfilerInvocationView, b: ProfilerInvocationView)
    requires
        invocation_lt(a, b),
    ensures
        !invocation_lt(b, a),
{
    if a.modality == b.modality {
        if seq_lt(a.tool, b.tool) {
            lemma_seq_lt_asym(a.tool, b.tool);
        } else {
            lemma_seq_lt_irreflexive(a.tool);
            lemma_seq_lt_asym(a.output_artifact, b.output_artifact);
        }
    }
}

/// Whether invocation `a` sorts before invocation `b`.
fn invocation_before(a: &ProfilerInvocation, b: &ProfilerInvocation) -> (r: bool)
    ensures
        r == invocation_lt(a@, b@),
{
    if a.modality != b.modality {
        return modality_index(a.modality) < modality_index(b.modality);
    }
    if str_lt(a.tool.as_str(), b.tool.as_str()) {
        return true;
    }
    if a.tool != b.tool {
        return false;
    }
    str_lt(a.output_artifact.as_str(), b.output_artifact.as_str())
}

fn modality_index(m: ProfileModality) -> (r: u8)
    ensures
        r == m.rank(),
{
    match m {
        ProfileModality::Cpu => 0,
        ProfileModality::Allocation => 1,
        ProfileModality::Syscall => 2,
    }
}

/// Sort invocations by key; invocations with equal keys keep their order.
fn sort_invocations(input: Vec<ProfilerInvocation>) -> (out: Vec<ProfilerInvocation>)
    ensures
        invocations_sorted(invocation_views(out@)),
        invocation_views(out@).to_multiset() == invocation_views(input@).to_multiset(),
{
    let ghost iv = invocation_views(input@);
    let mut out: Vec<ProfilerInvocation> = Vec::new();
    let mut rest = input;
    let ghost consumed: Seq<ProfilerInvocationView> = Seq::empty();
    proof {
        assert(invocation_views(rest@) =~= iv);
        lemma_empty_multiset(invocation_views(out@));
        assert(invocation_views(out@).to_multiset().add(invocation_views(rest@).to_multiset())
            =~= iv.to_multiset());
    }
    while rest.len() > 0
        invariant
            invocations_sorted(invocation_views(out@)),
            invocation_views(out@).to_multiset().add(invocation_views(rest@).to_multiset())
                == iv.to_multiset(),
        decreases rest@.len(),
    {
        let ghost rv = invocation_views(rest@);
        let x = rest.remove(0);
        proof {
            assert(invocation_views(rest@) =~= rv.drop_first());
            assert(rv =~= seq![x@] + rv.drop_first());
            lemma_multiset_split(rv, x@);
        }
        let ghost ov = invocation_views(out@);
        let mut p: usize = out.len();
        while p > 0 && invocation_before(&x, &out[p - 1])
            invariant
                p <= out@.len(),
                ov == invocation_views(out@),
                forall|k: int| p <= k < out@.len() ==> invocation_lt(x@, #[trigger] ov[k]),
            decreases p,
        {
            p = p - 1;
        }
        proof {
            if p > 0 {
                assert(!invocation_lt(x@, ov[p - 1]));
            }
        }
        out.insert(p, x);
        proof {
            let nv = invocation_views(out@);
            assert(nv =~= ov.insert(p as int, x@));
            assert forall|i: int, j: int| 0 <= i < j < nv.len() implies !invocation_lt(
                #[trigger] nv[j],
                #[trigger] nv[i],
            ) by {
                if j < p {
                    assert(nv[i] == ov[i] && nv[j] == ov[j]);
                } else if j == p {
                    assert(nv[i] == ov[i] && nv[j] == x@);
                    if invocation_lt(x@, ov[i]) {
                        if i < p - 1 {
                            assert(!invocation_lt(ov[p - 1], ov[i]));
                            lemma_not_lt_total(x@, ov[p - 1]);
                            if invocation_lt(ov[p - 1], x@) {
                                lemma_lt_trans(ov[p - 1], x@, ov[i]);
                            }
                        }
                    }
                } else if i == p {
                    assert(nv[i] == x@ && nv[j] == ov[j - 1]);
                    lemma_lt_asym(x@, ov[j - 1]);
                } else if i < p {
                    assert(nv[i] == ov[i] && nv[j] == ov[j - 1]);
                } else {
                    assert(nv[i] == ov[i - 1] && nv[j] == ov[j - 1]);
                }
            }
            lemma_insert_multiset(ov, p as int, x@);
            assert(invocation_views(out@).to_multiset().add(invocation_views(rest@).to_multiset())
                =~= ov.to_multiset().add(rv.to_multiset()));
        }
    }
    proof {
        assert(invocation_views(rest@).len() == 0);
        lemma_empty_multiset(invocation_views(rest@));
        assert(invocation_views(out@).to_multiset().add(vstd::multiset::Multiset::empty())
            =~= invocation_views(out@).to_multiset());
    }
    out
}

proof fn lemma_multiset_split(s: Seq<ProfilerInvocationView>, x: ProfilerInvocationView)
    requires
        s.len() > 0,
        s[0] == x,
    ensures
        s.to_multiset() == s.drop_first().to_multiset().insert(x),
{
    broadcast use vstd::seq_lib::group_to_multiset_ensures;
    assert(s =~= s.drop_first().insert(0, x));
}

proof fn lemma_empty_multiset(s: Seq<ProfilerInvocationView>)
    requires
        s.len() == 0,
    ensures
        s.to_multiset() =~= vstd::multiset::Multiset::empty(),
{
    broadcast use vstd::seq_lib::group_to_multiset_ensures;
}

proof fn lemma_insert_multiset(s: Seq<ProfilerInvocationView>, p: int, x: ProfilerInvocationView)
    requires
        0 <= p <= s.len(),
    ensures
        s.insert(p, x).to_multiset() == s.to_multiset().insert(x),
{
    broadcast use vstd::seq_lib::group_to_multiset_ensures;
}

// ── Plans ────────────────────────────────────────────────────────────────

/// Orchestration plan: target identity plus the profiler invocations to run.
#[derive(Debug, Clone, PartialEq, Eq)]
pub struct ProfileOrchestrationPlan {
    /// Schema version constant.
    pub schema_version: String,
    /// Deterministic plan identifier.
    pub plan_id: String,
    /// The profiled target.
    pub target_id: String,
    /// The benchmark profile the plan serves.
    pub profile: BenchmarkProfileKey,
    /// Deterministic seed of the profiled workload.
    pub deterministic_seed: u64,
    /// The invocations, sorted by modality, tool and output artifact.
    pub invocations: Vec<ProfilerInvocation>,
}

/// The fingerprints of a list of invocations, in order.
pub open spec fn fingerprints(s: Seq<ProfilerInvocationView>) -> Seq<Seq<char>> {
    s.map_values(|i: ProfilerInvocationView| i.fingerprint_sha256)
}

/// The identity text a plan id is derived from.
pub open spec fn plan_identity(
    target_id: Seq<char>,
    profile: BenchmarkProfileKey,
    seed: u64,
    invs: Seq<ProfilerInvocationView>,
) -> Seq<char> {
    field(PROFILE_ORCHESTRATION_SCHEMA_VERSION@) + field(target_id) + field(profile.profile@) + field(
        profile.fixture@,
    ) + field(decimal(seed as nat)) + field(decimal(invs.len())) + fields_of(
        fingerprints(invs),
        invs.len() as int,
    )
}

/// The deterministic plan id.
pub open spec fn plan_id_spec(
    target_id: Seq<char>,
    profile: BenchmarkProfileKey,
    seed: u64,
    invs: Seq<ProfilerInvocationView>,
) -> Seq<char> {
    "profile-plan-"@ + content_id(utf8_of(plan_identity(target_id, profile, seed, invs)))
}

/// The replay command of a plan.
pub open spec fn plan_replay_spec(plan_id: Seq<char>, target_id: Seq<char>, seed: u64) -> Seq<char> {
    "doctor_frankentui profile-orchestrate --plan-id "@ + plan_id + " --target "@ + target_id
        + " --seed "@ + decimal(seed as nat)
}

impl ProfileOrchestrationPlan {
    /// A plan for a target; its invocations are sorted by modality, tool and
    /// output artifact, and its id is derived from the target, the profile,
    /// the seed and the sorted invocations' fingerprints.
    pub fn new(
        target_id: &str,
        profile: BenchmarkProfileKey,
        deterministic_seed: u64,
        invocations: Vec<ProfilerInvocation>,
    ) -> (p: ProfileOrchestrationPlan)
        ensures
            p.schema_version@ == PROFILE_ORCHESTRATION_SCHEMA_VERSION@,
            p.target_id@ == target_id@,
            p.profile == profile,
            p.deterministic_seed == deterministic_seed,
            invocations_sorted(invocation_views(p.invocations@)),
            invocation_views(p.invocations@).to_multiset() == invocation_views(
                invocations@,
            ).to_multiset(),
            p.plan_id@ == plan_id_spec(
                target_id@,
                profile,
                deterministic_seed,
                invocation_views(p.invocations@),
            ),
    {
        let sorted = sort_invocations(invocations);
        let ghost sv = invocation_views(sorted@);
        let mut fps: Vec<String> = Vec::new();
        let mut i: usize = 0;
        while i < sorted.len()
            invariant
                i <= sorted@.len(),
                sv == invocation_views(sorted@),
                string_views(fps@) == fingerprints(sv).take(i as int),
            decreases sorted@.len() - i,
        {
            fps.push(sorted[i].fingerprint_sha256.clone());
            proof {
                assert(fingerprints(sv).take(i as int + 1) =~= fingerprints(sv).take(i as int).push(
                    sv[i as int].fingerprint_sha256,
                ));
                assert(string_views(fps@) =~= fingerprints(sv).take(i as int + 1));
            }
            i = i + 1;
        }
        proof {
            assert(fingerprints(sv).take(i as int) =~= fingerprints(sv));
        }
        let mut identity = String::new();
        push_field(&mut identity, PROFILE_ORCHESTRATION_SCHEMA_VERSION);
        proof {
            assert(identity@ =~= field(PROFILE_ORCHESTRATION_SCHEMA_VERSION@));
        }
        push_field(&mut identity, target_id);
        push_field(&mut identity, profile.profile.as_str());
        push_field(&mut identity, profile.fixture.as_str());
        let seed_text = u64_to_string(deterministic_seed);
        push_field(&mut identity, seed_text.as_str());
        let count = crate::text::usize_to_string(sorted.len());
        push_field(&mut identity, count.as_str());
        push_fields(&mut identity, &fps);
        let short = text_short_id(identity.as_str());
        let plan_id = cat("profile-plan-", short.as_str());
        ProfileOrchestrationPlan {
            schema_version: String::from_str(PROFILE_ORCHESTRATION_SCHEMA_VERSION),
            plan_id,
            target_id: String::from_str(target_id),
            profile,
            deterministic_seed,
            invocations: sorted,
        }
    }

    /// Replay command that re-runs the whole orchestration for this plan.
    pub fn replay_command(&self) -> (s: String)
        ensures
            s@ == plan_replay_spec(self.plan_id@, self.target_id@, self.deterministic_seed),
    {
        let mut s = String::from_str("doctor_frankentui profile-orchestrate --plan-id ");
        s.append(self.plan_id.as_str());
        s.append(" --target ");
        s.append(self.target_id.as_str());
        s.append(" --seed ");
        let seed = u64_to_string(self.deterministic_seed);
        s.append(seed.as_str());
        s
    }

    /// All per-invocation replay commands in deterministic order.
    pub fn invocation_replay_commands(&self) -> (out: Vec<String>)
        ensures
            string_views(out@) == invocation_views(self.invocations@).map_values(
                |i: ProfilerInvocationView| invocation_replay_spec(i),
            ),
    {
        let ghost iv = invocation_views(self.invocations@);
        let mut out: Vec<String> = Vec::new();
        let mut i: usize = 0;
        while i < self.invocations.len()
            invariant
                i <= self.invocations@.len(),
                iv == invocation_views(self.invocations@),
                string_views(out@) == iv.take(i as int).map_values(
                    |v: ProfilerInvocationView| invocation_replay_spec(v),
                ),
            decreases self.invocations@.len() - i,
        {
            let cmd = self.invocations[i].replay_command();
            let ghost before = out@;
            out.push(cmd);
            proof {
                assert(iv[i as int] == self.invocations@[i as int]@);
                let lhs = string_views(out@);
                let rhs = iv.take(i as int + 1).map_values(
                    |v: ProfilerInvocationView| invocation_replay_spec(v),
                );
                let pre = iv.take(i as int).map_values(
                    |v: ProfilerInvocationView| invocation_replay_spec(v),
                );
                assert(string_views(before).len() == i);
                assert(lhs.len() == i + 1);
                assert(rhs.len() == i + 1);
                assert forall|k: int| 0 <= k < lhs.len() implies lhs[k] == rhs[k] by {
                    if k < i {
                        assert(lhs[k] == before[k]@);
                        assert(string_views(before)[k] == pre[k]);
                    }
                }
                assert(lhs =~= rhs);
            }
            i = i + 1;
        }
        proof {
            assert(iv.take(i as int) =~= iv);
        }
        out
    }
}

/// Exported JSON stats artifact (deterministic content + checksum).
#[derive(Debug, Clone, PartialEq, Eq)]
pub struct ProfileJsonStatsArtifact {
    /// Suggested relative output path.
    pub path: String,
    /// SHA-256 of `content`.
    pub sha256: String,
    /// Serialized JSON content.
    pub content: String,
}

// ── Laws ─────────────────────────────────────────────────────────────────

/// Invocations that share a sort key are identical.
pub open spec fn keys_unique(s: Seq<ProfilerInvocationView>) -> bool {
    forall|i: int, j: int|
        0 <= i < s.len() && 0 <= j < s.len() && same_key(#[trigger] s[i], #[trigger] s[j]) ==> s[i]
            == s[j]
}

proof fn lemma_sorted_permutations_equal(a: Seq<ProfilerInvocationView>, b: Seq<ProfilerInvocationView>)
    requires
        invocations_sorted(a),
        invocations_sorted(b),
        a.to_multiset() == b.to_multiset(),
        keys_unique(a),
    ensures
        a == b,
    decreases a.len(),
{
    broadcast use vstd::seq_lib::group_to_multiset_ensures;
    assert(a.len() == b.len()) by {
        assert(a.to_multiset().len() == a.len());
        assert(b.to_multiset().len() == b.len());
    }
    if a.len() == 0 {
        assert(a =~= b);
    } else {
        assert(a.to_multiset().count(b[0]) > 0) by {
            assert(b.contains(b[0]));
        }
        assert(b.to_multiset().count(a[0]) > 0) by {
            assert(a.contains(a[0]));
        }
        let k = choose|k: int| 0 <= k < a.len() && a[k] == b[0];
        let j = choose|j: int| 0 <= j < b.len() && b[j] == a[0];
        if k > 0 && j > 0 {
            assert(!invocation_lt(a[k], a[0]));
            assert(!invocation_lt(b[j], b[0]));
            lemma_not_lt_total(a[0], b[0]);
            assert(same_key(a[0], a[k]));
        }
        assert(a[0] == b[0]);
        let a1 = a.drop_first();
        let b1 = b.drop_first();
        assert(a =~= a1.insert(0, a[0]));
        assert(b =~= b1.insert(0, b[0]));
        assert(a.to_multiset() == a1.to_multiset().insert(a[0]));
        assert(b.to_multiset() == b1.to_multiset().insert(b[0]));
        assert forall|y: ProfilerInvocationView| a1.to_multiset().count(y) == b1.to_multiset().count(y) by {
            broadcast use vstd::multiset::group_multiset_axioms;
            assert(a.to_multiset().count(y) == b.to_multiset().count(y));
            assert(a1.to_multiset().insert(a[0]).count(y) == a1.to_multiset().count(y) + if y
                == a[0] {
                1int
            } else {
                0int
            });
            assert(b1.to_multiset().insert(a[0]).count(y) == b1.to_multiset().count(y) + if y
                == a[0] {
                1int
            } else {
                0int
            });
        }
        assert(a1.to_multiset() =~= b1.to_multiset());
        assert forall|p: int, q: int| 0 <= p < q < a1.len() implies !invocation_lt(#[trigger] a1[q], #[trigger] a1[p]) by {
            assert(a1[p] == a[p + 1] && a1[q] == a[q + 1]);
        }
        assert forall|p: int, q: int| 0 <= p < q < b1.len() implies !invocation_lt(#[trigger] b1[q], #[trigger] b1[p]) by {
            assert(b1[p] == b[p + 1] && b1[q] == b[q + 1]);
        }
        assert forall|p: int, q: int|
            0 <= p < a1.len() && 0 <= q < a1.len() && same_key(#[trigger] a1[p], #[trigger] a1[q]) implies a1[p] == a1[q] by {
            assert(a1[p] == a[p + 1] && a1[q] == a[q + 1]);
        }
        lemma_sorted_permutations_equal(a1, b1);
    }
}

// ── Hotspot levers ───────────────────────────────────────────────────────

/// The number of modalities beyond the first that attribute a site:
/// `present - 1`, saturating at zero, and zero when it exceeds `u32`.
pub open spec fn present_extra_spec(present: int) -> int {
    if present <= 1 {
        0
    } else if present - 1 <= u32::MAX {
        present - 1
    } else {
        0
    }
}

/// The number of modalities beyond the first that attribute a site.
pub fn present_extra(present: usize) -> (r: u32)
    ensures
        r == present_extra_spec(present as int),
{
    if present <= 1 {
        return 0;
    }
    let extra: usize = present - 1;
    if (extra as u64) <= 0xffff_ffffu64 {
        extra as u32
    } else {
        0
    }
}

/// The first `n` values with every repeat of an earlier value dropped.
pub open spec fn dedup_first(s: Seq<Seq<char>>, n: int) -> Seq<Seq<char>>
    decreases n,
{
    if n <= 0 {
        Seq::empty()
    } else {
        let prev = dedup_first(s, n - 1);
        if prev.contains(s[n - 1]) {
            prev
        } else {
            prev.push(s[n - 1])
        }
    }
}

/// The values in their order of first occurrence, each once.
pub fn dedup_preserve_order(values: Vec<String>) -> (out: Vec<String>)
    ensures
        string_views(out@) == dedup_first(string_views(values@), values@.len() as int),
{
    let ghost sv = string_views(values@);
    let mut out: Vec<String> = Vec::new();
    let mut i: usize = 0;
    while i < values.len()
        invariant
            i <= values@.len(),
            sv == string_views(values@),
            string_views(out@) == dedup_first(sv, i as int),
        decreases values@.len() - i,
    {
        proof {
            assert(sv[i as int] == values@[i as int]@);
        }
        if !strings_contain(&out, &values[i]) {
            let ghost before = out@;
            out.push(values[i].clone());
            proof {
                assert(string_views(out@) =~= string_views(before).push(values@[i as int]@));
            }
        }
        i = i + 1;
    }
    out
}

/// The optimization levers suggested for a dominant modality.
pub open spec fn base_levers(dominant: ProfileModality) -> Seq<Seq<char>> {
    match dominant {
        ProfileModality::Cpu => seq![
            "reduce-redundant-computation"@,
            "hoist-invariant-work"@,
            "batch-and-vectorize"@,
        ],
        ProfileModality::Allocation => seq![
            "reuse-buffers"@,
            "pool-allocations"@,
            "avoid-intermediate-clones"@,
        ],
        ProfileModality::Syscall => seq!["batch-io"@, "buffer-writes"@, "coalesce-syscalls"@],
    }
}

/// The audit lever for a secondary modality `m`: suggested when `m` is
/// among the site's category tags without dominating it.
pub open spec fn audit_lever(
    dominant: ProfileModality,
    tags: Seq<Seq<char>>,
    m: ProfileModality,
    lever: Seq<char>,
) -> Seq<Seq<char>> {
    if tags.contains(m.tag()) && dominant != m {
        seq![lever]
    } else {
        Seq::empty()
    }
}

/// Every lever suggested for a site, before repeats are dropped.
pub open spec fn levers_spec(dominant: ProfileModality, tags: Seq<Seq<char>>) -> Seq<Seq<char>> {
    base_levers(dominant) + audit_lever(dominant, tags, ProfileModality::Cpu, "audit-cpu-self-time"@)
        + audit_lever(dominant, tags, ProfileModality::Allocation, "audit-allocation-pressure"@)
        + audit_lever(dominant, tags, ProfileModality::Syscall, "audit-syscall-overhead"@)
}

fn push_literal(out: &mut Vec<String>, s: &str)
    ensures
        string_views(final(out)@) == string_views(old(out)@).push(s@),
{
    let ghost before = out@;
    out.push(String::from_str(s));
    proof {
        assert(string_views(out@) =~= string_views(before).push(s@));
    }
}

fn push_audit(
    out: &mut Vec<String>,
    dominant: ProfileModality,
    tags: &Vec<String>,
    m: ProfileModality,
    lever: &str,
)
    ensures
        string_views(final(out)@) == string_views(old(out)@) + audit_lever(
            dominant,
            string_views(tags@),
            m,
            lever@,
        ),
{
    let tag = String::from_str(m.category_tag());
    if strings_contain(tags, &tag) && dominant != m {
        push_literal(out, lever);
    } else {
        proof {
            assert(string_views(out@) =~= string_views(out@) + Seq::<Seq<char>>::empty());
        }
    }
}

/// The candidate levers for a hotspot: those of its dominant modality, then
/// an audit lever for each other modality among its category tags, each
/// once, in that order.
pub fn candidate_levers_for(dominant: ProfileModality, category_tags: &Vec<String>) -> (out: Vec<
    String,
>)
    ensures
        string_views(out@) == dedup_first(
            levers_spec(dominant, string_views(category_tags@)),
            levers_spec(dominant, string_views(category_tags@)).len() as int,
        ),
{
    let mut levers: Vec<String> = Vec::new();
    match dominant {
        ProfileModality::Cpu => {
            push_literal(&mut levers, "reduce-redundant-computation");
            push_literal(&mut levers, "hoist-invariant-work");
            push_literal(&mut levers, "batch-and-vectorize");
        },
        ProfileModality::Allocation => {
            push_literal(&mut levers, "reuse-buffers");
            push_literal(&mut levers, "pool-allocations");
            push_literal(&mut levers, "avoid-intermediate-clones");
        },
        ProfileModality::Syscall => {
            push_literal(&mut levers, "batch-io");
            push_literal(&mut levers, "buffer-writes");
            push_literal(&mut levers, "coalesce-syscalls");
        },
    }
    proof {
        assert(string_views(levers@) =~= base_levers(dominant));
    }
    push_audit(&mut levers, dominant, category_tags, ProfileModality::Cpu, "audit-cpu-self-time");
    push_audit(
        &mut levers,
        dominant,
        category_tags,
        ProfileModality::Allocation,
        "audit-allocation-pressure",
    );
    push_audit(&mut levers, dominant, category_tags, ProfileModality::Syscall, "audit-syscall-overhead");
    proof {
        assert(string_views(levers@) =~= levers_spec(dominant, string_views(category_tags@)));
    }
    dedup_preserve_order(levers)
}

/// A plan does not depend on the order its invocations were listed in: two
/// sorted arrangements of the same invocations, no two of which share a sort
/// key unless identical, are equal, and so are the plan ids derived from them.
pub proof fn law_plan_independent_of_invocation_order(
    target_id: Seq<char>,
    profile: BenchmarkProfileKey,
    seed: u64,
    a: Seq<ProfilerInvocationView>,
    b: Seq<ProfilerInvocationView>,
)
    requires
        invocations_sorted(a),
        invocations_sorted(b),
        a.to_multiset() == b.to_multiset(),
        keys_unique(a),
    ensures
        a == b,
        plan_id_spec(target_id, profile, seed, a) == plan_id_spec(target_id, profile, seed, b),
{
    lemma_sorted_permutations_equal(a, b);
}

} // verus!
