//! What the golden-isomorphism gate guarantees: an optimization is promoted
//! exactly when every behavior change is accounted for, and every finding
//! points back at the change, the proof and a one-command replay.

use vstd::prelude::*;

use crate::golden_isomorphism::gate::{
    all_coverage_findings, coverage_finding, coverage_findings, covered, difference_pred,
    exception_findings, exception_valid, fixture_difference, gate_findings, no_blocking,
    verdict_finding, verdict_findings, GoldenFindingCode, GoldenFindingView,
    GoldenIsomorphismConfig, GoldenSeverity,
};
use crate::golden_isomorphism::{
    fixture_replay_spec, ChecksumVerdict, FixtureVerdict, GoldenPolicyException, IsomorphismProof,
    OptimizationChange,
};
use crate::text::lemma_sorted_set_of_subset;

verus! {

/// Every declared policy exception is honored.
pub open spec fn exceptions_all_valid(cfg: GoldenIsomorphismConfig, exs: Seq<GoldenPolicyException>) -> bool {
    forall|k: int| 0 <= k < exs.len() ==> exception_valid(cfg, #[trigger] exs[k])
}

/// The golden and candidate fixture sets agree, where coverage is required.
pub open spec fn coverage_holds(
    cfg: GoldenIsomorphismConfig,
    golden: Seq<Seq<char>>,
    candidate: Seq<Seq<char>>,
) -> bool {
    cfg.require_full_fixture_coverage ==> forall|x: Seq<char>| #[trigger] golden.contains(x)
        <==> candidate.contains(x)
}

/// Every fixture whose behavior changed is named by a valid exception.
pub open spec fn changes_covered(
    cfg: GoldenIsomorphismConfig,
    exs: Seq<GoldenPolicyException>,
    vs: Seq<FixtureVerdict>,
) -> bool {
    forall|i: int|
        0 <= i < vs.len() && (#[trigger] vs[i]).verdict == ChecksumVerdict::Mismatch ==> covered(
            cfg,
            exs,
            vs[i].fixture_id@,
        )
}

proof fn lemma_no_blocking_concat(a: Seq<GoldenFindingView>, b: Seq<GoldenFindingView>)
    ensures
        no_blocking(a + b) <==> (no_blocking(a) && no_blocking(b)),
{
    let c = a + b;
    if no_blocking(c) {
        assert forall|i: int| 0 <= i < a.len() implies (#[trigger] a[i]).severity != GoldenSeverity::Block by {
            assert(c[i] == a[i]);
        }
        assert forall|i: int| 0 <= i < b.len() implies (#[trigger] b[i]).severity != GoldenSeverity::Block by {
            assert(c[a.len() + i] == b[i]);
        }
    }
    if no_blocking(a) && no_blocking(b) {
        assert forall|i: int| 0 <= i < c.len() implies (#[trigger] c[i]).severity != GoldenSeverity::Block by {
            if i < a.len() {
                assert(c[i] == a[i]);
            } else {
                assert(c[i] == b[i - a.len()]);
            }
        }
    }
}

proof fn lemma_exception_part(
    cfg: GoldenIsomorphismConfig,
    c: Seq<char>,
    p: Seq<char>,
    exs: Seq<GoldenPolicyException>,
    n: int,
)
    requires
        0 <= n <= exs.len(),
    ensures
        no_blocking(exception_findings(cfg, c, p, exs, n)) <==> forall|k: int|
            0 <= k < n ==> exception_valid(cfg, #[trigger] exs[k]),
    decreases n,
{
    if n > 0 {
        lemma_exception_part(cfg, c, p, exs, n - 1);
        let prev = exception_findings(cfg, c, p, exs, n - 1);
        let last = if exception_valid(cfg, exs[n - 1]) {
            Seq::<GoldenFindingView>::empty()
        } else {
            seq![
                crate::golden_isomorphism::gate::finding_spec(
                    GoldenFindingCode::InvalidPolicyException,
                    GoldenSeverity::Block,
                    c,
                    p,
                    exs[n - 1].fixture_id@,
                    "n/a"@,
                    crate::golden_isomorphism::gate::invalid_detail(exs[n - 1].fixture_id@),
                    crate::golden_isomorphism::gate::invalid_remediation(),
                ),
            ]
        };
        assert(exception_findings(cfg, c, p, exs, n) == prev + last);
        lemma_no_blocking_concat(prev, last);
        if !exception_valid(cfg, exs[n - 1]) {
            assert(last[0].severity == GoldenSeverity::Block);
        }
    }
}

proof fn lemma_coverage_list(
    code: GoldenFindingCode,
    c: Seq<char>,
    p: Seq<char>,
    ids: Seq<Seq<char>>,
)
    ensures
        no_blocking(coverage_findings(code, c, p, ids)) <==> ids.len() == 0,
{
    let fs = coverage_findings(code, c, p, ids);
    if ids.len() > 0 {
        assert(fs[0] == coverage_finding(code, c, p, ids[0]));
        assert(fs[0].severity == GoldenSeverity::Block);
    }
}

proof fn lemma_difference_empty(a: Seq<Seq<char>>, b: Seq<Seq<char>>)
    ensures
        fixture_difference(a, b).len() == 0 <==> forall|x: Seq<char>| #[trigger] a.contains(x)
            ==> b.contains(x),
{
    let pred = difference_pred(a, b);
    assert forall|x: Seq<char>| #[trigger] pred(x) implies a.contains(x) by {}
    lemma_sorted_set_of_subset(a, pred);
    let d = fixture_difference(a, b);
    if d.len() > 0 {
        assert(d.contains(d[0]));
        assert(pred(d[0]));
    }
    if !(forall|x: Seq<char>| #[trigger] a.contains(x) ==> b.contains(x)) {
        let x = choose|x: Seq<char>| #[trigger] a.contains(x) && !b.contains(x);
        assert(pred(x));
        assert(d.contains(x));
    }
}

proof fn lemma_coverage_part(
    cfg: GoldenIsomorphismConfig,
    c: Seq<char>,
    p: Seq<char>,
    golden: Seq<Seq<char>>,
    candidate: Seq<Seq<char>>,
)
    ensures
        no_blocking(all_coverage_findings(cfg, c, p, golden, candidate)) <==> coverage_holds(
            cfg,
            golden,
            candidate,
        ),
{
    if cfg.require_full_fixture_coverage {
        let m = coverage_findings(
            GoldenFindingCode::MissingCandidateOutput,
            c,
            p,
            fixture_difference(golden, candidate),
        );
        let e = coverage_findings(
            GoldenFindingCode::ExtraneousCandidateOutput,
            c,
            p,
            fixture_difference(candidate, golden),
        );
        lemma_no_blocking_concat(m, e);
        lemma_coverage_list(
            GoldenFindingCode::MissingCandidateOutput,
            c,
            p,
            fixture_difference(golden, candidate),
        );
        lemma_coverage_list(
            GoldenFindingCode::ExtraneousCandidateOutput,
            c,
            p,
            fixture_difference(candidate, golden),
        );
        lemma_difference_empty(golden, candidate);
        lemma_difference_empty(candidate, golden);
    }
}

proof fn lemma_verdict_part(
    cfg: GoldenIsomorphismConfig,
    c: Seq<char>,
    p: Seq<char>,
    exs: Seq<GoldenPolicyException>,
    vs: Seq<FixtureVerdict>,
    n: int,
)
    requires
        0 <= n <= vs.len(),
    ensures
        no_blocking(verdict_findings(cfg, c, p, exs, vs, n)) <==> forall|i: int|
            0 <= i < n && (#[trigger] vs[i]).verdict == ChecksumVerdict::Mismatch ==> covered(
                cfg,
                exs,
                vs[i].fixture_id@,
            ),
    decreases n,
{
    if n > 0 {
        lemma_verdict_part(cfg, c, p, exs, vs, n - 1);
        let prev = verdict_findings(cfg, c, p, exs, vs, n - 1);
        let last = verdict_finding(cfg, c, p, exs, vs[n - 1]);
        lemma_no_blocking_concat(prev, last);
        if vs[n - 1].verdict == ChecksumVerdict::Mismatch && !covered(cfg, exs, vs[n - 1].fixture_id@) {
            assert(last[0].severity == GoldenSeverity::Block);
        }
    }
}

/// Verification promotes an optimization exactly when every declared policy
/// exception is honored, the golden and candidate fixture sets agree (where
/// full coverage is required), and every fixture whose behavior changed is
/// covered by a valid exception.
pub proof fn law_promotion_iff_changes_accounted(
    cfg: GoldenIsomorphismConfig,
    change: OptimizationChange,
    golden: Seq<Seq<char>>,
    candidate: Seq<Seq<char>>,
    iso: IsomorphismProof,
)
    ensures
        no_blocking(gate_findings(cfg, change, golden, candidate, iso)) <==> (exceptions_all_valid(
            cfg,
            change.policy_exceptions@,
        ) && coverage_holds(cfg, golden, candidate) && changes_covered(
            cfg,
            change.policy_exceptions@,
            iso.fixture_verdicts@,
        )),
{
    let c = change.change_id@;
    let p = iso.proof_id@;
    let exs = change.policy_exceptions@;
    let vs = iso.fixture_verdicts@;
    let a = exception_findings(cfg, c, p, exs, exs.len() as int);
    let b = all_coverage_findings(cfg, c, p, golden, candidate);
    let d = verdict_findings(cfg, c, p, exs, vs, vs.len() as int);
    lemma_no_blocking_concat(a + b, d);
    lemma_no_blocking_concat(a, b);
    lemma_exception_part(cfg, c, p, exs, exs.len() as int);
    lemma_coverage_part(cfg, c, p, golden, candidate);
    lemma_verdict_part(cfg, c, p, exs, vs, vs.len() as int);
}

/// Whether a finding names the change and the proof, and replays its fixture.
pub open spec fn references(f: GoldenFindingView, change_id: Seq<char>, proof_id: Seq<char>) -> bool {
    &&& f.change_id == change_id
    &&& f.proof_id == proof_id
    &&& f.replay_command == fixture_replay_spec(change_id, f.fixture_id, proof_id)
}

/// Whether every finding of `fs` references the change and the proof.
pub open spec fn all_reference(fs: Seq<GoldenFindingView>, change_id: Seq<char>, proof_id: Seq<char>) -> bool {
    forall|i: int| 0 <= i < fs.len() ==> references(#[trigger] fs[i], change_id, proof_id)
}

proof fn lemma_reference_concat(a: Seq<GoldenFindingView>, b: Seq<GoldenFindingView>, c: Seq<char>, p: Seq<char>)
    requires
        all_reference(a, c, p),
        all_reference(b, c, p),
    ensures
        all_reference(a + b, c, p),
{
    let s = a + b;
    assert forall|i: int| 0 <= i < s.len() implies references(#[trigger] s[i], c, p) by {
        if i < a.len() {
            assert(s[i] == a[i]);
        } else {
            assert(s[i] == b[i - a.len()]);
        }
    }
}

proof fn lemma_exception_refs(
    cfg: GoldenIsomorphismConfig,
    c: Seq<char>,
    p: Seq<char>,
    exs: Seq<GoldenPolicyException>,
    n: int,
)
    ensures
        all_reference(exception_findings(cfg, c, p, exs, n), c, p),
    decreases n,
{
    if n > 0 {
        lemma_exception_refs(cfg, c, p, exs, n - 1);
        let prev = exception_findings(cfg, c, p, exs, n - 1);
        let whole = exception_findings(cfg, c, p, exs, n);
        assert forall|i: int| 0 <= i < whole.len() implies references(#[trigger] whole[i], c, p) by {
            if i < prev.len() {
                assert(whole[i] == prev[i]);
            }
        }
    }
}

proof fn lemma_verdict_refs(
    cfg: GoldenIsomorphismConfig,
    c: Seq<char>,
    p: Seq<char>,
    exs: Seq<GoldenPolicyException>,
    vs: Seq<FixtureVerdict>,
    n: int,
)
    ensures
        all_reference(verdict_findings(cfg, c, p, exs, vs, n), c, p),
    decreases n,
{
    if n > 0 {
        lemma_verdict_refs(cfg, c, p, exs, vs, n - 1);
        let last = verdict_finding(cfg, c, p, exs, vs[n - 1]);
        assert(all_reference(last, c, p));
        lemma_reference_concat(verdict_findings(cfg, c, p, exs, vs, n - 1), last, c, p);
    }
}

proof fn lemma_coverage_refs(code: GoldenFindingCode, c: Seq<char>, p: Seq<char>, ids: Seq<Seq<char>>)
    ensures
        all_reference(coverage_findings(code, c, p, ids), c, p),
{
    let fs = coverage_findings(code, c, p, ids);
    assert forall|i: int| 0 <= i < fs.len() implies references(#[trigger] fs[i], c, p) by {
        assert(fs[i] == coverage_finding(code, c, p, ids[i]));
    }
}

/// Every verification finding names the change under evaluation and the
/// proof, and carries the one-command replay of its fixture.
pub proof fn law_findings_reference_proof(
    cfg: GoldenIsomorphismConfig,
    change: OptimizationChange,
    golden: Seq<Seq<char>>,
    candidate: Seq<Seq<char>>,
    iso: IsomorphismProof,
)
    ensures
        all_reference(
            gate_findings(cfg, change, golden, candidate, iso),
            change.change_id@,
            iso.proof_id@,
        ),
{
    let c = change.change_id@;
    let p = iso.proof_id@;
    let exs = change.policy_exceptions@;
    let vs = iso.fixture_verdicts@;
    lemma_exception_refs(cfg, c, p, exs, exs.len() as int);
    lemma_verdict_refs(cfg, c, p, exs, vs, vs.len() as int);
    if cfg.require_full_fixture_coverage {
        lemma_coverage_refs(
            GoldenFindingCode::MissingCandidateOutput,
            c,
            p,
            fixture_difference(golden, candidate),
        );
        lemma_coverage_refs(
            GoldenFindingCode::ExtraneousCandidateOutput,
            c,
            p,
            fixture_difference(candidate, golden),
        );
        lemma_reference_concat(
            coverage_findings(
                GoldenFindingCode::MissingCandidateOutput,
                c,
                p,
                fixture_difference(golden, candidate),
            ),
            coverage_findings(
                GoldenFindingCode::ExtraneousCandidateOutput,
                c,
                p,
                fixture_difference(candidate, golden),
            ),
            c,
            p,
        );
    } else {
        assert(all_reference(all_coverage_findings(cfg, c, p, golden, candidate), c, p));
    }
    let a = exception_findings(cfg, c, p, exs, exs.len() as int);
    let b = all_coverage_findings(cfg, c, p, golden, candidate);
    let d = verdict_findings(cfg, c, p, exs, vs, vs.len() as int);
    lemma_reference_concat(a, b, c, p);
    lemma_reference_concat(a + b, d, c, p);
}

} // verus!
