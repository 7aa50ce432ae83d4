//! What a passing ecosystem scan guarantees: the scan passes exactly
//! when the ledger upholds the adoption policy.

use vstd::prelude::*;

use crate::ecosystem_scan::gate::{
    adopted_crate_violations, adopted_upto, adoption_violations, axes_upto, block_view,
    coverage_upto, coverage_violations, crate_coverage_violations, crate_verdict_violations,
    duplicate_violations, duplicates_upto, fallback_violations, has_record, id_violations,
    missing_text, module_violations, record_count, record_violations, records_upto,
    rationale_upto, rejection_violations, scan_violations, summary_violations, verdicts_upto,
    EcosystemScanConfig, ScanSeverity, ScanViolationCode, ScanViolationView,
};
use crate::ecosystem_scan::report::{
    decision_count, lemma_decision_counts_sum, no_blocking, summary_of, EcosystemScanSummary,
};
use crate::ecosystem_scan::{
    candidate_at, AdoptionDecision, CrateCandidate, CrateVerdict, EcosystemScanRecord,
    UnsafePolicyFit, UpliftCandidate,
};
use crate::text::is_blank;

verus! {

/// The policy one considered crate must satisfy within its record.
pub open spec fn crate_obeys_policy(
    cfg: EcosystemScanConfig,
    r: EcosystemScanRecord,
    c: CrateCandidate,
) -> bool {
    &&& (c.verdict == CrateVerdict::Rejected ==> !is_blank(c.rationale@))
    &&& (c.verdict == CrateVerdict::Selected ==> r.decision != AdoptionDecision::Build)
    &&& (c.verdict == CrateVerdict::Selected && cfg.forbid_unsafe_adoption ==> c.unsafe_policy_fit
        != UnsafePolicyFit::Violates)
    &&& (c.verdict == CrateVerdict::Selected ==> c.determinism_risk.rank()
        <= cfg.max_adopted_determinism_risk.rank())
}

/// The policy one scan record must satisfy.
pub open spec fn record_obeys_policy(cfg: EcosystemScanConfig, r: EcosystemScanRecord) -> bool {
    &&& !is_blank(r.candidate_id@)
    &&& r.candidate_id@ == r.candidate.id_spec()
    &&& !is_blank(r.decision_summary@)
    &&& (r.considered_crates@.len() == 0 ==> !missing_text(r.none_found_statement))
    &&& forall|j: int|
        0 <= j < r.considered_crates@.len() ==> crate_obeys_policy(
            cfg,
            r,
            #[trigger] r.considered_crates@[j],
        )
    &&& (r.decision.relies_spec() ==> r.adopted_crates@.len() > 0)
    &&& (r.decision.rejects_spec() ==> forall|k: int|
        0 <= k < cfg.required_constraint_axes@.len() ==> r.covers_axis(
            #[trigger] cfg.required_constraint_axes@[k],
        ))
    &&& (r.decision.rejects_spec() ==> forall|k: int|
        0 <= k < r.reject_rationale@.len() ==> !is_blank(
            (#[trigger] r.reject_rationale@[k]).rationale@,
        ))
    &&& (r.decision.rejects_spec() && cfg.require_fallback_for_non_adopt ==> !missing_text(
        r.fallback_plan,
    ))
    &&& (cfg.require_in_tree_module_for_build && r.decision.ships_spec() ==> !missing_text(
        r.in_tree_module,
    ))
}

/// The policy a whole ledger must satisfy.
pub open spec fn ledger_obeys_policy(
    cfg: EcosystemScanConfig,
    recs: Seq<EcosystemScanRecord>,
) -> bool {
    &&& (cfg.require_full_candidate_coverage ==> forall|c: UpliftCandidate| #[trigger]
        has_record(recs, c))
    &&& forall|c: UpliftCandidate| #[trigger] record_count(recs, c) <= 1
    &&& forall|i: int| 0 <= i < recs.len() ==> record_obeys_policy(cfg, #[trigger] recs[i])
}

proof fn lemma_no_blocking_concat(a: Seq<ScanViolationView>, b: Seq<ScanViolationView>)
    ensures
        no_blocking(a + b) == (no_blocking(a) && no_blocking(b)),
{
    if no_blocking(a + b) {
        assert forall|i: int| 0 <= i < a.len() implies (#[trigger] a[i]).severity
            != ScanSeverity::Block by {
            assert((a + b)[i] == a[i]);
        }
        assert forall|i: int| 0 <= i < b.len() implies (#[trigger] b[i]).severity
            != ScanSeverity::Block by {
            assert((a + b)[a.len() + i] == b[i]);
        }
    }
    if no_blocking(a) && no_blocking(b) {
        assert forall|i: int| 0 <= i < (a + b).len() implies (#[trigger] (a + b)[i]).severity
            != ScanSeverity::Block by {
            if i < a.len() {
                assert((a + b)[i] == a[i]);
            } else {
                assert((a + b)[i] == b[i - a.len()]);
            }
        }
    }
}

proof fn lemma_no_blocking_single(v: ScanViolationView)
    ensures
        no_blocking(seq![v]) == (v.severity != ScanSeverity::Block),
{
    if no_blocking(seq![v]) {
        assert(seq![v][0] == v);
    }
}

proof fn lemma_no_blocking_empty()
    ensures
        no_blocking(Seq::<ScanViolationView>::empty()),
{
}

proof fn lemma_coverage_upto(recs: Seq<EcosystemScanRecord>, n: int)
    requires
        0 <= n <= 8,
    ensures
        no_blocking(coverage_upto(recs, n)) == forall|k: int|
            0 <= k < n ==> has_record(recs, #[trigger] candidate_at(k)),
    decreases n,
{
    if n > 0 {
        lemma_coverage_upto(recs, n - 1);
        let c = candidate_at(n - 1);
        let piece = if has_record(recs, c) {
            Seq::<ScanViolationView>::empty()
        } else {
            seq![crate::ecosystem_scan::gate::missing_view(c)]
        };
        lemma_no_blocking_concat(coverage_upto(recs, n - 1), piece);
        lemma_no_blocking_single(crate::ecosystem_scan::gate::missing_view(c));
        if forall|k: int| 0 <= k < n - 1 ==> has_record(recs, #[trigger] candidate_at(k)) {
            if has_record(recs, c) {
                assert forall|k: int| 0 <= k < n implies has_record(
                    recs,
                    #[trigger] candidate_at(k),
                ) by {
                    if k < n - 1 {
                    }
                }
            }
        }
    }
}

proof fn lemma_duplicates_upto(recs: Seq<EcosystemScanRecord>, n: int)
    requires
        0 <= n <= 8,
    ensures
        no_blocking(duplicates_upto(recs, n)) == forall|k: int|
            0 <= k < n ==> record_count(recs, #[trigger] candidate_at(k)) <= 1,
    decreases n,
{
    if n > 0 {
        lemma_duplicates_upto(recs, n - 1);
        let c = candidate_at(n - 1);
        let cnt = record_count(recs, c);
        let piece = if cnt > 1 {
            seq![crate::ecosystem_scan::gate::duplicate_view(c, cnt)]
        } else {
            Seq::<ScanViolationView>::empty()
        };
        lemma_no_blocking_concat(duplicates_upto(recs, n - 1), piece);
        lemma_no_blocking_single(crate::ecosystem_scan::gate::duplicate_view(c, cnt));
        if forall|k: int| 0 <= k < n - 1 ==> record_count(recs, #[trigger] candidate_at(k)) <= 1 {
            if cnt <= 1 {
                assert forall|k: int| 0 <= k < n implies record_count(
                    recs,
                    #[trigger] candidate_at(k),
                ) <= 1 by {
                    if k < n - 1 {
                    }
                }
            }
        }
    }
}

proof fn lemma_verdicts_upto(r: EcosystemScanRecord, n: int)
    requires
        0 <= n <= r.considered_crates@.len(),
    ensures
        no_blocking(verdicts_upto(r, n)) == forall|j: int|
            0 <= j < n ==> no_blocking(
                crate_verdict_violations(r, #[trigger] r.considered_crates@[j]),
            ),
    decreases n,
{
    if n > 0 {
        lemma_verdicts_upto(r, n - 1);
        lemma_no_blocking_concat(
            verdicts_upto(r, n - 1),
            crate_verdict_violations(r, r.considered_crates@[n - 1]),
        );
        if no_blocking(verdicts_upto(r, n - 1)) && no_blocking(
            crate_verdict_violations(r, r.considered_crates@[n - 1]),
        ) {
            assert forall|j: int| 0 <= j < n implies no_blocking(
                crate_verdict_violations(r, #[trigger] r.considered_crates@[j]),
            ) by {
                if j < n - 1 {
                }
            }
        }
    }
}

proof fn lemma_adopted_upto(cfg: EcosystemScanConfig, r: EcosystemScanRecord, n: int)
    requires
        0 <= n <= r.considered_crates@.len(),
    ensures
        no_blocking(adopted_upto(cfg, r, n)) == forall|j: int|
            0 <= j < n ==> no_blocking(
                adopted_crate_violations(cfg, r, #[trigger] r.considered_crates@[j]),
            ),
    decreases n,
{
    if n > 0 {
        lemma_adopted_upto(cfg, r, n - 1);
        lemma_no_blocking_concat(
            adopted_upto(cfg, r, n - 1),
            adopted_crate_violations(cfg, r, r.considered_crates@[n - 1]),
        );
        if no_blocking(adopted_upto(cfg, r, n - 1)) && no_blocking(
            adopted_crate_violations(cfg, r, r.considered_crates@[n - 1]),
        ) {
            assert forall|j: int| 0 <= j < n implies no_blocking(
                adopted_crate_violations(cfg, r, #[trigger] r.considered_crates@[j]),
            ) by {
                if j < n - 1 {
                }
            }
        }
    }
}

proof fn lemma_axes_upto(cfg: EcosystemScanConfig, r: EcosystemScanRecord, n: int)
    requires
        0 <= n <= cfg.required_constraint_axes@.len(),
    ensures
        no_blocking(axes_upto(cfg, r, n)) == forall|k: int|
            0 <= k < n ==> r.covers_axis(#[trigger] cfg.required_constraint_axes@[k]),
    decreases n,
{
    if n > 0 {
        lemma_axes_upto(cfg, r, n - 1);
        let axis = cfg.required_constraint_axes@[n - 1];
        let v = block_view(
            crate::ecosystem_scan::gate::ScanViolationCode::MissingRequiredConstraintAxis,
            r.candidate_id@,
            "reject decision "@ + r.decision.tag() + " is missing the `"@ + axis.tag()
                + "` constraint axis"@,
            "add a constraint-grounded rationale for the `"@ + axis.tag() + "` axis"@,
        );
        let piece = if r.covers_axis(axis) {
            Seq::<ScanViolationView>::empty()
        } else {
            seq![v]
        };
        assert(axes_upto(cfg, r, n) == axes_upto(cfg, r, n - 1) + piece);
        lemma_no_blocking_concat(axes_upto(cfg, r, n - 1), piece);
        lemma_no_blocking_single(v);
        if forall|k: int| 0 <= k < n - 1 ==> r.covers_axis(#[trigger] cfg.required_constraint_axes@[k]) {
            if r.covers_axis(axis) {
                assert forall|k: int| 0 <= k < n implies r.covers_axis(
                    #[trigger] cfg.required_constraint_axes@[k],
                ) by {
                    if k < n - 1 {
                    }
                }
            }
        }
    }
}

proof fn lemma_rationale_upto(r: EcosystemScanRecord, n: int)
    requires
        0 <= n <= r.reject_rationale@.len(),
    ensures
        no_blocking(rationale_upto(r, n)) == forall|k: int|
            0 <= k < n ==> !is_blank((#[trigger] r.reject_rationale@[k]).rationale@),
    decreases n,
{
    if n > 0 {
        lemma_rationale_upto(r, n - 1);
        let rat = r.reject_rationale@[n - 1];
        let v = block_view(
            crate::ecosystem_scan::gate::ScanViolationCode::ConstraintRationaleEmpty,
            r.candidate_id@,
            "constraint axis `"@ + rat.axis.tag() + "` has empty rationale"@,
            "fill in the rationale for this constraint axis"@,
        );
        let piece = if is_blank(rat.rationale@) {
            seq![v]
        } else {
            Seq::<ScanViolationView>::empty()
        };
        assert(rationale_upto(r, n) == rationale_upto(r, n - 1) + piece);
        lemma_no_blocking_concat(rationale_upto(r, n - 1), piece);
        lemma_no_blocking_single(v);
        if forall|k: int| 0 <= k < n - 1 ==> !is_blank((#[trigger] r.reject_rationale@[k]).rationale@) {
            if !is_blank(rat.rationale@) {
                assert forall|k: int| 0 <= k < n implies !is_blank(
                    (#[trigger] r.reject_rationale@[k]).rationale@,
                ) by {
                    if k < n - 1 {
                    }
                }
            }
        }
    }
}

proof fn lemma_crate_policy(cfg: EcosystemScanConfig, r: EcosystemScanRecord, c: CrateCandidate)
    ensures
        (no_blocking(crate_verdict_violations(r, c)) && no_blocking(
            adopted_crate_violations(cfg, r, c),
        )) == crate_obeys_policy(cfg, r, c),
{
    let a1 = if c.verdict == CrateVerdict::Rejected && is_blank(c.rationale@) {
        seq![
            block_view(
                crate::ecosystem_scan::gate::ScanViolationCode::RejectedCrateMissingRationale,
                r.candidate_id@,
                "rejected crate `"@ + c.crate_name@ + "` has no rationale"@,
                "give a constraint-grounded reason for rejecting this crate"@,
            ),
        ]
    } else {
        Seq::<ScanViolationView>::empty()
    };
    let a2 = if c.verdict == CrateVerdict::Selected && r.decision == AdoptionDecision::Build {
        seq![
            block_view(
                crate::ecosystem_scan::gate::ScanViolationCode::SelectedCrateContradictsBuild,
                r.candidate_id@,
                "crate `"@ + c.crate_name@ + "` is Selected but the decision is Build"@,
                "switch the decision to Adopt/Hybrid, or mark the crate Rejected"@,
            ),
        ]
    } else {
        Seq::<ScanViolationView>::empty()
    };
    assert(crate_verdict_violations(r, c) == a1 + a2);
    lemma_no_blocking_concat(a1, a2);
    if a1.len() > 0 {
        lemma_no_blocking_single(a1[0]);
        assert(a1 == seq![a1[0]]);
    }
    if a2.len() > 0 {
        lemma_no_blocking_single(a2[0]);
        assert(a2 == seq![a2[0]]);
    }
    if c.verdict == CrateVerdict::Selected {
        let b1 = if cfg.forbid_unsafe_adoption && c.unsafe_policy_fit == UnsafePolicyFit::Violates {
            seq![
                block_view(
                    crate::ecosystem_scan::gate::ScanViolationCode::UnsafePolicyViolationAdopted,
                    r.candidate_id@,
                    "adopted crate `"@ + c.crate_name@ + "` violates the unsafe-code policy"@,
                    "do not adopt a crate that requires policy-violating unsafe/FFI"@,
                ),
            ]
        } else {
            Seq::<ScanViolationView>::empty()
        };
        let b2 = if c.determinism_risk.rank() > cfg.max_adopted_determinism_risk.rank() {
            seq![
                block_view(
                    crate::ecosystem_scan::gate::ScanViolationCode::AdoptedCrateDeterminismRiskTooHigh,
                    r.candidate_id@,
                    "adopted crate `"@ + c.crate_name@ + "` has determinism risk `"@
                        + c.determinism_risk.tag() + "`, above the `"@
                        + cfg.max_adopted_determinism_risk.tag() + "` ceiling"@,
                    "only adopt crates whose determinism risk is within the configured ceiling"@,
                ),
            ]
        } else {
            Seq::<ScanViolationView>::empty()
        };
        assert(adopted_crate_violations(cfg, r, c) == b1 + b2);
        lemma_no_blocking_concat(b1, b2);
        if b1.len() > 0 {
            lemma_no_blocking_single(b1[0]);
            assert(b1 == seq![b1[0]]);
        }
        if b2.len() > 0 {
            lemma_no_blocking_single(b2[0]);
            assert(b2 == seq![b2[0]]);
        }
    }
}

proof fn lemma_single_piece(s: Seq<ScanViolationView>)
    requires
        s.len() <= 1,
        s.len() == 1 ==> s[0].severity == ScanSeverity::Block,
    ensures
        no_blocking(s) == (s.len() == 0),
{
    if s.len() == 1 {
        assert(s[0].severity == ScanSeverity::Block);
    }
}

proof fn lemma_record_policy(cfg: EcosystemScanConfig, r: EcosystemScanRecord)
    ensures
        no_blocking(record_violations(cfg, r)) == record_obeys_policy(cfg, r),
{
    let n = r.considered_crates@.len() as int;
    let p1 = id_violations(r);
    let p2 = summary_violations(r);
    let p3 = crate_coverage_violations(r);
    let p4 = verdicts_upto(r, n);
    let p5 = adoption_violations(r);
    let p6 = rejection_violations(cfg, r);
    let p7 = module_violations(cfg, r);
    let p8 = adopted_upto(cfg, r, n);
    lemma_no_blocking_concat(p1, p2);
    lemma_no_blocking_concat(p1 + p2, p3);
    lemma_no_blocking_concat(p1 + p2 + p3, p4);
    lemma_no_blocking_concat(p1 + p2 + p3 + p4, p5);
    lemma_no_blocking_concat(p1 + p2 + p3 + p4 + p5, p6);
    lemma_no_blocking_concat(p1 + p2 + p3 + p4 + p5 + p6, p7);
    lemma_no_blocking_concat(p1 + p2 + p3 + p4 + p5 + p6 + p7, p8);
    lemma_single_piece(p1);
    lemma_single_piece(p2);
    lemma_single_piece(p3);
    lemma_single_piece(p5);
    lemma_single_piece(p7);
    lemma_verdicts_upto(r, n);
    lemma_adopted_upto(cfg, r, n);
    assert forall|j: int| 0 <= j < n implies (no_blocking(
        crate_verdict_violations(r, #[trigger] r.considered_crates@[j]),
    ) && no_blocking(adopted_crate_violations(cfg, r, r.considered_crates@[j])))
        == crate_obeys_policy(cfg, r, r.considered_crates@[j]) by {
        lemma_crate_policy(cfg, r, r.considered_crates@[j]);
    }
    if r.decision.rejects_spec() {
        let na = cfg.required_constraint_axes@.len() as int;
        let nr = r.reject_rationale@.len() as int;
        let q1 = axes_upto(cfg, r, na);
        let q2 = rationale_upto(r, nr);
        let q3 = fallback_violations(cfg, r);
        lemma_no_blocking_concat(q1, q2);
        lemma_no_blocking_concat(q1 + q2, q3);
        lemma_axes_upto(cfg, r, na);
        lemma_rationale_upto(r, nr);
        lemma_single_piece(q3);
    }
    if is_blank(r.candidate_id@) {
        assert(p1.len() == 1);
    }
}

proof fn lemma_records_upto(cfg: EcosystemScanConfig, recs: Seq<EcosystemScanRecord>, n: int)
    requires
        0 <= n <= recs.len(),
    ensures
        no_blocking(records_upto(cfg, recs, n)) == forall|i: int|
            0 <= i < n ==> record_obeys_policy(cfg, #[trigger] recs[i]),
    decreases n,
{
    if n > 0 {
        lemma_records_upto(cfg, recs, n - 1);
        lemma_no_blocking_concat(records_upto(cfg, recs, n - 1), record_violations(cfg, recs[n - 1]));
        lemma_record_policy(cfg, recs[n - 1]);
        if forall|i: int| 0 <= i < n - 1 ==> record_obeys_policy(cfg, #[trigger] recs[i]) {
            if record_obeys_policy(cfg, recs[n - 1]) {
                assert forall|i: int| 0 <= i < n implies record_obeys_policy(
                    cfg,
                    #[trigger] recs[i],
                ) by {
                    if i < n - 1 {
                    }
                }
            }
        }
    }
}

proof fn lemma_candidate_index(c: UpliftCandidate)
    ensures
        0 <= c.index() < 8,
        candidate_at(c.index()) == c,
{
}

/// The scan passes exactly when the ledger upholds the adoption policy:
/// every candidate is covered (when coverage is required), no candidate is
/// covered twice, and every record carries a canonical id, a summary, a
/// considered crate or a none-found statement, grounded rejections with a
/// fallback plan, an in-tree module for in-tree code, and adopts no crate
/// that breaks the unsafe policy or the determinism ceiling.
pub proof fn law_gate_passes_iff_policy_holds(
    cfg: EcosystemScanConfig,
    recs: Seq<EcosystemScanRecord>,
)
    ensures
        no_blocking(scan_violations(cfg, recs)) == ledger_obeys_policy(cfg, recs),
{
    let c = coverage_violations(cfg, recs);
    let d = duplicate_violations(recs);
    let r = records_upto(cfg, recs, recs.len() as int);
    lemma_no_blocking_concat(c, d);
    lemma_no_blocking_concat(c + d, r);
    lemma_coverage_upto(recs, 8);
    lemma_duplicates_upto(recs, 8);
    lemma_records_upto(cfg, recs, recs.len() as int);
    if cfg.require_full_candidate_coverage {
        if forall|k: int| 0 <= k < 8 ==> has_record(recs, #[trigger] candidate_at(k)) {
            assert forall|x: UpliftCandidate| #[trigger] has_record(recs, x) by {
                lemma_candidate_index(x);
                assert(has_record(recs, candidate_at(x.index())));
            }
        }
    }
    if forall|k: int| 0 <= k < 8 ==> record_count(recs, #[trigger] candidate_at(k)) <= 1 {
        assert forall|x: UpliftCandidate| #[trigger] record_count(recs, x) <= 1 by {
            lemma_candidate_index(x);
            assert(record_count(recs, candidate_at(x.index())) <= 1);
        }
    }
    if !cfg.require_full_candidate_coverage {
        lemma_no_blocking_empty();
    }
}

proof fn lemma_records_prefix(
    cfg: EcosystemScanConfig,
    recs: Seq<EcosystemScanRecord>,
    m: int,
    n: int,
)
    requires
        0 <= m <= n,
    ensures
        records_upto(cfg, recs, m).len() <= records_upto(cfg, recs, n).len(),
        forall|i: int|
            0 <= i < records_upto(cfg, recs, m).len() ==> #[trigger] records_upto(cfg, recs, n)[i]
                == records_upto(cfg, recs, m)[i],
    decreases n - m,
{
    if m < n {
        lemma_records_prefix(cfg, recs, m, n - 1);
    }
}

/// A record whose decision is Adopt or Hybrid relies on an adopted crate:
/// when it names none, the scan reports a blocking
/// AdoptWithoutAdoptedCrate violation for that record's candidate, and so
/// the scan does not pass, whatever the rest of the ledger holds.
pub proof fn law_adoption_without_adopted_crate_blocks(
    cfg: EcosystemScanConfig,
    recs: Seq<EcosystemScanRecord>,
    k: int,
)
    requires
        0 <= k < recs.len(),
        recs[k].decision == AdoptionDecision::Adopt || recs[k].decision == AdoptionDecision::Hybrid,
        recs[k].adopted_crates@.len() == 0,
    ensures
        exists|i: int|
            0 <= i < scan_violations(cfg, recs).len() && (#[trigger] scan_violations(cfg, recs)[i]).code
                == ScanViolationCode::AdoptWithoutAdoptedCrate && scan_violations(cfg, recs)[i].severity
                == ScanSeverity::Block && scan_violations(cfg, recs)[i].candidate_id
                == recs[k].candidate_id@,
        !no_blocking(scan_violations(cfg, recs)),
{
    let r = recs[k];
    let n = r.considered_crates@.len() as int;
    let pre = id_violations(r) + summary_violations(r) + crate_coverage_violations(r) + verdicts_upto(
        r,
        n,
    );
    let p5 = adoption_violations(r);
    assert(p5.len() == 1);
    assert(p5[0].code == ScanViolationCode::AdoptWithoutAdoptedCrate);
    let rv = record_violations(cfg, r);
    assert(rv == pre + p5 + rejection_violations(cfg, r) + module_violations(cfg, r) + adopted_upto(
        cfg,
        r,
        n,
    ));
    let j = pre.len() as int;
    assert((pre + p5)[j] == p5[0]);
    assert(rv[j] == p5[0]);
    let before = records_upto(cfg, recs, k);
    assert(records_upto(cfg, recs, k + 1) == before + rv);
    let idx = before.len() + j;
    assert(records_upto(cfg, recs, k + 1)[idx] == p5[0]);
    lemma_records_prefix(cfg, recs, k + 1, recs.len() as int);
    let all = records_upto(cfg, recs, recs.len() as int);
    assert(all[idx] == p5[0]);
    let head = coverage_violations(cfg, recs) + duplicate_violations(recs);
    let sv = scan_violations(cfg, recs);
    assert(sv == head + all);
    let w = head.len() + idx;
    assert(sv[w] == all[idx]);
    assert(sv[w].code == ScanViolationCode::AdoptWithoutAdoptedCrate);
    assert(sv[w].severity == ScanSeverity::Block);
}

/// The decision counts of a summary add up to the number of records.
pub proof fn law_summary_decisions_add_up(
    s: EcosystemScanSummary,
    recs: Seq<EcosystemScanRecord>,
    vs: Seq<ScanViolationView>,
    missing: nat,
)
    requires
        summary_of(s, recs, vs, missing),
    ensures
        s.adopt_count + s.build_count + s.hybrid_count + s.deferred_count == s.total_records,
{
    lemma_decision_counts_sum(recs, recs.len() as int);
}

} // verus!
