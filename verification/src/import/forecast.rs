//! The dry-run migration forecast: per-module risk scoring, the ranking of
//! the riskiest modules, the likely gaps, the difficulty score and label,
//! the confidence band, and the operator actions.

use vstd::prelude::*;
use vstd::string::*;

use crate::text::{
    cat, cat3, decimal, has_infix, insert_sorted_unique, seq_lt, str_contains, string_views,
    strictly_sorted, usize_to_string, utf8_bytes, utf8_of,
};

verus! {

// ── Data ─────────────────────────────────────────────────────────────────

/// Confidence band of a forecast, in percent.
#[derive(Debug, Clone, PartialEq, Eq)]
pub struct ForecastConfidenceBand {
    /// Lower bound.
    pub lower_percent: u8,
    /// Expected value.
    pub expected_percent: u8,
    /// Upper bound.
    pub upper_percent: u8,
    /// `high`, `medium` or `low`.
    pub label: String,
}

/// One risky source module.
#[derive(Debug, Clone, PartialEq, Eq)]
pub struct ForecastRiskModule {
    /// Path relative to the snapshot root.
    pub path: String,
    /// Risk score, clamped to 100.
    pub difficulty_score: u8,
    /// Confidence impact, half the score, clamped to 100.
    pub confidence_impact_percent: u8,
    /// Risk factors, sorted and distinct.
    pub risk_factors: Vec<String>,
    /// Evidence references.
    pub evidence_refs: Vec<String>,
}

/// A gap the migration is likely to hit.
#[derive(Debug, Clone, PartialEq, Eq)]
pub struct ForecastLikelyGap {
    /// What is missing.
    pub gap: String,
    /// `high`, `medium` or `low`.
    pub severity: String,
    /// Evidence references.
    pub evidence_refs: Vec<String>,
}

/// An action the operator should take before translating.
#[derive(Debug, Clone, PartialEq, Eq)]
pub struct ForecastOperatorAction {
    /// `P0`, `P1` or `P2`.
    pub priority: String,
    /// What to do.
    pub action: String,
    /// Why.
    pub reason: String,
    /// Evidence references.
    pub evidence_refs: Vec<String>,
}

/// What the forecast reads of the intake metadata and its toolchain
/// fingerprint.
#[derive(Debug, Clone, PartialEq, Eq)]
pub struct ForecastSignals {
    /// Number of lockfiles found.
    pub lockfile_count: usize,
    /// Number of workspace markers.
    pub workspace_marker_count: usize,
    /// Number of TypeScript path aliases.
    pub path_alias_count: usize,
    /// Number of runtime environment markers.
    pub runtime_env_marker_count: usize,
    /// Whether a dynamic import was detected.
    pub dynamic_import_detected: bool,
    /// The detected bundler, if any.
    pub bundler: Option<String>,
    /// Whether a package manager was identified.
    pub has_package_manager: bool,
}

// ── Clamping ─────────────────────────────────────────────────────────────

/// `min(value, 100)` as a byte.
pub open spec fn clamp100(value: int) -> u8 {
    if value >= 100 {
        100
    } else {
        value as u8
    }
}

/// `value` clamped to 100.
pub fn usize_to_u8_clamped(value: usize) -> (r: u8)
    ensures
        r == clamp100(value as int),
        r <= 100,
{
    if value >= 100 {
        100
    } else {
        value as u8
    }
}

// ── Module risk scoring ──────────────────────────────────────────────────

/// Number of lines of a text (`str::lines().count()`): one per `'\n'`,
/// plus one for a final line without a terminator.
pub open spec fn line_count(s: Seq<char>) -> nat
    decreases s.len(),
{
    if s.len() == 0 {
        0
    } else if s.last() == '\n' {
        newline_count(s.drop_last()) + 1
    } else {
        newline_count(s.drop_last()) + 1
    }
}

/// Number of `'\n'` characters.
pub open spec fn newline_count(s: Seq<char>) -> nat
    decreases s.len(),
{
    if s.len() == 0 {
        0
    } else {
        newline_count(s.drop_last()) + if s.last() == '\n' {
            1nat
        } else {
            0nat
        }
    }
}

proof fn lemma_newline_count_le(s: Seq<char>)
    ensures
        newline_count(s) <= s.len(),
    decreases s.len(),
{
    if s.len() > 0 {
        lemma_newline_count_le(s.drop_last());
    }
}

fn count_lines(s: &str) -> (n: usize)
    ensures
        n == line_count(s@),
{
    let chars = crate::text::chars_of(s);
    let mut newlines: usize = 0;
    let mut i: usize = 0;
    while i < chars.len()
        invariant
            i <= chars@.len(),
            newlines == newline_count(chars@.take(i as int)),
            newlines <= i,
        decreases chars@.len() - i,
    {
        proof {
            assert(chars@.take(i as int + 1).drop_last() =~= chars@.take(i as int));
        }
        if chars[i] == '\n' {
            newlines = newlines + 1;
        }
        i = i + 1;
    }
    proof {
        assert(chars@.take(i as int) =~= chars@);
    }
    if chars.len() == 0 {
        0
    } else if chars[chars.len() - 1] == '\n' {
        proof {
            assert(chars@.drop_last().len() + 1 == chars@.len());
            assert(newline_count(chars@) == newline_count(chars@.drop_last()) + 1);
        }
        newlines
    } else {
        proof {
            assert(newline_count(chars@) == newline_count(chars@.drop_last()));
            lemma_newline_count_le(chars@.drop_last());
        }
        newlines + 1
    }
}

/// A risk factor that fired, with its weight.
pub struct Factor {
    pub name: Seq<char>,
    pub weight: nat,
}

/// Whether `s` names a JSX render surface by extension.
pub open spec fn jsx_ext(path: Seq<char>) -> bool {
    crate::import::extension_of(path) == Some("tsx"@) || crate::import::extension_of(path) == Some(
        "jsx"@,
    )
}

/// A factor of weight `weight` named `name` when `cond` holds.
pub open spec fn piece(cond: bool, name: Seq<char>, weight: nat) -> Seq<Factor> {
    if cond {
        seq![Factor { name, weight }]
    } else {
        Seq::empty()
    }
}

/// The risk factors that fire for a module, in check order.
pub open spec fn fired_factors(path: Seq<char>, content: Seq<char>) -> Seq<Factor> {
    let lower = crate::text::ascii_lower_seq(content);
    let lines = line_count(content);
    let bytes = utf8_of(content).len();
    Seq::<Factor>::empty() + piece(jsx_ext(path), "jsx_render_surface"@, 8) + piece(
        has_infix(content, "useEffect("@) || has_infix(content, "useLayoutEffect("@),
        "react_lifecycle_effects"@,
        18,
    ) + piece(
        has_infix(content, "useState("@) || has_infix(content, "useReducer("@),
        "stateful_react_model"@,
        8,
    ) + piece(
        has_infix(content, "React.lazy"@) || has_infix(content, "import("@) || has_infix(
            content,
            "import ("@,
        ),
        "dynamic_import_boundary"@,
        16,
    ) + piece(
        has_infix(lower, "window."@) || has_infix(lower, "document."@) || has_infix(
            lower,
            "localstorage"@,
        ) || has_infix(lower, "sessionstorage"@) || has_infix(lower, "canvas"@) || has_infix(
            lower,
            "requestanimationframe"@,
        ),
        "browser_host_api_bridge"@,
        18,
    ) + piece(
        has_infix(content, "setInterval("@) || has_infix(content, "setTimeout("@),
        "timer_side_effects"@,
        8,
    ) + piece(
        has_infix(content, "createContext("@) || has_infix(content, "useContext("@),
        "context_state_boundary"@,
        8,
    ) + piece(lines > 500, "very_large_module"@, 24) + piece(
        !(lines > 500) && lines > 200,
        "large_module"@,
        12,
    ) + piece(bytes > 32 * 1024, "large_source_bytes"@, 16) + piece(
        !(bytes > 32 * 1024) && bytes > 8 * 1024,
        "medium_source_bytes"@,
        8,
    )
}

/// The total weight of the first `n` factors.
pub open spec fn weight_upto(fs: Seq<Factor>, n: int) -> nat
    decreases n,
{
    if n <= 0 {
        0
    } else {
        weight_upto(fs, n - 1) + fs[n - 1].weight
    }
}

/// The risk score of a module.
pub open spec fn module_score(path: Seq<char>, content: Seq<char>) -> nat {
    weight_upto(fired_factors(path, content), fired_factors(path, content).len() as int)
}

/// Whether `name` is among the fired factors.
pub open spec fn factor_fired(fs: Seq<Factor>, name: Seq<char>) -> bool {
    exists|i: int| 0 <= i < fs.len() && (#[trigger] fs[i]).name == name
}

proof fn lemma_weight_push(fs: Seq<Factor>, x: Factor, n: int)
    requires
        0 <= n <= fs.len(),
    ensures
        weight_upto(fs.push(x), n) == weight_upto(fs, n),
    decreases n,
{
    if n > 0 {
        lemma_weight_push(fs, x, n - 1);
        assert(fs.push(x)[n - 1] == fs[n - 1]);
    }
}

fn fire(
    score: &mut usize,
    factors: &mut Vec<String>,
    name: &str,
    weight: usize,
    fs: Ghost<Seq<Factor>>,
) -> (new_fs: Ghost<Seq<Factor>>)
    requires
        *old(score) == weight_upto(fs@, fs@.len() as int),
        *old(score) <= 1000,
        weight <= 100,
        strictly_sorted(string_views(old(factors)@)),
        forall|x: Seq<char>| #[trigger] string_views(old(factors)@).contains(x) <==> factor_fired(
            fs@,
            x,
        ),
    ensures
        new_fs@ == fs@.push(Factor { name: name@, weight: weight as nat }),
        *final(score) == weight_upto(new_fs@, new_fs@.len() as int),
        *final(score) == *old(score) + weight,
        strictly_sorted(string_views(final(factors)@)),
        forall|x: Seq<char>| #[trigger] string_views(final(factors)@).contains(x) <==> factor_fired(
            new_fs@,
            x,
        ),
{
    *score = *score + weight;
    insert_sorted_unique(factors, String::from_str(name));
    let ghost nf = fs@.push(Factor { name: name@, weight: weight as nat });
    proof {
        lemma_weight_push(fs@, Factor { name: name@, weight: weight as nat }, fs@.len() as int);
        assert(nf.drop_last() =~= fs@);
        assert forall|x: Seq<char>| #[trigger] string_views(factors@).contains(x) <==> factor_fired(
            nf,
            x,
        ) by {
            if factor_fired(nf, x) {
                let i = choose|i: int| 0 <= i < nf.len() && (#[trigger] nf[i]).name == x;
                if i < fs@.len() {
                    assert(fs@[i] == nf[i]);
                    assert(factor_fired(fs@, x));
                }
            }
            if factor_fired(fs@, x) {
                let i = choose|i: int| 0 <= i < fs@.len() && (#[trigger] fs@[i]).name == x;
                assert(nf[i] == fs@[i]);
            }
            if x == name@ {
                assert(nf[fs@.len() as int].name == x);
            }
        }
    }
    Ghost(nf)
}

/// The scoring state after firing factors `fs`: the score is their total
/// weight and the factor list holds their names, sorted and distinct.
#[verifier::opaque]
pub open spec fn fired_state(score: usize, factors: Seq<String>, fs: Seq<Factor>) -> bool {
    &&& score == weight_upto(fs, fs.len() as int)
    &&& strictly_sorted(string_views(factors))
    &&& forall|x: Seq<char>| #[trigger] string_views(factors).contains(x) <==> factor_fired(fs, x)
}

fn fire_if(
    score: &mut usize,
    factors: &mut Vec<String>,
    cond: bool,
    name: &str,
    weight: usize,
    fs: Ghost<Seq<Factor>>,
) -> (new_fs: Ghost<Seq<Factor>>)
    requires
        fired_state(*old(score), old(factors)@, fs@),
        *old(score) <= 1000,
        weight <= 100,
    ensures
        new_fs@ == fs@ + piece(cond, name@, weight as nat),
        fired_state(*final(score), final(factors)@, new_fs@),
        *final(score) <= *old(score) + weight,
{
    proof {
        reveal(fired_state);
    }
    if cond {
        let r = fire(score, factors, name, weight, fs);
        proof {
            assert(fs@ + piece(cond, name@, weight as nat) =~= fs@.push(
                Factor { name: name@, weight: weight as nat },
            ));
            reveal(fired_state);
        }
        r
    } else {
        proof {
            assert(fs@ + piece(cond, name@, weight as nat) =~= fs@);
        }
        fs
    }
}

/// The factors that fire for the given conditions, in check order.
pub open spec fn pieces(
    c0: bool,
    c1: bool,
    c2: bool,
    c3: bool,
    c4: bool,
    c5: bool,
    c6: bool,
    c7: bool,
    c8: bool,
    c9: bool,
    c10: bool,
) -> Seq<Factor> {
    Seq::<Factor>::empty() + piece(c0, "jsx_render_surface"@, 8) + piece(
        c1,
        "react_lifecycle_effects"@,
        18,
    ) + piece(c2, "stateful_react_model"@, 8) + piece(c3, "dynamic_import_boundary"@, 16)
        + piece(c4, "browser_host_api_bridge"@, 18) + piece(c5, "timer_side_effects"@, 8)
        + piece(c6, "context_state_boundary"@, 8) + piece(c7, "very_large_module"@, 24) + piece(
        c8,
        "large_module"@,
        12,
    ) + piece(c9, "large_source_bytes"@, 16) + piece(c10, "medium_source_bytes"@, 8)
}

fn fire_all(
    c0: bool,
    c1: bool,
    c2: bool,
    c3: bool,
    c4: bool,
    c5: bool,
    c6: bool,
    c7: bool,
    c8: bool,
    c9: bool,
    c10: bool,
) -> (r: (usize, Vec<String>, Ghost<Seq<Factor>>))
    ensures
        r.2@ == pieces(c0, c1, c2, c3, c4, c5, c6, c7, c8, c9, c10),
        fired_state(r.0, r.1@, r.2@),
{
    let mut score: usize = 0;
    let mut factors: Vec<String> = Vec::new();
    let ghost f0: Seq<Factor> = Seq::empty();
    proof {
        reveal(fired_state);
        assert(string_views(factors@) =~= Seq::<Seq<char>>::empty());
    }
    let Ghost(f1) = fire_if(&mut score, &mut factors, c0, "jsx_render_surface", 8, Ghost(f0));
    let Ghost(f2) = fire_if(&mut score, &mut factors, c1, "react_lifecycle_effects", 18, Ghost(f1));
    let Ghost(f3) = fire_if(&mut score, &mut factors, c2, "stateful_react_model", 8, Ghost(f2));
    let Ghost(f4) = fire_if(&mut score, &mut factors, c3, "dynamic_import_boundary", 16, Ghost(f3));
    let Ghost(f5) = fire_if(&mut score, &mut factors, c4, "browser_host_api_bridge", 18, Ghost(f4));
    let Ghost(f6) = fire_if(&mut score, &mut factors, c5, "timer_side_effects", 8, Ghost(f5));
    let Ghost(f7) = fire_if(&mut score, &mut factors, c6, "context_state_boundary", 8, Ghost(f6));
    let Ghost(f8) = fire_if(&mut score, &mut factors, c7, "very_large_module", 24, Ghost(f7));
    let Ghost(f9) = fire_if(&mut score, &mut factors, c8, "large_module", 12, Ghost(f8));
    let Ghost(f10) = fire_if(&mut score, &mut factors, c9, "large_source_bytes", 16, Ghost(f9));
    let Ghost(f11) = fire_if(&mut score, &mut factors, c10, "medium_source_bytes", 8, Ghost(f10));
    (score, factors, Ghost(f11))
}

fn either_contains(content: &str, a: &str, b: &str) -> (r: bool)
    ensures
        r == (has_infix(content@, a@) || has_infix(content@, b@)),
{
    str_contains(content, a) || str_contains(content, b)
}

/// Score one source module; `None` when no risk factor fires.
#[verifier::rlimit(60)]
pub fn score_forecast_module(path: &str, content: &str) -> (m: Option<ForecastRiskModule>)
    ensures
        ({
            let fs = fired_factors(path@, content@);
            let score = module_score(path@, content@);
            match m {
                None => score == 0,
                Some(module) => {
                    &&& score > 0
                    &&& module.path@ == path@
                    &&& module.difficulty_score == clamp100(score as int)
                    &&& module.confidence_impact_percent == clamp100(score as int / 2)
                    &&& strictly_sorted(string_views(module.risk_factors@))
                    &&& forall|x: Seq<char>| #[trigger] string_views(
                        module.risk_factors@,
                    ).contains(x) <==> factor_fired(fs, x)
                    &&& string_views(module.evidence_refs@) == seq!["snapshot:"@ + path@]
                },
            }
        }),
{
    let lower = crate::text::str_ascii_lower(content);
    let lines = count_lines(content);
    let bytes = utf8_bytes(content).len();
    let ext = crate::import::path_extension(path);
    let jsx = match &ext {
        None => false,
        Some(e) => *e == String::from_str("tsx") || *e == String::from_str("jsx"),
    };
    let c1 = either_contains(content, "useEffect(", "useLayoutEffect(");
    let c2 = either_contains(content, "useState(", "useReducer(");
    let c3 = str_contains(content, "React.lazy") || str_contains(content, "import(")
        || str_contains(content, "import (");
    let l = lower.as_str();
    let c4 = str_contains(l, "window.") || str_contains(l, "document.") || str_contains(
        l,
        "localstorage",
    ) || str_contains(l, "sessionstorage") || str_contains(l, "canvas") || str_contains(
        l,
        "requestanimationframe",
    );
    let c5 = either_contains(content, "setInterval(", "setTimeout(");
    let c6 = either_contains(content, "createContext(", "useContext(");
    let (score, factors, Ghost(f11)) = fire_all(
        jsx,
        c1,
        c2,
        c3,
        c4,
        c5,
        c6,
        lines > 500,
        !(lines > 500) && lines > 200,
        bytes > 32 * 1024,
        !(bytes > 32 * 1024) && bytes > 8 * 1024,
    );
    proof {
        assert(f11 == fired_factors(path@, content@));
        reveal(fired_state);
    }
    if score == 0 {
        return None;
    }
    let difficulty_score = usize_to_u8_clamped(score);
    let confidence = usize_to_u8_clamped(score / 2);
    let evidence = vec![cat("snapshot:", path)];
    proof {
        assert(string_views(evidence@) =~= seq!["snapshot:"@ + path@]);
    }
    Some(
        ForecastRiskModule {
            path: String::from_str(path),
            difficulty_score,
            confidence_impact_percent: confidence,
            risk_factors: factors,
            evidence_refs: evidence,
        },
    )
}

// ── Ranking ──────────────────────────────────────────────────────────────

/// Whether `a` ranks before `b`: higher score first, then path order.
pub open spec fn ranks_before(a: ForecastRiskModule, b: ForecastRiskModule) -> bool {
    a.difficulty_score > b.difficulty_score || (a.difficulty_score == b.difficulty_score
        && seq_lt(a.path@, b.path@))
}

/// Modules in rank order (no module ranks before an earlier one).
pub open spec fn rank_sorted(s: Seq<ForecastRiskModule>) -> bool {
    forall|i: int, j: int| 0 <= i < j < s.len() ==> !ranks_before(#[trigger] s[j], #[trigger] s[i])
}

fn ranks_before_exec(a: &ForecastRiskModule, b: &ForecastRiskModule) -> (r: bool)
    ensures
        r == ranks_before(*a, *b),
{
    a.difficulty_score > b.difficulty_score || (a.difficulty_score == b.difficulty_score
        && crate::text::str_lt(a.path.as_str(), b.path.as_str()))
}

proof fn lemma_ranks_strict_trans(a: ForecastRiskModule, b: ForecastRiskModule, c: ForecastRiskModule)
    requires
        ranks_before(a, b),
        ranks_before(b, c),
    ensures
        ranks_before(a, c),
{
    if a.difficulty_score == b.difficulty_score && b.difficulty_score == c.difficulty_score {
        crate::text::lemma_seq_lt_trans(a.path@, b.path@, c.path@);
    }
}

proof fn lemma_ranks_irreflexive(a: ForecastRiskModule)
    ensures
        !ranks_before(a, a),
{
    crate::text::lemma_seq_lt_irreflexive(a.path@);
}

proof fn lemma_move_one(
    out: Seq<ForecastRiskModule>,
    rest: Seq<ForecastRiskModule>,
    i: int,
)
    requires
        0 <= i < rest.len(),
    ensures
        out.push(rest[i]).to_multiset().add(rest.remove(i).to_multiset()) == out.to_multiset().add(
            rest.to_multiset(),
        ),
{
    broadcast use vstd::seq_lib::group_to_multiset_ensures;

    assert(rest.contains(rest[i]));
    assert(out.push(rest[i]).to_multiset().add(rest.remove(i).to_multiset()) =~= out.to_multiset().add(
        rest.to_multiset(),
    ));
}

proof fn lemma_empty_multiset(rest: Seq<ForecastRiskModule>)
    ensures
        Seq::<ForecastRiskModule>::empty().to_multiset().add(rest.to_multiset()) == rest.to_multiset(),
{
    broadcast use vstd::seq_lib::group_to_multiset_ensures;

    assert(Seq::<ForecastRiskModule>::empty().to_multiset().add(rest.to_multiset()) =~= rest.to_multiset());
}

/// Rank modules (higher score first, then path order, input order among
/// equals) and keep the first eight.
pub fn rank_forecast_modules(modules: Vec<ForecastRiskModule>) -> (out: Vec<ForecastRiskModule>)
    ensures
        rank_sorted(out@),
        out@.len() == if modules@.len() < 8 {
            modules@.len()
        } else {
            8
        },
        exists|rest: Seq<ForecastRiskModule>|
            #![trigger rest.to_multiset()]
            out@.to_multiset().add(rest.to_multiset()) == modules@.to_multiset() && forall|i: int, j: int|
                0 <= i < out@.len() && 0 <= j < rest.len() ==> !ranks_before(
                    #[trigger] rest[j],
                    #[trigger] out@[i],
                ),
{
    let mut rest = modules;
    let ghost input = rest@;
    let mut out: Vec<ForecastRiskModule> = Vec::new();
    proof {
        lemma_empty_multiset(rest@);
    }
    while out.len() < 8 && rest.len() > 0
        invariant
            out@.len() <= 8,
            out@.len() + rest@.len() == input.len(),
            rank_sorted(out@),
            out@.to_multiset().add(rest@.to_multiset()) == input.to_multiset(),
            forall|i: int, j: int|
                0 <= i < out@.len() && 0 <= j < rest@.len() ==> !ranks_before(
                    #[trigger] rest@[j],
                    #[trigger] out@[i],
                ),
        decreases rest@.len(),
    {
        let mut best: usize = 0;
        let mut k: usize = 1;
        proof {
            lemma_ranks_irreflexive(rest@[0]);
        }
        while k < rest.len()
            invariant
                1 <= k <= rest@.len(),
                best < k,
                forall|m: int| 0 <= m < k ==> !ranks_before(#[trigger] rest@[m], rest@[best as int]),
            decreases rest@.len() - k,
        {
            if ranks_before_exec(&rest[k], &rest[best]) {
                proof {
                    assert forall|m: int| 0 <= m < k + 1 implies !ranks_before(
                        #[trigger] rest@[m],
                        rest@[k as int],
                    ) by {
                        if m < k {
                            if ranks_before(rest@[m], rest@[k as int]) {
                                lemma_ranks_strict_trans(rest@[m], rest@[k as int], rest@[best as int]);
                            }
                        } else {
                            lemma_ranks_irreflexive(rest@[k as int]);
                        }
                    }
                }
                best = k;
            }
            k = k + 1;
        }
        proof {
            crate::text::lemma_seq_lt_irreflexive(rest@[best as int].path@);
        }
        let ghost old_rest = rest@;
        let ghost old_out = out@;
        let chosen = rest.remove(best);
        out.push(chosen);
        proof {
            lemma_move_one(old_out, old_rest, best as int);
            assert forall|i: int, j: int| 0 <= i < out@.len() && 0 <= j < rest@.len() implies !ranks_before(
                #[trigger] rest@[j],
                #[trigger] out@[i],
            ) by {
                let jj = if j < best { j } else { j + 1 };
                assert(rest@[j] == old_rest[jj]);
                if i < old_out.len() {
                    assert(out@[i] == old_out[i]);
                } else {
                    assert(out@[i] == chosen);
                }
            }
            assert forall|i: int, j: int| 0 <= i < j < out@.len() implies !ranks_before(
                #[trigger] out@[j],
                #[trigger] out@[i],
            ) by {
                if j < old_out.len() {
                    assert(out@[i] == old_out[i] && out@[j] == old_out[j]);
                } else {
                    assert(out@[j] == chosen);
                    assert(out@[i] == old_out[i]);
                    assert(old_rest[best as int] == chosen);
                }
            }
        }
    }
    proof {
        let r = rest@;
        assert(out@.to_multiset().add(r.to_multiset()) == input.to_multiset());
    }
    out
}

// ── Likely gaps ──────────────────────────────────────────────────────────

/// Whether some module carries risk factor `factor`.
pub open spec fn contains_factor(modules: Seq<ForecastRiskModule>, factor: Seq<char>) -> bool {
    exists|i: int|
        0 <= i < modules.len() && string_views((#[trigger] modules[i]).risk_factors@).contains(
            factor,
        )
}

fn module_has_factor(module: &ForecastRiskModule, factor: &str) -> (b: bool)
    ensures
        b == string_views(module.risk_factors@).contains(factor@),
{
    let target = String::from_str(factor);
    let mut i: usize = 0;
    while i < module.risk_factors.len()
        invariant
            i <= module.risk_factors@.len(),
            target@ == factor@,
            forall|k: int| 0 <= k < i ==> module.risk_factors@[k]@ != factor@,
        decreases module.risk_factors@.len() - i,
    {
        let eq = module.risk_factors[i] == target;
        proof {
            assert(eq == (module.risk_factors@[i as int]@ == target@));
        }
        if eq {
            proof {
                assert(string_views(module.risk_factors@)[i as int] == factor@);
            }
            return true;
        }
        i = i + 1;
    }
    proof {
        if string_views(module.risk_factors@).contains(factor@) {
            let k = choose|k: int| 0 <= k < module.risk_factors@.len() && string_views(module.risk_factors@)[k] == factor@;
            assert(module.risk_factors@[k]@ == factor@);
        }
    }
    false
}

/// Whether some module carries risk factor `factor`.
pub fn risk_modules_contain_factor(modules: &Vec<ForecastRiskModule>, factor: &str) -> (b: bool)
    ensures
        b == contains_factor(modules@, factor@),
{
    let mut i: usize = 0;
    while i < modules.len()
        invariant
            i <= modules@.len(),
            forall|k: int| 0 <= k < i ==> !string_views((#[trigger] modules@[k]).risk_factors@).contains(factor@),
        decreases modules@.len() - i,
    {
        if module_has_factor(&modules[i], factor) {
            return true;
        }
        i = i + 1;
    }
    false
}

/// The evidence of the first `n` modules that carry `factor`, in order.
pub open spec fn factor_evidence_upto(
    modules: Seq<ForecastRiskModule>,
    factor: Seq<char>,
    n: int,
) -> Seq<Seq<char>>
    decreases n,
{
    if n <= 0 {
        Seq::empty()
    } else {
        factor_evidence_upto(modules, factor, n - 1) + if string_views(
            modules[n - 1].risk_factors@,
        ).contains(factor) {
            string_views(modules[n - 1].evidence_refs@)
        } else {
            Seq::empty()
        }
    }
}

fn append_strings(out: &mut Vec<String>, items: &Vec<String>)
    ensures
        string_views(final(out)@) == string_views(old(out)@) + string_views(items@),
{
    let mut i: usize = 0;
    proof {
        assert(string_views(items@).take(0) =~= Seq::<Seq<char>>::empty());
        assert(string_views(out@) =~= string_views(old(out)@) + string_views(items@).take(0));
    }
    while i < items.len()
        invariant
            i <= items@.len(),
            string_views(out@) == string_views(old(out)@) + string_views(items@).take(i as int),
        decreases items@.len() - i,
    {
        let ghost before = out@;
        out.push(items[i].clone());
        proof {
            assert(string_views(out@) =~= string_views(before).push(items@[i as int]@));
            assert(string_views(items@).take(i as int + 1) =~= string_views(items@).take(i as int).push(
                items@[i as int]@,
            ));
            assert(string_views(out@) =~= string_views(old(out)@) + string_views(items@).take(
                i as int + 1,
            ));
        }
        i = i + 1;
    }
    proof {
        assert(string_views(items@).take(i as int) =~= string_views(items@));
    }
}

/// The evidence references of every module that carries `factor`.
pub fn top_risk_evidence_refs(modules: &Vec<ForecastRiskModule>, factor: &str) -> (refs: Vec<String>)
    ensures
        string_views(refs@) == factor_evidence_upto(modules@, factor@, modules@.len() as int),
{
    let mut refs: Vec<String> = Vec::new();
    let mut i: usize = 0;
    proof {
        assert(string_views(refs@) =~= factor_evidence_upto(modules@, factor@, 0));
    }
    while i < modules.len()
        invariant
            i <= modules@.len(),
            string_views(refs@) == factor_evidence_upto(modules@, factor@, i as int),
        decreases modules@.len() - i,
    {
        if module_has_factor(&modules[i], factor) {
            append_strings(&mut refs, &modules[i].evidence_refs);
        } else {
            proof {
                assert(string_views(refs@) =~= factor_evidence_upto(modules@, factor@, i as int) + Seq::<Seq<char>>::empty());
            }
        }
        i = i + 1;
    }
    refs
}

/// The view of a gap.
pub struct GapView {
    pub gap: Seq<char>,
    pub severity: Seq<char>,
    pub evidence_refs: Seq<Seq<char>>,
}

/// The views of a list of gaps.
pub open spec fn gap_views(s: Seq<ForecastLikelyGap>) -> Seq<GapView> {
    s.map_values(
        |g: ForecastLikelyGap|
            GapView { gap: g.gap@, severity: g.severity@, evidence_refs: string_views(g.evidence_refs@) },
    )
}

/// A gap with one evidence reference, when `cond` holds.
pub open spec fn gap_if(cond: bool, gap: Seq<char>, severity: Seq<char>, evidence: Seq<char>) -> Seq<
    GapView,
> {
    if cond {
        seq![GapView { gap, severity, evidence_refs: seq![evidence] }]
    } else {
        Seq::empty()
    }
}

/// The gap for the detected bundler, if any.
pub open spec fn bundler_gap(signals: ForecastSignals) -> Seq<GapView> {
    match signals.bundler {
        None => Seq::empty(),
        Some(b) => gap_if(
            true,
            b@ + " config and runtime assumption mapping"@,
            "medium"@,
            "intake_meta.json#/toolchain/bundler"@,
        ),
    }
}

/// The gap for a module risk factor, when some module carries it.
pub open spec fn factor_gap(modules: Seq<ForecastRiskModule>, factor: Seq<char>, gap: Seq<char>) -> Seq<
    GapView,
> {
    if contains_factor(modules, factor) {
        seq![
            GapView {
                gap,
                severity: "high"@,
                evidence_refs: factor_evidence_upto(modules, factor, modules.len() as int),
            },
        ]
    } else {
        Seq::empty()
    }
}

/// The likely gaps, in check order.
pub open spec fn likely_gaps_spec(signals: ForecastSignals, modules: Seq<ForecastRiskModule>) -> Seq<
    GapView,
> {
    gap_if(
        signals.dynamic_import_detected,
        "dynamic import and lazy-loading boundary translation"@,
        "high"@,
        "intake_meta.json#/toolchain/dynamic_import_detected"@,
    ) + gap_if(
        signals.runtime_env_marker_count > 0,
        "runtime environment variable policy mapping"@,
        "medium"@,
        "intake_meta.json#/toolchain/runtime_env_markers"@,
    ) + gap_if(
        signals.path_alias_count > 0,
        "TypeScript path alias resolution"@,
        "medium"@,
        "intake_meta.json#/toolchain/tsconfig_path_aliases"@,
    ) + gap_if(
        signals.workspace_marker_count > 0,
        "workspace package boundary discovery"@,
        "medium"@,
        "intake_meta.json#/toolchain/workspace_markers"@,
    ) + bundler_gap(signals) + gap_if(
        !signals.has_package_manager,
        "package manager selection before migration replay"@,
        "low"@,
        "intake_meta.json#/toolchain/package_manager"@,
    ) + factor_gap(modules, "browser_host_api_bridge"@, "browser host API side-effect bridge"@)
        + factor_gap(
        modules,
        "react_lifecycle_effects"@,
        "React lifecycle effects to deterministic command mapping"@,
    )
}

fn push_gap(out: &mut Vec<ForecastLikelyGap>, gap: String, severity: &str, evidence: Vec<String>)
    ensures
        gap_views(final(out)@) == gap_views(old(out)@).push(
            GapView { gap: gap@, severity: severity@, evidence_refs: string_views(evidence@) },
        ),
{
    let g = ForecastLikelyGap { gap, severity: String::from_str(severity), evidence_refs: evidence };
    out.push(g);
    proof {
        assert(gap_views(out@) =~= gap_views(old(out)@).push(
            GapView { gap: gap@, severity: severity@, evidence_refs: string_views(evidence@) },
        ));
    }
}

fn push_simple_gap(out: &mut Vec<ForecastLikelyGap>, cond: bool, gap: &str, severity: &str, evidence: &str)
    ensures
        gap_views(final(out)@) == gap_views(old(out)@) + gap_if(cond, gap@, severity@, evidence@),
{
    if cond {
        let refs = vec![String::from_str(evidence)];
        proof {
            assert(string_views(refs@) =~= seq![evidence@]);
        }
        push_gap(out, String::from_str(gap), severity, refs);
    } else {
        proof {
            assert(gap_views(out@) =~= gap_views(old(out)@) + Seq::<GapView>::empty());
        }
    }
}

proof fn lemma_concat8<A>(
    v0: Seq<A>,
    a: Seq<A>,
    b: Seq<A>,
    c: Seq<A>,
    d: Seq<A>,
    e: Seq<A>,
    f: Seq<A>,
    g: Seq<A>,
    h: Seq<A>,
)
    ensures
        v0 + a + b + c + d + e + f + g + h == v0 + (a + b + c + d + e + f + g + h),
{
    assert(v0 + a + b + c + d + e + f + g + h =~= v0 + (a + b + c + d + e + f + g + h));
}

fn push_bundler_gap(out: &mut Vec<ForecastLikelyGap>, signals: &ForecastSignals)
    ensures
        gap_views(final(out)@) == gap_views(old(out)@) + bundler_gap(*signals),
{
    match &signals.bundler {
        None => {
            proof {
                assert(gap_views(out@) =~= gap_views(old(out)@) + Seq::<GapView>::empty());
            }
        },
        Some(b) => {
            let text = cat(b.as_str(), " config and runtime assumption mapping");
            let refs = vec![String::from_str("intake_meta.json#/toolchain/bundler")];
            proof {
                assert(string_views(refs@) =~= seq!["intake_meta.json#/toolchain/bundler"@]);
            }
            push_gap(out, text, "medium", refs);
            proof {
                assert(gap_views(out@) =~= gap_views(old(out)@) + bundler_gap(*signals));
            }
        },
    }
}

fn push_factor_gap(
    out: &mut Vec<ForecastLikelyGap>,
    modules: &Vec<ForecastRiskModule>,
    factor: &str,
    gap: &str,
)
    ensures
        gap_views(final(out)@) == gap_views(old(out)@) + factor_gap(modules@, factor@, gap@),
{
    if risk_modules_contain_factor(modules, factor) {
        let refs = top_risk_evidence_refs(modules, factor);
        push_gap(out, String::from_str(gap), "high", refs);
        proof {
            assert(gap_views(out@) =~= gap_views(old(out)@) + factor_gap(modules@, factor@, gap@));
        }
    } else {
        proof {
            assert(gap_views(out@) =~= gap_views(old(out)@) + factor_gap(modules@, factor@, gap@));
        }
    }
}

/// The gaps the migration is likely to hit.
pub fn forecast_likely_gaps(signals: &ForecastSignals, modules: &Vec<ForecastRiskModule>) -> (gaps:
    Vec<ForecastLikelyGap>)
    ensures
        gap_views(gaps@) == likely_gaps_spec(*signals, modules@),
{
    let mut gaps: Vec<ForecastLikelyGap> = Vec::new();
    let ghost g0 = gap_views(gaps@);
    push_simple_gap(
        &mut gaps,
        signals.dynamic_import_detected,
        "dynamic import and lazy-loading boundary translation",
        "high",
        "intake_meta.json#/toolchain/dynamic_import_detected",
    );
    push_simple_gap(
        &mut gaps,
        signals.runtime_env_marker_count > 0,
        "runtime environment variable policy mapping",
        "medium",
        "intake_meta.json#/toolchain/runtime_env_markers",
    );
    push_simple_gap(
        &mut gaps,
        signals.path_alias_count > 0,
        "TypeScript path alias resolution",
        "medium",
        "intake_meta.json#/toolchain/tsconfig_path_aliases",
    );
    push_simple_gap(
        &mut gaps,
        signals.workspace_marker_count > 0,
        "workspace package boundary discovery",
        "medium",
        "intake_meta.json#/toolchain/workspace_markers",
    );
    push_bundler_gap(&mut gaps, signals);
    push_simple_gap(
        &mut gaps,
        !signals.has_package_manager,
        "package manager selection before migration replay",
        "low",
        "intake_meta.json#/toolchain/package_manager",
    );
    push_factor_gap(
        &mut gaps,
        modules,
        "browser_host_api_bridge",
        "browser host API side-effect bridge",
    );
    push_factor_gap(
        &mut gaps,
        modules,
        "react_lifecycle_effects",
        "React lifecycle effects to deterministic command mapping",
    );
    proof {
        assert(g0 =~= Seq::<GapView>::empty());
        lemma_concat8(
            g0,
            gap_if(
                signals.dynamic_import_detected,
                "dynamic import and lazy-loading boundary translation"@,
                "high"@,
                "intake_meta.json#/toolchain/dynamic_import_detected"@,
            ),
            gap_if(
                signals.runtime_env_marker_count > 0,
                "runtime environment variable policy mapping"@,
                "medium"@,
                "intake_meta.json#/toolchain/runtime_env_markers"@,
            ),
            gap_if(
                signals.path_alias_count > 0,
                "TypeScript path alias resolution"@,
                "medium"@,
                "intake_meta.json#/toolchain/tsconfig_path_aliases"@,
            ),
            gap_if(
                signals.workspace_marker_count > 0,
                "workspace package boundary discovery"@,
                "medium"@,
                "intake_meta.json#/toolchain/workspace_markers"@,
            ),
            bundler_gap(*signals),
            gap_if(
                !signals.has_package_manager,
                "package manager selection before migration replay"@,
                "low"@,
                "intake_meta.json#/toolchain/package_manager"@,
            ),
            factor_gap(modules@, "browser_host_api_bridge"@, "browser host API side-effect bridge"@),
            factor_gap(
                modules@,
                "react_lifecycle_effects"@,
                "React lifecycle effects to deterministic command mapping"@,
            ),
        );
        lemma_empty_concat(likely_gaps_spec(*signals, modules@));
    }
    gaps
}

proof fn lemma_empty_concat<A>(x: Seq<A>)
    ensures
        Seq::<A>::empty() + x == x,
{
    assert(Seq::<A>::empty() + x =~= x);
}

// ── Difficulty and confidence ────────────────────────────────────────────

/// The weight of a gap severity.
pub open spec fn severity_weight(severity: Seq<char>) -> nat {
    if severity == "high"@ {
        10
    } else if severity == "medium"@ {
        6
    } else {
        3
    }
}

/// The summed severity weights of the first `n` gaps.
pub open spec fn gap_weight_upto(gaps: Seq<ForecastLikelyGap>, n: int) -> nat
    decreases n,
{
    if n <= 0 {
        0
    } else {
        gap_weight_upto(gaps, n - 1) + severity_weight(gaps[n - 1].severity@)
    }
}

/// The summed scores of the first `n` modules.
pub open spec fn module_score_upto(modules: Seq<ForecastRiskModule>, n: int) -> nat
    decreases n,
{
    if n <= 0 {
        0
    } else {
        module_score_upto(modules, n - 1) + modules[n - 1].difficulty_score as nat
    }
}

/// `min(a, b)`.
pub open spec fn min_nat(a: nat, b: nat) -> nat {
    if a < b {
        a
    } else {
        b
    }
}

/// The unclamped difficulty score of a forecast.
pub open spec fn raw_difficulty(
    signals: ForecastSignals,
    modules: Seq<ForecastRiskModule>,
    gaps: Seq<ForecastLikelyGap>,
) -> nat {
    let base: nat = 12 + min_nat(signals.lockfile_count as nat, 3) * 3 + min_nat(
        signals.workspace_marker_count as nat,
        5,
    ) * 4 + min_nat(signals.path_alias_count as nat, 6) * 3 + min_nat(
        signals.runtime_env_marker_count as nat,
        5,
    ) * 4 + (if signals.dynamic_import_detected {
        14nat
    } else {
        0nat
    }) + (if signals.bundler is Some {
        6nat
    } else {
        0nat
    }) + (if !signals.has_package_manager {
        5nat
    } else {
        0nat
    });
    let take = min_nat(modules.len(), 3);
    let module_part: nat = if modules.len() == 0 {
        0
    } else {
        module_score_upto(modules, take as int) / take
    };
    base + module_part + gap_weight_upto(gaps, gaps.len() as int)
}

fn severity_weight_exec(severity: &String) -> (w: usize)
    ensures
        w == severity_weight(severity@),
{
    if *severity == String::from_str("high") {
        10
    } else if *severity == String::from_str("medium") {
        6
    } else {
        3
    }
}

fn min_usize(a: usize, b: usize) -> (m: usize)
    ensures
        m == min_nat(a as nat, b as nat),
{
    if a < b {
        a
    } else {
        b
    }
}

/// The difficulty score of a forecast, clamped to 100.
pub fn forecast_difficulty_score(
    signals: &ForecastSignals,
    modules: &Vec<ForecastRiskModule>,
    gaps: &Vec<ForecastLikelyGap>,
) -> (score: u8)
    ensures
        score == clamp100(raw_difficulty(*signals, modules@, gaps@) as int),
        score <= 100,
{
    let mut score: usize = 12;
    score = score + min_usize(signals.lockfile_count, 3) * 3;
    score = score + min_usize(signals.workspace_marker_count, 5) * 4;
    score = score + min_usize(signals.path_alias_count, 6) * 3;
    score = score + min_usize(signals.runtime_env_marker_count, 5) * 4;
    if signals.dynamic_import_detected {
        score = score + 14;
    }
    if signals.bundler.is_some() {
        score = score + 6;
    }
    if !signals.has_package_manager {
        score = score + 5;
    }
    let take = min_usize(modules.len(), 3);
    let mut total: usize = 0;
    let mut i: usize = 0;
    while i < take
        invariant
            i <= take,
            take <= 3,
            take <= modules@.len(),
            total == module_score_upto(modules@, i as int),
            total <= 255 * i,
        decreases take - i,
    {
        total = total + modules[i].difficulty_score as usize;
        i = i + 1;
    }
    if modules.len() > 0 {
        score = score + total / take;
    }
    let mut g: usize = 0;
    let mut gap_total: usize = 0;
    while g < gaps.len()
        invariant
            g <= gaps@.len(),
            gap_weight_upto(gaps@, g as int) < 1000 ==> gap_total == gap_weight_upto(gaps@, g as int),
            gap_weight_upto(gaps@, g as int) >= 1000 ==> gap_total >= 1000,
            gap_total <= 1010,
        decreases gaps@.len() - g,
    {
        let w = severity_weight_exec(&gaps[g].severity);
        if gap_total < 1000 {
            gap_total = gap_total + w;
        }
        g = g + 1;
    }
    let total_score = score + gap_total;
    let r = usize_to_u8_clamped(total_score);
    r
}

/// The label of a difficulty score.
pub open spec fn difficulty_label_spec(score: u8) -> Seq<char> {
    if score <= 29 {
        "low"@
    } else if score <= 54 {
        "moderate"@
    } else if score <= 79 {
        "high"@
    } else {
        "severe"@
    }
}

/// The label of a difficulty score.
pub fn forecast_difficulty_label(score: u8) -> (s: &'static str)
    ensures
        s@ == difficulty_label_spec(score),
{
    if score <= 29 {
        "low"
    } else if score <= 54 {
        "moderate"
    } else if score <= 79 {
        "high"
    } else {
        "severe"
    }
}

/// The expected confidence, in percent, of a forecast.
pub open spec fn expected_confidence(score: u8, gap_count: nat) -> int {
    let penalty = score / 2 + min_nat(gap_count, 6) * 2;
    let e = if penalty >= 92 {
        0
    } else {
        92 - penalty
    };
    if e < 25 {
        25
    } else {
        e
    }
}

/// The confidence band of a forecast: the expected value, twelve points
/// below it (at least 10) and eight above it (at most 98).
pub fn forecast_confidence_band(difficulty_score: u8, gap_count: usize) -> (band: ForecastConfidenceBand)
    ensures
        band.expected_percent == expected_confidence(difficulty_score, gap_count as nat),
        band.lower_percent == (if band.expected_percent >= 22 {
            band.expected_percent - 12
        } else {
            10
        }),
        band.upper_percent == (if band.expected_percent + 8 <= 98 {
            band.expected_percent + 8
        } else {
            98
        }),
        band.label@ == (if band.expected_percent >= 78 {
            "high"@
        } else if band.expected_percent >= 58 {
            "medium"@
        } else {
            "low"@
        }),
{
    let penalty: usize = (difficulty_score as usize) / 2 + min_usize(gap_count, 6) * 2;
    let raw: usize = if penalty >= 92 {
        0
    } else {
        92 - penalty
    };
    let expected_wide = if raw < 25 {
        25
    } else {
        raw
    };
    let expected = usize_to_u8_clamped(expected_wide);
    let lower_raw: u8 = if expected >= 12 {
        expected - 12
    } else {
        0
    };
    let lower: u8 = if lower_raw < 10 {
        10
    } else {
        lower_raw
    };
    let upper_wide: usize = if (expected as usize) + 8 < 98 {
        (expected as usize) + 8
    } else {
        98
    };
    let upper = usize_to_u8_clamped(upper_wide);
    let label = if expected >= 78 {
        "high"
    } else if expected >= 58 {
        "medium"
    } else {
        "low"
    };
    ForecastConfidenceBand {
        lower_percent: lower,
        expected_percent: expected,
        upper_percent: upper,
        label: String::from_str(label),
    }
}

proof fn lemma_gap_weight_push(gaps: Seq<ForecastLikelyGap>, g: ForecastLikelyGap, n: int)
    requires
        0 <= n <= gaps.len(),
    ensures
        gap_weight_upto(gaps.push(g), n) == gap_weight_upto(gaps, n),
    decreases n,
{
    if n > 0 {
        lemma_gap_weight_push(gaps, g, n - 1);
        assert(gaps.push(g)[n - 1] == gaps[n - 1]);
    }
}

/// Each likely gap raises the raw difficulty by its severity weight: 10 for
/// a `high` gap, 6 for a `medium` one and 3 for any other. So while the
/// score stays under the 100 clamp, adding a gap raises the difficulty score
/// by exactly that weight.
pub proof fn law_each_gap_adds_its_weight(
    signals: ForecastSignals,
    modules: Seq<ForecastRiskModule>,
    gaps: Seq<ForecastLikelyGap>,
    g: ForecastLikelyGap,
)
    ensures
        raw_difficulty(signals, modules, gaps.push(g)) == raw_difficulty(signals, modules, gaps) + (
        if g.severity@ == "high"@ {
            10int
        } else if g.severity@ == "medium"@ {
            6int
        } else {
            3int
        }),
        raw_difficulty(signals, modules, gaps.push(g)) < 100 ==> clamp100(
            raw_difficulty(signals, modules, gaps.push(g)) as int,
        ) == clamp100(raw_difficulty(signals, modules, gaps) as int) + (if g.severity@ == "high"@ {
            10int
        } else if g.severity@ == "medium"@ {
            6int
        } else {
            3int
        }),
{
    lemma_gap_weight_push(gaps, g, gaps.len() as int);
    assert(gaps.push(g)[gaps.len() as int] == g);
    assert(gap_weight_upto(gaps.push(g), gaps.len() + 1int) == gap_weight_upto(gaps, gaps.len() as int)
        + severity_weight(g.severity@));
}

/// A confidence band is ordered and bounded: `10 <= lower <= expected <=
/// upper <= 98`, with the expected value between 25 and 92.
pub proof fn law_confidence_band_is_ordered(score: u8, gap_count: nat)
    ensures
        25 <= expected_confidence(score, gap_count) <= 92,
        ({
            let e = expected_confidence(score, gap_count);
            let lower = if e >= 22 {
                e - 12
            } else {
                10
            };
            let upper = if e + 8 <= 98 {
                e + 8
            } else {
                98
            };
            10 <= lower <= e <= upper <= 98
        }),
{
}

/// More difficulty or more gaps never raises the expected confidence.
pub proof fn law_confidence_monotone(s1: u8, s2: u8, g1: nat, g2: nat)
    requires
        s1 <= s2,
        g1 <= g2,
    ensures
        expected_confidence(s2, g2) <= expected_confidence(s1, g1),
{
}

// ── Operator actions ─────────────────────────────────────────────────────

/// The view of an action.
pub struct ActionView {
    pub priority: Seq<char>,
    pub action: Seq<char>,
    pub reason: Seq<char>,
    pub evidence_refs: Seq<Seq<char>>,
}

/// The views of a list of actions.
pub open spec fn action_views(s: Seq<ForecastOperatorAction>) -> Seq<ActionView> {
    s.map_values(
        |a: ForecastOperatorAction|
            ActionView {
                priority: a.priority@,
                action: a.action@,
                reason: a.reason@,
                evidence_refs: string_views(a.evidence_refs@),
            },
    )
}

/// Whether some gap text contains `needle`.
pub open spec fn some_gap_mentions(gaps: Seq<ForecastLikelyGap>, needle: Seq<char>) -> bool {
    exists|i: int| 0 <= i < gaps.len() && has_infix((#[trigger] gaps[i]).gap@, needle)
}

/// `items` joined with `","`.
pub open spec fn join_commas(items: Seq<Seq<char>>) -> Seq<char>
    decreases items.len(),
{
    if items.len() == 0 {
        Seq::empty()
    } else if items.len() == 1 {
        items[0]
    } else {
        join_commas(items.drop_last()) + ","@ + items.last()
    }
}

/// The operator actions, in order: review the top module (or proceed), then
/// one action per gap family present.
pub open spec fn operator_actions_spec(
    gaps: Seq<ForecastLikelyGap>,
    modules: Seq<ForecastRiskModule>,
) -> Seq<ActionView> {
    (if modules.len() > 0 {
        let m = modules[0];
        seq![
            ActionView {
                priority: "P0"@,
                action: "review top-risk modules before translation"@,
                reason: m.path@ + " scored "@ + decimal(m.difficulty_score as nat) + " due to "@
                    + join_commas(string_views(m.risk_factors@)),
                evidence_refs: string_views(m.evidence_refs@),
            },
        ]
    } else {
        seq![
            ActionView {
                priority: "P2"@,
                action: "proceed with standard translation profile"@,
                reason: "no high-risk source modules were detected in the preflight scan"@,
                evidence_refs: seq!["intake_meta.json#/source_hash"@],
            },
        ]
    }) + (if some_gap_mentions(gaps, "dynamic import"@) {
        seq![
            ActionView {
                priority: "P0"@,
                action: "map lazy-loading boundaries into explicit route or command plans"@,
                reason: "dynamic imports can hide runtime-only modules from static translation"@,
                evidence_refs: seq!["intake_meta.json#/toolchain/dynamic_import_detected"@],
            },
        ]
    } else {
        Seq::empty()
    }) + (if some_gap_mentions(gaps, "path alias"@) {
        seq![
            ActionView {
                priority: "P1"@,
                action: "resolve TypeScript aliases before code emission"@,
                reason: "unresolved aliases reduce planner confidence and provenance quality"@,
                evidence_refs: seq!["intake_meta.json#/toolchain/tsconfig_path_aliases"@],
            },
        ]
    } else {
        Seq::empty()
    }) + (if some_gap_mentions(gaps, "environment variable"@) {
        seq![
            ActionView {
                priority: "P1"@,
                action: "declare runtime environment policy for generated FrankenTUI commands"@,
                reason: "environment lookups require explicit deterministic fallback behavior"@,
                evidence_refs: seq!["intake_meta.json#/toolchain/runtime_env_markers"@],
            },
        ]
    } else {
        Seq::empty()
    })
}

fn gaps_mention(gaps: &Vec<ForecastLikelyGap>, needle: &str) -> (b: bool)
    ensures
        b == some_gap_mentions(gaps@, needle@),
{
    let mut i: usize = 0;
    while i < gaps.len()
        invariant
            i <= gaps@.len(),
            forall|k: int| 0 <= k < i ==> !has_infix((#[trigger] gaps@[k]).gap@, needle@),
        decreases gaps@.len() - i,
    {
        if str_contains(gaps[i].gap.as_str(), needle) {
            return true;
        }
        i = i + 1;
    }
    false
}

pub(crate) fn join_with_commas(items: &Vec<String>) -> (s: String)
    ensures
        s@ == join_commas(string_views(items@)),
{
    let mut out = String::new();
    let mut i: usize = 0;
    while i < items.len()
        invariant
            i <= items@.len(),
            out@ == join_commas(string_views(items@).take(i as int)),
        decreases items@.len() - i,
    {
        proof {
            assert(string_views(items@).take(i as int + 1).drop_last() =~= string_views(items@).take(
                i as int,
            ));
        }
        if i > 0 {
            out.append(",");
        }
        out.append(items[i].as_str());
        proof {
            if i == 0 {
                assert(out@ =~= string_views(items@).take(1)[0]);
            }
        }
        i = i + 1;
    }
    proof {
        assert(string_views(items@).take(i as int) =~= string_views(items@));
    }
    out
}

fn push_action(
    out: &mut Vec<ForecastOperatorAction>,
    priority: &str,
    action: &str,
    reason: String,
    evidence: Vec<String>,
)
    ensures
        action_views(final(out)@) == action_views(old(out)@).push(
            ActionView {
                priority: priority@,
                action: action@,
                reason: reason@,
                evidence_refs: string_views(evidence@),
            },
        ),
{
    let a = ForecastOperatorAction {
        priority: String::from_str(priority),
        action: String::from_str(action),
        reason,
        evidence_refs: evidence,
    };
    out.push(a);
    proof {
        assert(action_views(out@) =~= action_views(old(out)@).push(
            ActionView {
                priority: priority@,
                action: action@,
                reason: reason@,
                evidence_refs: string_views(evidence@),
            },
        ));
    }
}

fn single_ref(r: &str) -> (v: Vec<String>)
    ensures
        string_views(v@) == seq![r@],
{
    let v = vec![String::from_str(r)];
    proof {
        assert(string_views(v@) =~= seq![r@]);
    }
    v
}

fn copy_strings(items: &Vec<String>) -> (v: Vec<String>)
    ensures
        string_views(v@) == string_views(items@),
{
    let mut v: Vec<String> = Vec::new();
    append_strings(&mut v, items);
    proof {
        assert(string_views(Seq::<String>::empty()) + string_views(items@) =~= string_views(items@));
    }
    v
}

/// The actions an operator should take before translating.
pub fn forecast_operator_actions(
    likely_gaps: &Vec<ForecastLikelyGap>,
    top_risk_modules: &Vec<ForecastRiskModule>,
) -> (actions: Vec<ForecastOperatorAction>)
    ensures
        action_views(actions@) == operator_actions_spec(likely_gaps@, top_risk_modules@),
{
    let mut actions: Vec<ForecastOperatorAction> = Vec::new();
    if top_risk_modules.len() > 0 {
        let module = &top_risk_modules[0];
        let score_text = usize_to_string(module.difficulty_score as usize);
        let reason = cat3(module.path.as_str(), " scored ", score_text.as_str());
        let factors = join_with_commas(&module.risk_factors);
        let reason = reason.concat(" due to ");
        let reason = reason.concat(factors.as_str());
        push_action(
            &mut actions,
            "P0",
            "review top-risk modules before translation",
            reason,
            copy_strings(&module.evidence_refs),
        );
    } else {
        push_action(
            &mut actions,
            "P2",
            "proceed with standard translation profile",
            String::from_str("no high-risk source modules were detected in the preflight scan"),
            single_ref("intake_meta.json#/source_hash"),
        );
    }
    let ghost a1 = action_views(actions@);
    if gaps_mention(likely_gaps, "dynamic import") {
        push_action(
            &mut actions,
            "P0",
            "map lazy-loading boundaries into explicit route or command plans",
            String::from_str("dynamic imports can hide runtime-only modules from static translation"),
            single_ref("intake_meta.json#/toolchain/dynamic_import_detected"),
        );
    }
    let ghost a2 = action_views(actions@);
    if gaps_mention(likely_gaps, "path alias") {
        push_action(
            &mut actions,
            "P1",
            "resolve TypeScript aliases before code emission",
            String::from_str("unresolved aliases reduce planner confidence and provenance quality"),
            single_ref("intake_meta.json#/toolchain/tsconfig_path_aliases"),
        );
    }
    let ghost a3 = action_views(actions@);
    if gaps_mention(likely_gaps, "environment variable") {
        push_action(
            &mut actions,
            "P1",
            "declare runtime environment policy for generated FrankenTUI commands",
            String::from_str("environment lookups require explicit deterministic fallback behavior"),
            single_ref("intake_meta.json#/toolchain/runtime_env_markers"),
        );
    }
    proof {
        assert(action_views(actions@) =~= operator_actions_spec(likely_gaps@, top_risk_modules@));
    }
    actions
}

// ── Evidence references ──────────────────────────────────────────────────

/// Whether `x` is an evidence reference of some module.
pub open spec fn module_ref(modules: Seq<ForecastRiskModule>, x: Seq<char>) -> bool {
    exists|i: int| 0 <= i < modules.len() && string_views((#[trigger] modules[i]).evidence_refs@).contains(x)
}

/// The traceability references of a forecast, sorted and distinct: the
/// source hash, the toolchain, the lockfiles when any, and every module's
/// evidence.
pub fn forecast_evidence_refs(has_lockfiles: bool, top_risk_modules: &Vec<ForecastRiskModule>) -> (refs:
    Vec<String>)
    ensures
        strictly_sorted(string_views(refs@)),
        forall|x: Seq<char>| #[trigger] string_views(refs@).contains(x) <==> (x
            == "intake_meta.json#/source_hash"@ || x == "intake_meta.json#/toolchain"@ || (
        has_lockfiles && x == "intake_meta.json#/lockfiles"@) || module_ref(top_risk_modules@, x)),
{
    let mut refs: Vec<String> = Vec::new();
    insert_sorted_unique(&mut refs, String::from_str("intake_meta.json#/source_hash"));
    insert_sorted_unique(&mut refs, String::from_str("intake_meta.json#/toolchain"));
    if has_lockfiles {
        insert_sorted_unique(&mut refs, String::from_str("intake_meta.json#/lockfiles"));
    }
    let mut i: usize = 0;
    while i < top_risk_modules.len()
        invariant
            i <= top_risk_modules@.len(),
            strictly_sorted(string_views(refs@)),
            forall|x: Seq<char>| #[trigger] string_views(refs@).contains(x) <==> (x
                == "intake_meta.json#/source_hash"@ || x == "intake_meta.json#/toolchain"@ || (
            has_lockfiles && x == "intake_meta.json#/lockfiles"@) || module_ref(
                top_risk_modules@.take(i as int),
                x,
            )),
        decreases top_risk_modules@.len() - i,
    {
        let module = &top_risk_modules[i];
        let mut j: usize = 0;
        while j < module.evidence_refs.len()
            invariant
                i < top_risk_modules@.len(),
                j <= module.evidence_refs@.len(),
                *module == top_risk_modules@[i as int],
                strictly_sorted(string_views(refs@)),
                forall|x: Seq<char>| #[trigger] string_views(refs@).contains(x) <==> (x
                    == "intake_meta.json#/source_hash"@ || x == "intake_meta.json#/toolchain"@ || (
                has_lockfiles && x == "intake_meta.json#/lockfiles"@) || module_ref(
                    top_risk_modules@.take(i as int),
                    x,
                ) || string_views(module.evidence_refs@).take(j as int).contains(x)),
            decreases module.evidence_refs@.len() - j,
        {
            insert_sorted_unique(&mut refs, module.evidence_refs[j].clone());
            proof {
                let ev = string_views(module.evidence_refs@);
                assert(ev.take(j as int + 1) =~= ev.take(j as int).push(ev[j as int]));
                assert forall|x: Seq<char>| ev.take(j as int + 1).contains(x) <==> (ev.take(
                    j as int,
                ).contains(x) || x == ev[j as int]) by {
                    if ev.take(j as int + 1).contains(x) {
                        let k = choose|k: int| 0 <= k < j + 1 && #[trigger] ev.take(j as int + 1)[k] == x;
                        if k < j {
                            assert(ev.take(j as int)[k] == x);
                        }
                    }
                    if ev.take(j as int).contains(x) {
                        let k = choose|k: int| 0 <= k < j && #[trigger] ev.take(j as int)[k] == x;
                        assert(ev.take(j as int + 1)[k] == x);
                    }
                    if x == ev[j as int] {
                        assert(ev.take(j as int + 1)[j as int] == x);
                    }
                }
            }
            j = j + 1;
        }
        proof {
            let ev = string_views(module.evidence_refs@);
            assert(ev.take(j as int) =~= ev);
            let t = top_risk_modules@.take(i as int);
            let t1 = top_risk_modules@.take(i as int + 1);
            assert forall|x: Seq<char>| module_ref(t1, x) <==> (module_ref(t, x) || ev.contains(x)) by {
                if module_ref(t1, x) {
                    let k = choose|k: int| 0 <= k < t1.len() && string_views((#[trigger] t1[k]).evidence_refs@).contains(x);
                    if k < i {
                        assert(t[k] == t1[k]);
                    } else {
                        assert(t1[k] == *module);
                    }
                }
                if module_ref(t, x) {
                    let k = choose|k: int| 0 <= k < t.len() && string_views((#[trigger] t[k]).evidence_refs@).contains(x);
                    assert(t1[k] == t[k]);
                }
                if ev.contains(x) {
                    assert(t1[i as int] == *module);
                }
            }
        }
        i = i + 1;
    }
    proof {
        assert(top_risk_modules@.take(i as int) =~= top_risk_modules@);
    }
    refs
}

} // verus!
