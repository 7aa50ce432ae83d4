//! Metamorphic relation catalog and oracle policy profiles for
//! non-deterministic equivalence checks.
//!
//! Strict semantic comparison is the default. The schedule-tolerant and
//! non-deterministic-equivalence profiles enable the built-in, versioned
//! relations (event multisets, final state per key, side-effect multisets,
//! the improvement envelope), each tied to one feature family.

use vstd::prelude::*;
use vstd::string::*;

use crate::text::{
    cat, cat3, hex_of, insert_sorted_unique, lemma_sorted_set_of_subset, sha256_hex, sha256_spec,
    sorted_set, string_views, strictly_sorted, utf8_bytes, utf8_of,
};

verus! {

/// Schema version for metamorphic reports and relation descriptors.
pub const METAMORPHIC_ORACLE_VERSION: &'static str = "metamorphic-oracle-v1";

/// Version for the built-in relation catalog.
pub const METAMORPHIC_RELATION_CATALOG_VERSION: &'static str = "metamorphic-relation-catalog-v1";

/// Policy profile controlling how strict and metamorphic evidence compose.
#[derive(Debug, Clone, Copy, PartialEq, Eq, Structural)]
pub enum MetamorphicPolicyProfile {
    /// Use the strict semantic comparator only.
    Strict,
    /// Accept deterministic multiset/final-state equivalence under scheduling drift.
    ScheduleTolerant,
    /// Apply every built-in relation intended for non-deterministic equivalence.
    NondeterministicEquivalence,
}

/// Feature family covered by a metamorphic relation.
#[derive(Debug, Clone, Copy, PartialEq, Eq, PartialOrd, Ord, Structural)]
pub enum MetamorphicFeatureFamily {
    /// Ordering of interaction events.
    EventOrdering,
    /// State snapshots and transitions.
    StateTransition,
    /// Externally visible side effects.
    SideEffect,
    /// Declared improvement envelope.
    ImprovementEnvelope,
}

impl MetamorphicFeatureFamily {
    /// The family's hyphenated name.
    pub open spec fn family_name(self) -> Seq<char> {
        match self {
            MetamorphicFeatureFamily::EventOrdering => "event-ordering"@,
            MetamorphicFeatureFamily::StateTransition => "state-transition"@,
            MetamorphicFeatureFamily::SideEffect => "side-effect"@,
            MetamorphicFeatureFamily::ImprovementEnvelope => "improvement-envelope"@,
        }
    }

    /// The family's catalog version: the catalog version, a colon, the family name.
    pub open spec fn catalog_version_spec(self) -> Seq<char> {
        METAMORPHIC_RELATION_CATALOG_VERSION@ + ":"@ + self.family_name()
    }

    /// The family's catalog version: the catalog version, a colon, the family name.
    pub fn catalog_version(self) -> (s: String)
        ensures
            s@ == self.catalog_version_spec(),
    {
        let family = match self {
            MetamorphicFeatureFamily::EventOrdering => "event-ordering",
            MetamorphicFeatureFamily::StateTransition => "state-transition",
            MetamorphicFeatureFamily::SideEffect => "side-effect",
            MetamorphicFeatureFamily::ImprovementEnvelope => "improvement-envelope",
        };
        cat3(METAMORPHIC_RELATION_CATALOG_VERSION, ":", family)
    }
}

/// Built-in relation kind.
#[derive(Debug, Clone, Copy, PartialEq, Eq, Structural)]
pub enum MetamorphicRelationKind {
    /// Same observation multiset regardless of order or offset.
    MultisetEquivalence,
    /// Same final value per state key.
    FinalValueEquivalence,
    /// Same side-effect multiset regardless of schedule.
    RequiredSetEquivalence,
    /// No forbidden improvement clause appears.
    ImprovementEnvelopePreserved,
}

/// Versioned descriptor for one relation in the built-in catalog.
#[derive(Debug, Clone, PartialEq, Eq)]
pub struct MetamorphicRelationDescriptor {
    /// Stable relation identifier.
    pub relation_id: String,
    /// Version of the catalog the relation belongs to.
    pub catalog_version: String,
    /// The feature family the relation covers.
    pub feature_family: MetamorphicFeatureFamily,
    /// Version of the family's slice of the catalog.
    pub family_catalog_version: String,
    /// What the relation compares.
    pub relation_kind: MetamorphicRelationKind,
    /// The profiles that enable the relation.
    pub policy_profiles: Vec<MetamorphicPolicyProfile>,
    /// Human-readable description.
    pub description: String,
    /// The obligation a passing comparison discharges.
    pub proof_obligation: String,
}

/// The profiles that enable every built-in relation.
pub open spec fn relation_profiles() -> Seq<MetamorphicPolicyProfile> {
    seq![
        MetamorphicPolicyProfile::ScheduleTolerant,
        MetamorphicPolicyProfile::NondeterministicEquivalence,
    ]
}

/// Identifier of the `k`-th relation of the catalog.
pub open spec fn relation_id_at(k: int) -> Seq<char> {
    if k == 0 {
        "mr:event_ordering:multiset-equivalence"@
    } else if k == 1 {
        "mr:state_transition:final-value-equivalence"@
    } else if k == 2 {
        "mr:side_effect:required-set-equivalence"@
    } else {
        "mr:improvement:envelope-preserved"@
    }
}

/// Feature family of the `k`-th relation of the catalog.
pub open spec fn family_at(k: int) -> MetamorphicFeatureFamily {
    if k == 0 {
        MetamorphicFeatureFamily::EventOrdering
    } else if k == 1 {
        MetamorphicFeatureFamily::StateTransition
    } else if k == 2 {
        MetamorphicFeatureFamily::SideEffect
    } else {
        MetamorphicFeatureFamily::ImprovementEnvelope
    }
}

/// Kind of the `k`-th relation of the catalog.
pub open spec fn kind_at(k: int) -> MetamorphicRelationKind {
    if k == 0 {
        MetamorphicRelationKind::MultisetEquivalence
    } else if k == 1 {
        MetamorphicRelationKind::FinalValueEquivalence
    } else if k == 2 {
        MetamorphicRelationKind::RequiredSetEquivalence
    } else {
        MetamorphicRelationKind::ImprovementEnvelopePreserved
    }
}

/// Whether `d` is the `k`-th relation of the catalog (its description and
/// proof obligation aside).
pub open spec fn is_catalog_entry(d: MetamorphicRelationDescriptor, k: int) -> bool {
    &&& d.relation_id@ == relation_id_at(k)
    &&& d.catalog_version@ == METAMORPHIC_RELATION_CATALOG_VERSION@
    &&& d.feature_family == family_at(k)
    &&& d.family_catalog_version@ == family_at(k).catalog_version_spec()
    &&& d.relation_kind == kind_at(k)
    &&& d.policy_profiles@ == relation_profiles()
}

fn relation_descriptor(
    relation_id: &str,
    feature_family: MetamorphicFeatureFamily,
    relation_kind: MetamorphicRelationKind,
    description: &str,
    proof_obligation: &str,
) -> (d: MetamorphicRelationDescriptor)
    ensures
        d.relation_id@ == relation_id@,
        d.catalog_version@ == METAMORPHIC_RELATION_CATALOG_VERSION@,
        d.feature_family == feature_family,
        d.family_catalog_version@ == feature_family.catalog_version_spec(),
        d.relation_kind == relation_kind,
        d.policy_profiles@ == relation_profiles(),
        d.description@ == description@,
        d.proof_obligation@ == proof_obligation@,
{
    let profiles = vec![
        MetamorphicPolicyProfile::ScheduleTolerant,
        MetamorphicPolicyProfile::NondeterministicEquivalence,
    ];
    proof {
        assert(profiles@ =~= relation_profiles());
    }
    MetamorphicRelationDescriptor {
        relation_id: String::from_str(relation_id),
        catalog_version: String::from_str(METAMORPHIC_RELATION_CATALOG_VERSION),
        feature_family,
        family_catalog_version: feature_family.catalog_version(),
        relation_kind,
        policy_profiles: profiles,
        description: String::from_str(description),
        proof_obligation: String::from_str(proof_obligation),
    }
}

/// Return the built-in versioned metamorphic relation catalog.
pub fn metamorphic_relation_catalog() -> (c: Vec<MetamorphicRelationDescriptor>)
    ensures
        c@.len() == 4,
        forall|k: int| 0 <= k < 4 ==> is_catalog_entry(#[trigger] c@[k], k),
{
    let c = vec![
        relation_descriptor(
            "mr:event_ordering:multiset-equivalence",
            MetamorphicFeatureFamily::EventOrdering,
            MetamorphicRelationKind::MultisetEquivalence,
            "Event-ordering observations may move in time, but their semantic multiset must match.",
            "For every event-ordering signature s, source and translated counts must match.",
        ),
        relation_descriptor(
            "mr:state_transition:final-value-equivalence",
            MetamorphicFeatureFamily::StateTransition,
            MetamorphicRelationKind::FinalValueEquivalence,
            "Intermediate state snapshots may differ under scheduling drift, but final state per key must match.",
            "For every state key k, source and translated final values must match.",
        ),
        relation_descriptor(
            "mr:side_effect:required-set-equivalence",
            MetamorphicFeatureFamily::SideEffect,
            MetamorphicRelationKind::RequiredSetEquivalence,
            "Side effects may be reordered, but required side-effect observations must not be lost or invented.",
            "For every side-effect signature s, source and translated counts must match.",
        ),
        relation_descriptor(
            "mr:improvement:envelope-preserved",
            MetamorphicFeatureFamily::ImprovementEnvelope,
            MetamorphicRelationKind::ImprovementEnvelopePreserved,
            "Metamorphic acceptance cannot launder forbidden improvement claims.",
            "The strict report must contain no ForbiddenImprovement semantic difference.",
        ),
    ];
    c
}

// ── Oracle configuration ─────────────────────────────────────────────────

/// Comparator configuration.
#[derive(Debug, Clone, PartialEq, Eq)]
pub struct MetamorphicOracleConfig {
    /// The policy profile.
    pub profile: MetamorphicPolicyProfile,
    /// The relation catalog version.
    pub catalog_version: String,
    /// The relations the profile enables, in catalog order.
    pub enabled_relation_ids: Vec<String>,
}

/// The relation ids a profile enables, in catalog order: every relation
/// for the two metamorphic profiles, none for the strict profile.
pub open spec fn enabled_ids(profile: MetamorphicPolicyProfile) -> Seq<Seq<char>> {
    if relation_profiles().contains(profile) {
        seq![relation_id_at(0), relation_id_at(1), relation_id_at(2), relation_id_at(3)]
    } else {
        Seq::empty()
    }
}

/// Whether `c` is the built-in configuration of `profile`.
pub open spec fn is_profile_config(c: MetamorphicOracleConfig, profile: MetamorphicPolicyProfile) -> bool {
    &&& c.profile == profile
    &&& c.catalog_version@ == METAMORPHIC_RELATION_CATALOG_VERSION@
    &&& string_views(c.enabled_relation_ids@) == enabled_ids(profile)
}

/// Whether `p` is among `ps`.
fn profiles_contain(ps: &Vec<MetamorphicPolicyProfile>, p: MetamorphicPolicyProfile) -> (b: bool)
    ensures
        b == ps@.contains(p),
{
    let mut i: usize = 0;
    while i < ps.len()
        invariant
            i <= ps@.len(),
            forall|k: int| 0 <= k < i ==> ps@[k] != p,
        decreases ps@.len() - i,
    {
        if ps[i] == p {
            return true;
        }
        i = i + 1;
    }
    false
}

impl MetamorphicOracleConfig {
    /// Strict semantic comparison only.
    pub fn strict() -> (c: Self)
        ensures
            is_profile_config(c, MetamorphicPolicyProfile::Strict),
    {
        let c = MetamorphicOracleConfig {
            profile: MetamorphicPolicyProfile::Strict,
            catalog_version: String::from_str(METAMORPHIC_RELATION_CATALOG_VERSION),
            enabled_relation_ids: Vec::new(),
        };
        proof {
            assert(!relation_profiles().contains(MetamorphicPolicyProfile::Strict));
            assert(string_views(c.enabled_relation_ids@) =~= enabled_ids(
                MetamorphicPolicyProfile::Strict,
            ));
        }
        c
    }

    /// Built-in schedule-tolerant profile.
    pub fn schedule_tolerant() -> (c: Self)
        ensures
            is_profile_config(c, MetamorphicPolicyProfile::ScheduleTolerant),
    {
        Self::for_profile(MetamorphicPolicyProfile::ScheduleTolerant)
    }

    /// Built-in non-deterministic equivalence profile.
    pub fn nondeterministic_equivalence() -> (c: Self)
        ensures
            is_profile_config(c, MetamorphicPolicyProfile::NondeterministicEquivalence),
    {
        Self::for_profile(MetamorphicPolicyProfile::NondeterministicEquivalence)
    }

    /// The configuration of a built-in profile: every catalog relation whose
    /// profiles include it is enabled, in catalog order.
    pub fn for_profile(profile: MetamorphicPolicyProfile) -> (c: Self)
        ensures
            is_profile_config(c, profile),
    {
        let catalog = metamorphic_relation_catalog();
        let mut ids: Vec<String> = Vec::new();
        let mut i: usize = 0;
        let ghost wanted = relation_profiles().contains(profile);
        while i < catalog.len()
            invariant
                i <= 4,
                catalog@.len() == 4,
                forall|k: int| 0 <= k < 4 ==> is_catalog_entry(#[trigger] catalog@[k], k),
                wanted == relation_profiles().contains(profile),
                string_views(ids@) == (if wanted {
                    enabled_ids(profile).take(i as int)
                } else {
                    Seq::empty()
                }),
            decreases 4 - i,
        {
            let ghost before = string_views(ids@);
            let d = &catalog[i];
            assert(is_catalog_entry(catalog@[i as int], i as int));
            if profiles_contain(&d.policy_profiles, profile) {
                ids.push(d.relation_id.clone());
            }
            proof {
                if wanted {
                    assert(enabled_ids(profile).take(i as int + 1) =~= enabled_ids(profile).take(
                        i as int,
                    ).push(relation_id_at(i as int)));
                    assert(string_views(ids@) =~= enabled_ids(profile).take(i as int + 1));
                } else {
                    assert(string_views(ids@) =~= Seq::<Seq<char>>::empty());
                }
            }
            i = i + 1;
        }
        proof {
            if wanted {
                assert(enabled_ids(profile).take(4) =~= enabled_ids(profile));
            } else {
                assert(string_views(ids@) =~= enabled_ids(profile));
            }
        }
        MetamorphicOracleConfig {
            profile,
            catalog_version: String::from_str(METAMORPHIC_RELATION_CATALOG_VERSION),
            enabled_relation_ids: ids,
        }
    }

    /// Whether the relation with id `relation_id` is enabled.
    pub fn relation_enabled(&self, relation_id: &str) -> (b: bool)
        ensures
            b == string_views(self.enabled_relation_ids@).contains(relation_id@),
    {
        let target = String::from_str(relation_id);
        crate::text::strings_contain(&self.enabled_relation_ids, &target)
    }
}

impl Default for MetamorphicOracleConfig {
    /// Strict semantic comparison only.
    fn default() -> (c: Self)
        ensures
            is_profile_config(c, MetamorphicPolicyProfile::Strict),
    {
        Self::strict()
    }
}

// ── Relation checks over observation signatures ──────────────────────────

/// Number of occurrences of `x` among the first `n` of `s`.
pub open spec fn occurrences(s: Seq<Seq<char>>, x: Seq<char>, n: int) -> nat
    decreases n,
{
    if n <= 0 {
        0
    } else {
        occurrences(s, x, n - 1) + if s[n - 1] == x {
            1nat
        } else {
            0nat
        }
    }
}

/// Number of occurrences of `x` in `s`.
pub open spec fn count_in(s: Seq<Seq<char>>, x: Seq<char>) -> nat {
    occurrences(s, x, s.len() as int)
}

/// Whether two signature lists hold every signature equally often.
pub open spec fn same_multiset(a: Seq<Seq<char>>, b: Seq<Seq<char>>) -> bool {
    forall|x: Seq<char>| #[trigger] count_in(a, x) == count_in(b, x)
}

proof fn lemma_occurrences_absent(s: Seq<Seq<char>>, x: Seq<char>, n: int)
    requires
        0 <= n <= s.len(),
        !s.take(n).contains(x),
    ensures
        occurrences(s, x, n) == 0,
    decreases n,
{
    if n > 0 {
        let pre = s.take(n - 1);
        let full = s.take(n);
        assert(pre =~= full.drop_last());
        if pre.contains(x) {
            let k = choose|k: int| 0 <= k < pre.len() && pre[k] == x;
            assert(full[k] == x);
        }
        assert(full[n - 1] == s[n - 1]);
        lemma_occurrences_absent(s, x, n - 1);
    }
}

proof fn lemma_count_absent(s: Seq<Seq<char>>, x: Seq<char>)
    requires
        !s.contains(x),
    ensures
        count_in(s, x) == 0,
{
    assert(s.take(s.len() as int) =~= s);
    lemma_occurrences_absent(s, x, s.len() as int);
}

fn count_exec(v: &Vec<String>, x: &String) -> (c: usize)
    ensures
        c == count_in(string_views(v@), x@),
{
    let ghost sv = string_views(v@);
    let mut c: usize = 0;
    let mut i: usize = 0;
    while i < v.len()
        invariant
            i <= v@.len(),
            sv == string_views(v@),
            c == occurrences(sv, x@, i as int),
            c <= i,
        decreases v@.len() - i,
    {
        proof {
            assert(sv[i as int] == v@[i as int]@);
        }
        if v[i] == *x {
            c = c + 1;
        }
        i = i + 1;
    }
    c
}

/// Whether `x` occurs a different number of times in `a` and `b`.
pub open spec fn count_differs(a: Seq<Seq<char>>, b: Seq<Seq<char>>) -> spec_fn(Seq<char>) -> bool {
    |x: Seq<char>| count_in(a, x) != count_in(b, x)
}

/// The signatures whose counts differ, ascending, each once.
pub open spec fn count_mismatches(a: Seq<Seq<char>>, b: Seq<Seq<char>>) -> Seq<Seq<char>> {
    sorted_set(count_differs(a, b))
}

/// Insert every string of `items` whose counts differ between `a` and `b`.
fn add_count_mismatches(out: &mut Vec<String>, items: &Vec<String>, a: &Vec<String>, b: &Vec<String>)
    requires
        strictly_sorted(string_views(old(out)@)),
    ensures
        strictly_sorted(string_views(final(out)@)),
        forall|x: Seq<char>| #[trigger] string_views(final(out)@).contains(x) <==> (string_views(
            old(out)@,
        ).contains(x) || (string_views(items@).contains(x) && count_differs(
            string_views(a@),
            string_views(b@),
        )(x))),
{
    let ghost iv = string_views(items@);
    let ghost p = count_differs(string_views(a@), string_views(b@));
    let mut i: usize = 0;
    while i < items.len()
        invariant
            i <= items@.len(),
            iv == string_views(items@),
            p == count_differs(string_views(a@), string_views(b@)),
            strictly_sorted(string_views(out@)),
            forall|x: Seq<char>| #[trigger] string_views(out@).contains(x) <==> (string_views(
                old(out)@,
            ).contains(x) || (iv.take(i as int).contains(x) && p(x))),
        decreases items@.len() - i,
    {
        let ca = count_exec(a, &items[i]);
        let cb = count_exec(b, &items[i]);
        if ca != cb {
            insert_sorted_unique(out, items[i].clone());
        }
        proof {
            let t = iv.take(i as int + 1);
            assert(t =~= iv.take(i as int).push(iv[i as int]));
            assert(iv[i as int] == items@[i as int]@);
            assert forall|x: Seq<char>| #[trigger] string_views(out@).contains(x) <==> (string_views(
                old(out)@,
            ).contains(x) || (t.contains(x) && p(x))) by {
                if t.contains(x) {
                    let k = choose|k: int| 0 <= k < t.len() && t[k] == x;
                    if k < i {
                        assert(iv.take(i as int)[k] == x);
                    }
                }
                if iv.take(i as int).contains(x) {
                    let k = choose|k: int| 0 <= k < i && iv.take(i as int)[k] == x;
                    assert(t[k] == x);
                }
                if x == iv[i as int] {
                    assert(t[i as int] == x);
                }
            }
        }
        i = i + 1;
    }
    proof {
        assert(iv.take(i as int) =~= iv);
    }
}

/// The signatures whose counts differ between two runs, ascending.
fn count_mismatch_list(a: &Vec<String>, b: &Vec<String>) -> (out: Vec<String>)
    ensures
        string_views(out@) == count_mismatches(string_views(a@), string_views(b@)),
{
    let ghost av = string_views(a@);
    let ghost bv = string_views(b@);
    let mut out: Vec<String> = Vec::new();
    add_count_mismatches(&mut out, a, a, b);
    add_count_mismatches(&mut out, b, a, b);
    proof {
        let p = count_differs(av, bv);
        assert forall|x: Seq<char>| #[trigger] string_views(out@).contains(x) <==> p(x) by {
            if p(x) && !av.contains(x) && !bv.contains(x) {
                lemma_count_absent(av, x);
                lemma_count_absent(bv, x);
            }
        }
        crate::text::lemma_is_sorted_set(string_views(out@), p);
    }
    out
}

/// Whether the source and translated signatures agree as multisets (the
/// multiset and required-set relations).
pub fn signature_counts_match(source: &Vec<String>, translated: &Vec<String>) -> (b: bool)
    ensures
        b == same_multiset(string_views(source@), string_views(translated@)),
{
    let m = count_mismatch_list(source, translated);
    proof {
        let av = string_views(source@);
        let bv = string_views(translated@);
        let p = count_differs(av, bv);
        let ms = count_mismatches(av, bv);
        assert forall|x: Seq<char>| #[trigger] p(x) implies (av + bv).contains(x) by {
            if !av.contains(x) && !bv.contains(x) {
                lemma_count_absent(av, x);
                lemma_count_absent(bv, x);
            }
            if av.contains(x) {
                let i = choose|i: int| 0 <= i < av.len() && av[i] == x;
                assert((av + bv)[i] == x);
            } else {
                let i = choose|i: int| 0 <= i < bv.len() && bv[i] == x;
                assert((av + bv)[av.len() + i] == x);
            }
        }
        lemma_sorted_set_of_subset(av + bv, p);
        if m.len() > 0 {
            assert(ms.contains(ms[0]));
            assert(p(ms[0]));
        }
        if !same_multiset(av, bv) {
            let x = choose|x: Seq<char>| count_in(av, x) != count_in(bv, x);
            assert(p(x));
            assert(ms.contains(x));
        }
    }
    m.len() == 0
}

/// The first signature, in ascending order, whose counts differ.
pub fn first_count_mismatch(source: &Vec<String>, translated: &Vec<String>) -> (r: Option<String>)
    ensures
        match r {
            None => count_mismatches(string_views(source@), string_views(translated@)).len() == 0,
            Some(x) => count_mismatches(string_views(source@), string_views(translated@)).len() > 0
                && x@ == count_mismatches(string_views(source@), string_views(translated@))[0],
        },
{
    let m = count_mismatch_list(source, translated);
    if m.len() == 0 {
        None
    } else {
        proof {
            assert(string_views(m@)[0] == m@[0]@);
        }
        Some(m[0].clone())
    }
}

// ── Final values per key ─────────────────────────────────────────────────

/// The value of the last of the first `n` observations with key `k`.
pub open spec fn final_value(obs: Seq<(String, String)>, k: Seq<char>, n: int) -> Option<Seq<char>>
    decreases n,
{
    if n <= 0 {
        None
    } else if obs[n - 1].0@ == k {
        Some(obs[n - 1].1@)
    } else {
        final_value(obs, k, n - 1)
    }
}

/// The final value of key `k` after every observation.
pub open spec fn final_of(obs: Seq<(String, String)>, k: Seq<char>) -> Option<Seq<char>> {
    final_value(obs, k, obs.len() as int)
}

/// Keys whose final values differ.
pub open spec fn final_differs(a: Seq<(String, String)>, b: Seq<(String, String)>) -> spec_fn(Seq<char>) -> bool {
    |k: Seq<char>| final_of(a, k) != final_of(b, k)
}

/// The keys whose final values differ, ascending, each once.
pub open spec fn key_mismatches(a: Seq<(String, String)>, b: Seq<(String, String)>) -> Seq<Seq<char>> {
    sorted_set(final_differs(a, b))
}

/// The keys of a list of observations.
pub open spec fn keys_of(obs: Seq<(String, String)>) -> Seq<Seq<char>> {
    obs.map_values(|o: (String, String)| o.0@)
}

proof fn lemma_final_absent(obs: Seq<(String, String)>, k: Seq<char>, n: int)
    requires
        0 <= n <= obs.len(),
        forall|i: int| 0 <= i < n ==> (#[trigger] obs[i]).0@ != k,
    ensures
        final_value(obs, k, n) is None,
    decreases n,
{
    if n > 0 {
        lemma_final_absent(obs, k, n - 1);
    }
}

fn final_exec(obs: &Vec<(String, String)>, k: &String) -> (r: Option<String>)
    ensures
        match r {
            None => final_of(obs@, k@) is None,
            Some(v) => final_of(obs@, k@) == Some(v@),
        },
{
    let mut n: usize = obs.len();
    while n > 0
        invariant
            n <= obs@.len(),
            final_of(obs@, k@) == final_value(obs@, k@, n as int),
        decreases n,
    {
        if obs[n - 1].0 == *k {
            return Some(obs[n - 1].1.clone());
        }
        n = n - 1;
    }
    None
}

fn same_final(a: &Vec<(String, String)>, b: &Vec<(String, String)>, k: &String) -> (r: bool)
    ensures
        r == !final_differs(a@, b@)(k@),
{
    let x = final_exec(a, k);
    let y = final_exec(b, k);
    match (x, y) {
        (Some(p), Some(q)) => p == q,
        (None, None) => true,
        _ => false,
    }
}

fn add_key_mismatches(
    out: &mut Vec<String>,
    items: &Vec<(String, String)>,
    a: &Vec<(String, String)>,
    b: &Vec<(String, String)>,
)
    requires
        strictly_sorted(string_views(old(out)@)),
    ensures
        strictly_sorted(string_views(final(out)@)),
        forall|x: Seq<char>| #[trigger] string_views(final(out)@).contains(x) <==> (string_views(
            old(out)@,
        ).contains(x) || (keys_of(items@).contains(x) && final_differs(a@, b@)(x))),
{
    let ghost kv = keys_of(items@);
    let ghost p = final_differs(a@, b@);
    let mut i: usize = 0;
    while i < items.len()
        invariant
            i <= items@.len(),
            kv == keys_of(items@),
            p == final_differs(a@, b@),
            strictly_sorted(string_views(out@)),
            forall|x: Seq<char>| #[trigger] string_views(out@).contains(x) <==> (string_views(
                old(out)@,
            ).contains(x) || (kv.take(i as int).contains(x) && p(x))),
        decreases items@.len() - i,
    {
        if !same_final(a, b, &items[i].0) {
            insert_sorted_unique(out, items[i].0.clone());
        }
        proof {
            let t = kv.take(i as int + 1);
            assert(t =~= kv.take(i as int).push(kv[i as int]));
            assert(kv[i as int] == items@[i as int].0@);
            assert forall|x: Seq<char>| #[trigger] string_views(out@).contains(x) <==> (string_views(
                old(out)@,
            ).contains(x) || (t.contains(x) && p(x))) by {
                if t.contains(x) {
                    let k = choose|k: int| 0 <= k < t.len() && t[k] == x;
                    if k < i {
                        assert(kv.take(i as int)[k] == x);
                    }
                }
                if kv.take(i as int).contains(x) {
                    let k = choose|k: int| 0 <= k < i && kv.take(i as int)[k] == x;
                    assert(t[k] == x);
                }
                if x == kv[i as int] {
                    assert(t[i as int] == x);
                }
            }
        }
        i = i + 1;
    }
    proof {
        assert(kv.take(i as int) =~= kv);
    }
}

proof fn lemma_final_differs_has_key(a: Seq<(String, String)>, b: Seq<(String, String)>, k: Seq<char>)
    requires
        final_differs(a, b)(k),
    ensures
        keys_of(a).contains(k) || keys_of(b).contains(k),
{
    if !keys_of(a).contains(k) {
        assert forall|i: int| 0 <= i < a.len() implies (#[trigger] a[i]).0@ != k by {
            assert(keys_of(a)[i] == a[i].0@);
        }
        lemma_final_absent(a, k, a.len() as int);
    }
    if !keys_of(b).contains(k) {
        assert forall|i: int| 0 <= i < b.len() implies (#[trigger] b[i]).0@ != k by {
            assert(keys_of(b)[i] == b[i].0@);
        }
        lemma_final_absent(b, k, b.len() as int);
    }
}

fn key_mismatch_list(a: &Vec<(String, String)>, b: &Vec<(String, String)>) -> (out: Vec<String>)
    ensures
        string_views(out@) == key_mismatches(a@, b@),
{
    let mut out: Vec<String> = Vec::new();
    add_key_mismatches(&mut out, a, a, b);
    add_key_mismatches(&mut out, b, a, b);
    proof {
        let p = final_differs(a@, b@);
        assert forall|x: Seq<char>| #[trigger] string_views(out@).contains(x) <==> p(x) by {
            if p(x) {
                lemma_final_differs_has_key(a@, b@, x);
            }
        }
        crate::text::lemma_is_sorted_set(string_views(out@), p);
    }
    out
}

/// Whether every state key ends with the same value in both runs (the
/// final-value relation); observations are `(key, value)` in run order.
pub fn final_values_match(source: &Vec<(String, String)>, translated: &Vec<(String, String)>) -> (b: bool)
    ensures
        b == forall|k: Seq<char>| #[trigger] final_of(source@, k) == final_of(translated@, k),
{
    let m = key_mismatch_list(source, translated);
    proof {
        let p = final_differs(source@, translated@);
        let ms = key_mismatches(source@, translated@);
        assert forall|x: Seq<char>| #[trigger] p(x) implies (keys_of(source@) + keys_of(translated@)).contains(x) by {
            lemma_final_differs_has_key(source@, translated@, x);
            if keys_of(source@).contains(x) {
                let i = choose|i: int| 0 <= i < keys_of(source@).len() && keys_of(source@)[i] == x;
                assert((keys_of(source@) + keys_of(translated@))[i] == x);
            } else {
                let i = choose|i: int| 0 <= i < keys_of(translated@).len() && keys_of(translated@)[i] == x;
                assert((keys_of(source@) + keys_of(translated@))[keys_of(source@).len() + i] == x);
            }
        }
        lemma_sorted_set_of_subset(keys_of(source@) + keys_of(translated@), p);
        if m.len() > 0 {
            assert(ms.contains(ms[0]));
            assert(p(ms[0]));
        }
        if !(forall|k: Seq<char>| #[trigger] final_of(source@, k) == final_of(translated@, k)) {
            let x = choose|k: Seq<char>| final_of(source@, k) != final_of(translated@, k);
            assert(p(x));
            assert(ms.contains(x));
        }
    }
    m.len() == 0
}

/// The first key, in ascending order, whose final values differ.
pub fn first_key_mismatch(source: &Vec<(String, String)>, translated: &Vec<(String, String)>) -> (r: Option<String>)
    ensures
        match r {
            None => key_mismatches(source@, translated@).len() == 0,
            Some(k) => key_mismatches(source@, translated@).len() > 0 && k@ == key_mismatches(
                source@,
                translated@,
            )[0],
        },
{
    let m = key_mismatch_list(source, translated);
    if m.len() == 0 {
        None
    } else {
        proof {
            assert(string_views(m@)[0] == m@[0]@);
        }
        Some(m[0].clone())
    }
}

// ── Witness identity ─────────────────────────────────────────────────────

/// The text a witness id hashes: the oracle version, the relation id, and
/// each side's signature (`source:none` / `translated:none` when absent).
pub open spec fn witness_input(relation_id: Seq<char>, source: Option<Seq<char>>, translated: Option<Seq<char>>) -> Seq<char> {
    METAMORPHIC_ORACLE_VERSION@ + relation_id + match source {
        Some(s) => s,
        None => "source:none"@,
    } + match translated {
        Some(t) => t,
        None => "translated:none"@,
    }
}

/// The id of a relation witness: `mr-witness:` and the hex SHA-256 of the
/// witness input.
pub fn witness_id(relation_id: &str, source_signature: Option<&str>, translated_signature: Option<&str>) -> (s: String)
    ensures
        s@ == "mr-witness:"@ + hex_of(
            sha256_spec(
                utf8_of(
                    witness_input(
                        relation_id@,
                        crate::import::context::opt_view(source_signature),
                        crate::import::context::opt_view(translated_signature),
                    ),
                ),
            ),
        ),
{
    let mut input = String::from_str(METAMORPHIC_ORACLE_VERSION);
    input.append(relation_id);
    match source_signature {
        Some(sig) => input.append(sig),
        None => input.append("source:none"),
    }
    match translated_signature {
        Some(sig) => input.append(sig),
        None => input.append("translated:none"),
    }
    let bytes = utf8_bytes(input.as_str());
    let hex = sha256_hex(bytes.as_slice());
    cat("mr-witness:", hex.as_str())
}

proof fn lemma_occurrences_multiset(s: Seq<Seq<char>>, x: Seq<char>, n: int)
    requires
        0 <= n <= s.len(),
    ensures
        occurrences(s, x, n) == s.take(n).to_multiset().count(x),
    decreases n,
{
    broadcast use vstd::seq_lib::group_to_multiset_ensures;
    broadcast use vstd::multiset::group_multiset_axioms;
    if n == 0 {
        assert(s.take(0) =~= Seq::<Seq<char>>::empty());
    } else {
        lemma_occurrences_multiset(s, x, n - 1);
        assert(s.take(n) =~= s.take(n - 1).push(s[n - 1]));
    }
}

/// Reordering observations never breaks a multiset relation: two signature
/// lists that are permutations of each other hold every signature equally
/// often.
pub proof fn law_permutation_preserves_multiset(a: Seq<Seq<char>>, b: Seq<Seq<char>>)
    requires
        a.to_multiset() == b.to_multiset(),
    ensures
        same_multiset(a, b),
{
    assert forall|x: Seq<char>| #[trigger] count_in(a, x) == count_in(b, x) by {
        lemma_occurrences_multiset(a, x, a.len() as int);
        lemma_occurrences_multiset(b, x, b.len() as int);
        assert(a.take(a.len() as int) =~= a);
        assert(b.take(b.len() as int) =~= b);
    }
}

} // verus!
