use doctor_frankentui::metamorphic_oracle::{
    final_values_match, first_count_mismatch, first_key_mismatch, metamorphic_relation_catalog,
    signature_counts_match, witness_id, MetamorphicFeatureFamily, MetamorphicOracleConfig,
    MetamorphicPolicyProfile, MetamorphicRelationKind, METAMORPHIC_ORACLE_VERSION,
    METAMORPHIC_RELATION_CATALOG_VERSION,
};
use doctor_frankentui::text::sha256_hex;

#[test]
fn catalog_is_versioned_by_feature_family() {
    let catalog = metamorphic_relation_catalog();
    assert_eq!(catalog.len(), 4);
    assert!(catalog.iter().all(|relation| {
        relation
            .catalog_version
            .as_str()
            .cmp(METAMORPHIC_RELATION_CATALOG_VERSION)
            .is_eq()
            && relation
                .family_catalog_version
                .starts_with(METAMORPHIC_RELATION_CATALOG_VERSION)
            && !relation.relation_id.is_empty()
            && relation
                .policy_profiles
                .contains(&MetamorphicPolicyProfile::ScheduleTolerant)
    }));
}

#[test]
fn catalog_entries_cover_each_family_once() {
    let catalog = metamorphic_relation_catalog();
    let families: Vec<MetamorphicFeatureFamily> = catalog.iter().map(|r| r.feature_family).collect();
    assert_eq!(
        families,
        vec![
            MetamorphicFeatureFamily::EventOrdering,
            MetamorphicFeatureFamily::StateTransition,
            MetamorphicFeatureFamily::SideEffect,
            MetamorphicFeatureFamily::ImprovementEnvelope,
        ]
    );
    assert_eq!(catalog[0].relation_id, "mr:event_ordering:multiset-equivalence");
    assert_eq!(catalog[1].relation_kind, MetamorphicRelationKind::FinalValueEquivalence);
    assert_eq!(
        catalog[2].family_catalog_version,
        "metamorphic-relation-catalog-v1:side-effect"
    );
    assert_eq!(
        MetamorphicFeatureFamily::ImprovementEnvelope.catalog_version(),
        "metamorphic-relation-catalog-v1:improvement-envelope"
    );
}

#[test]
fn strict_profile_enables_no_relation() {
    let strict = MetamorphicOracleConfig::strict();
    assert_eq!(strict.profile, MetamorphicPolicyProfile::Strict);
    assert!(strict.enabled_relation_ids.is_empty());
    assert_eq!(strict, MetamorphicOracleConfig::default());
    assert_eq!(strict, MetamorphicOracleConfig::for_profile(MetamorphicPolicyProfile::Strict));
    assert!(!strict.relation_enabled("mr:event_ordering:multiset-equivalence"));
}

#[test]
fn metamorphic_profiles_enable_the_whole_catalog_in_order() {
    let ids: Vec<String> = metamorphic_relation_catalog()
        .into_iter()
        .map(|r| r.relation_id)
        .collect();
    for config in [
        MetamorphicOracleConfig::schedule_tolerant(),
        MetamorphicOracleConfig::nondeterministic_equivalence(),
    ] {
        assert_eq!(config.enabled_relation_ids, ids);
        assert_eq!(config.catalog_version, METAMORPHIC_RELATION_CATALOG_VERSION);
        assert!(config.relation_enabled("mr:side_effect:required-set-equivalence"));
        assert!(!config.relation_enabled("mr:unknown"));
    }
    assert_eq!(
        MetamorphicOracleConfig::schedule_tolerant().profile,
        MetamorphicPolicyProfile::ScheduleTolerant
    );
}

fn sigs(items: &[&str]) -> Vec<String> {
    items.iter().map(|s| s.to_string()).collect()
}

fn obs(items: &[(&str, &str)]) -> Vec<(String, String)> {
    items.iter().map(|(k, v)| (k.to_string(), v.to_string())).collect()
}

#[test]
fn reordered_equivalent_events_keep_the_multiset() {
    assert!(signature_counts_match(&sigs(&["a", "b", "c"]), &sigs(&["c", "a", "b"])));
    assert_eq!(first_count_mismatch(&sigs(&["a", "b", "c"]), &sigs(&["c", "a", "b"])), None);
}

#[test]
fn a_changed_event_is_the_first_count_mismatch() {
    assert!(!signature_counts_match(&sigs(&["a", "b"]), &sigs(&["a", "x"])));
    assert_eq!(first_count_mismatch(&sigs(&["a", "b"]), &sigs(&["a", "x"])), Some("b".to_string()));
    assert_eq!(
        first_count_mismatch(&sigs(&["z", "a", "a"]), &sigs(&["a", "z"])),
        Some("a".to_string())
    );
}

#[test]
fn a_missing_side_effect_is_detected() {
    assert!(!signature_counts_match(&sigs(&["network.fetch"]), &Vec::new()));
    assert_eq!(
        first_count_mismatch(&sigs(&["network.fetch"]), &Vec::new()),
        Some("network.fetch".to_string())
    );
}

#[test]
fn final_values_tolerate_intermediate_variation() {
    let source = obs(&[("counter", "loading"), ("counter", "ready")]);
    let translated = obs(&[("counter", "ready")]);
    assert!(final_values_match(&source, &translated));
    assert_eq!(first_key_mismatch(&source, &translated), None);
    let diverged = obs(&[("counter", "loading"), ("b", "1")]);
    assert!(!final_values_match(&source, &diverged));
    assert_eq!(first_key_mismatch(&source, &diverged), Some("b".to_string()));
}

#[test]
fn witness_ids_hash_the_relation_and_signatures() {
    let id = witness_id("mr:x", Some("sig"), None);
    let expected = format!(
        "mr-witness:{}",
        sha256_hex(format!("{METAMORPHIC_ORACLE_VERSION}mr:xsigtranslated:none").as_bytes())
    );
    assert_eq!(id, expected);
    assert!(id.starts_with("mr-witness:"));
    assert_ne!(witness_id("mr:x", Some("a"), Some("b")), witness_id("mr:x", Some("b"), Some("a")));
}
