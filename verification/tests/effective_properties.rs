use ott_demo_api::effective::{
    deltas_fit, expansion_slugs, matched_via_for, resolve_effective, sorted_ids, source_label,
    CombinationProperties, CombinationSource, EffectiveParams, IntegerProperties, PropertyDelta,
};
use ott_demo_api::models::{EffectiveMatchProperties, MatchedExpansion};

fn base() -> IntegerProperties {
    IntegerProperties {
        min_players: Some(1),
        max_players: Some(4),
        min_playtime: Some(90),
        max_playtime: Some(120),
        min_age: Some(13),
    }
}

fn delta(players: i32, pmin: i32, pmax: i32, age: Option<i32>) -> PropertyDelta {
    PropertyDelta {
        max_players_delta: Some(players),
        playtime_min_delta: Some(pmin),
        playtime_max_delta: Some(pmax),
        min_age_delta: age,
    }
}

fn slugs(with: Option<&str>) -> Vec<String> {
    expansion_slugs(&EffectiveParams { with: with.map(|w| w.to_string()) })
}

#[test]
fn slug_list_is_split_trimmed_and_filtered() {
    assert_eq!(slugs(Some(" branch-and-claw, ,jagged-earth ,,")), vec!["branch-and-claw", "jagged-earth"]);
    assert_eq!(slugs(Some("prelude")), vec!["prelude"]);
    assert_eq!(slugs(Some("\t a b \u{3000}")), vec!["a b"]);
    assert!(slugs(Some(" , ")).is_empty());
    assert!(slugs(None).is_empty());
}

#[test]
fn nothing_requested_is_base_only() {
    let r = resolve_effective(&base(), &vec![], &None, &vec![delta(2, 0, 0, None)]);
    assert!(matches!(r.source, CombinationSource::BaseOnly));
    assert_eq!(r.effective.max_players, Some(4));
    assert_eq!(source_label(&r.source), "base_only");
}

#[test]
fn explicit_combination_wins_and_falls_back_to_base() {
    let combo = CombinationProperties {
        effective_min_players: None,
        effective_max_players: Some(6),
        effective_playtime_min: Some(100),
        effective_playtime_max: None,
        effective_min_age: None,
    };
    let r = resolve_effective(&base(), &vec!["x".to_string()], &Some(combo), &vec![delta(9, 9, 9, None)]);
    assert!(matches!(r.source, CombinationSource::Explicit));
    assert_eq!(source_label(&r.source), "explicit");
    assert_eq!(r.effective.min_players, Some(1));
    assert_eq!(r.effective.max_players, Some(6));
    assert_eq!(r.effective.min_playtime, Some(100));
    assert_eq!(r.effective.max_playtime, Some(120));
    assert_eq!(r.effective.min_age, Some(13));
}

#[test]
fn deltas_are_summed() {
    let ds = vec![delta(1, 10, 20, None), delta(1, -5, 15, Some(1))];
    let r = resolve_effective(&base(), &vec!["a".to_string(), "b".to_string()], &None, &ds);
    assert!(matches!(r.source, CombinationSource::Computed));
    assert_eq!(source_label(&r.source), "computed");
    assert_eq!(r.effective.min_players, Some(1));
    assert_eq!(r.effective.max_players, Some(6));
    assert_eq!(r.effective.min_playtime, Some(95));
    assert_eq!(r.effective.max_playtime, Some(155));
    assert_eq!(r.effective.min_age, Some(14));
}

#[test]
fn deltas_in_either_order() {
    let a = vec![delta(1, 10, 20, None), delta(2, 0, 0, Some(3))];
    let b = vec![delta(2, 0, 0, Some(3)), delta(1, 10, 20, None)];
    let slugs = vec!["a".to_string(), "b".to_string()];
    let ra = resolve_effective(&base(), &slugs, &None, &a);
    let rb = resolve_effective(&base(), &slugs, &None, &b);
    assert_eq!(ra.effective.max_players, rb.effective.max_players);
    assert_eq!(ra.effective.min_age, rb.effective.min_age);
}

#[test]
fn any_reordering_resolves_the_same() {
    let x = || delta(1, 10, 20, None);
    let y = || delta(2, 0, 0, Some(3));
    let z = || delta(-1, 5, 5, Some(1));
    let slugs = vec!["a".to_string(), "b".to_string(), "c".to_string()];
    let r1 = resolve_effective(&base(), &slugs, &None, &vec![x(), y(), z()]);
    let r2 = resolve_effective(&base(), &slugs, &None, &vec![z(), x(), y()]);
    assert!(matches!(r1.source, CombinationSource::Computed));
    assert!(matches!(r2.source, CombinationSource::Computed));
    assert_eq!(r1.effective.min_players, r2.effective.min_players);
    assert_eq!(r1.effective.max_players, r2.effective.max_players);
    assert_eq!(r1.effective.min_playtime, r2.effective.min_playtime);
    assert_eq!(r1.effective.max_playtime, r2.effective.max_playtime);
    assert_eq!(r1.effective.min_age, r2.effective.min_age);
    assert_eq!(r1.effective.max_players, Some(6));
    assert_eq!(r1.effective.min_playtime, Some(105));
    assert_eq!(r1.effective.max_playtime, Some(145));
    assert_eq!(r1.effective.min_age, Some(17));
    assert_eq!(sorted_ids(&vec![30, 10, 20]), sorted_ids(&vec![20, 30, 10]));
}

#[test]
fn no_data_for_requested_expansions_is_base_only() {
    let r = resolve_effective(&base(), &vec!["unknown".to_string()], &None, &vec![]);
    assert!(matches!(r.source, CombinationSource::BaseOnly));
    assert_eq!(r.effective.max_playtime, Some(120));
}

#[test]
fn delta_overflow_is_detected() {
    assert!(deltas_fit(&base(), &vec![delta(1, 1, 1, None)]));
    assert!(!deltas_fit(&base(), &vec![delta(i32::MAX, 0, 0, None)]));
    assert!(!deltas_fit(&base(), &vec![delta(0, i32::MAX, 0, None), delta(0, 1, 0, None)]));
    let no_base = IntegerProperties {
        min_players: None,
        max_players: None,
        min_playtime: None,
        max_playtime: None,
        min_age: None,
    };
    assert!(deltas_fit(&no_base, &vec![delta(i32::MAX, 0, 0, None)]));
}

#[test]
fn ids_are_sorted() {
    assert_eq!(sorted_ids(&vec![5, 1, 4, 1, 3]), vec![1, 1, 3, 4, 5]);
    assert!(sorted_ids(&vec![]).is_empty());
}

#[test]
fn matched_via_tiers() {
    assert!(matched_via_for(Some(1), Some(4), None, None).is_none());
    let m = matched_via_for(Some(1), Some(4), Some(3), None).unwrap();
    assert_eq!(m.match_type, "base");
    assert_eq!(m.resolution_tier, 3);
    let m = matched_via_for(None, None, Some(0), None).unwrap();
    assert_eq!(m.resolution_tier, 3);
    let m = matched_via_for(Some(1), Some(4), Some(6), None).unwrap();
    assert_eq!(m.match_type, "delta_sum");
    assert_eq!(m.resolution_tier, 2);
    assert!(m.expansions.is_none() && m.effective_properties.is_none());
    let props = EffectiveMatchProperties {
        min_players: Some(1),
        max_players: Some(6),
        weight: Some(3.25f64.to_bits()),
        min_playtime: None,
        max_playtime: None,
    };
    let exps = vec![MatchedExpansion { slug: "b-and-c".to_string(), name: "Branch & Claw".to_string() }];
    let m = matched_via_for(Some(1), Some(4), Some(6), Some((props, exps))).unwrap();
    assert_eq!(m.match_type, "expansion_combination");
    assert_eq!(m.resolution_tier, 1);
    assert_eq!(m.expansions.unwrap()[0].slug, "b-and-c");
    assert_eq!(m.effective_properties.unwrap().max_players, Some(6));
}
