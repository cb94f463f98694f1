use uvl_macros::names::normalize_feature_name;

#[test]
fn normalize_replaces_spaces_and_hyphens() {
    assert_eq!(normalize_feature_name("Cruise Control"), "Cruise_Control");
    assert_eq!(normalize_feature_name("Park-Assist"), "Park_Assist");
    assert_eq!(normalize_feature_name("A b-c d"), "A_b_c_d");
}

#[test]
fn normalize_drops_quotes() {
    assert_eq!(normalize_feature_name("\"Electric\""), "Electric");
    assert_eq!(normalize_feature_name("\"Long Range\".Price"), "Long_Range.Price");
}

#[test]
fn normalize_keeps_other_characters() {
    assert_eq!(normalize_feature_name("Electric.Price"), "Electric.Price");
    assert_eq!(normalize_feature_name(""), "");
    assert_eq!(normalize_feature_name("Ünïcödé_1"), "Ünïcödé_1");
}

#[test]
fn normalize_is_idempotent_on_examples() {
    for s in ["Cruise Control", "\"A-B\" C", "x--y", "plain"] {
        let once = normalize_feature_name(s);
        let twice = normalize_feature_name(&once);
        assert_eq!(once, twice);
        assert!(!once.contains(' ') && !once.contains('-') && !once.contains('"'));
    }
}
