use uvl_macros::evaluation::{select_number, ConditionValue, SelectorInput};
use uvl_macros::features::ConfigError;
use uvl_macros::features::FeatureValue;
use uvl_macros::macros::{
    condition_truth, decide_condition, feat, feat_if, prepare_condition, required_features, try_feat, try_feat_if,
    Expansion, MacroError,
};

const CAR: &str = r#"{
    "config": {
        "BasePrice": 30000.5,
        "Battery": true,
        "Cruise Control": true,
        "Electric": true,
        "Electric.PS": 1200,
        "Gasoline": false,
        "Manufacturer": "CrazyCompany",
        "ModelName": "",
        "UltrasonicSensor": [
            {"UltrasonicSensor": true},
            {"UltrasonicSensor": false},
            {"UltrasonicSensor": true}
        ]
    }
}"#;

fn car() -> &'static str {
    CAR
}

#[test]
fn boolean_features() {
    let doc = car();
    assert_eq!(try_feat("Electric", doc), Ok(true));
    assert_eq!(try_feat("Gasoline", doc), Ok(false));
    assert_eq!(try_feat("Electric && !Gasoline", doc), Ok(true));
    assert_eq!(try_feat("Battery && Gasoline && !Electric", doc), Ok(false));
    assert_eq!(try_feat("Cruise_Control", doc), Ok(true));
}

#[test]
fn undefined_features_are_false() {
    let doc = car();
    assert_eq!(try_feat("Autopilot", doc), Ok(false));
    assert_eq!(try_feat("!Autopilot", doc), Ok(true));
    assert_eq!(try_feat("Autopilot && Electric", doc), Ok(false));
    assert_eq!(try_feat("Autopilot || Electric", doc), Ok(true));
}

#[test]
fn numeric_and_string_features() {
    let doc = car();
    assert_eq!(try_feat("UltrasonicSensor > 0", doc), Ok(true));
    assert_eq!(try_feat("UltrasonicSensor == 2", doc), Ok(true));
    assert_eq!(try_feat("Electric.PS > 1000", doc), Ok(true));
    assert_eq!(try_feat("Manufacturer == \"CrazyCompany\" && Electric && Electric.PS > 1000", doc), Ok(true));
    assert_eq!(try_feat("BasePrice < 30000", doc), Ok(false));
}

#[test]
fn sel_maps_features_to_numbers() {
    let doc = car();
    assert_eq!(try_feat("sel(Cruise_Control) + sel(Autopilot) + sel(ParkAssist) <= 2", doc), Ok(true));
    assert_eq!(try_feat("sel(Cruise_Control) + sel(Electric) == 2", doc), Ok(true));
    assert_eq!(try_feat("sel(Gasoline) == 0", doc), Ok(true));
    assert_eq!(try_feat("sel(Manufacturer) == 1", doc), Ok(true));
    assert_eq!(try_feat("sel(ModelName) == 0", doc), Ok(true));
    assert_eq!(try_feat("sel(BasePrice) == 30001", doc), Ok(true));
    assert_eq!(try_feat("sel(UltrasonicSensor) == 2", doc), Ok(true));
}

#[test]
fn sel_refuses_other_arguments() {
    match try_feat("sel((1, 2)) == 1", car()) {
        Err(MacroError::EvaluationFailed(msg)) => assert!(msg.contains("TYPE ERROR")),
        other => panic!("unexpected {:?}", other),
    }
}

#[test]
fn numbers_count_as_truth() {
    let doc = car();
    assert_eq!(try_feat("UltrasonicSensor", doc), Ok(true));
    assert_eq!(try_feat("UltrasonicSensor - 2", doc), Ok(false));
    assert_eq!(try_feat("BasePrice", doc), Ok(true));
    assert_eq!(try_feat("BasePrice - 30000.5", doc), Ok(false));
}

#[test]
fn string_condition_is_refused() {
    assert_eq!(try_feat("Manufacturer", car()), Err(MacroError::UnsupportedConditionType));
}

#[test]
fn unparsable_condition_fails_evaluation() {
    assert!(matches!(try_feat("Electric &&", car()), Err(MacroError::EvaluationFailed(_))));
    assert!(matches!(try_feat_if("(Electric", true, car()), Err(MacroError::EvaluationFailed(_))));
}

#[test]
fn configuration_errors_come_first() {
    assert_eq!(try_feat("Electric", "null"), Err(MacroError::Config(ConfigError::MissingConfigSection)));
    let doc = r#"{"config": {"Electric": null}}"#;
    assert_eq!(
        try_feat_if("Electric", false, doc),
        Err(MacroError::Config(ConfigError::UnsupportedFeatureType("Electric".to_string())))
    );
}

#[test]
fn feat_if_chooses_the_block() {
    let doc = car();
    assert_eq!(try_feat_if("Electric", false, doc), Ok(Expansion::Then));
    assert_eq!(try_feat_if("Electric", true, doc), Ok(Expansion::Then));
    assert_eq!(try_feat_if("Gasoline", true, doc), Ok(Expansion::Else));
    assert_eq!(try_feat_if("Gasoline", false, doc), Ok(Expansion::Empty));
}

#[test]
fn feat_agrees_with_feat_if_without_else() {
    let doc = car();
    for cond in ["Electric", "Gasoline", "Autopilot", "UltrasonicSensor > 2", "sel(Electric) == 1"] {
        let kept = try_feat(cond, doc).unwrap();
        assert_eq!(kept, try_feat_if(cond, false, doc).unwrap() == Expansion::Then);
    }
}

#[test]
fn required_features_are_each_identifier_once() {
    let mut r = required_features("a + a * sel(b) > c && a");
    r.sort();
    assert_eq!(r, vec!["a".to_string(), "b".to_string(), "c".to_string(), "sel".to_string()]);
    assert!(required_features("(((").is_empty());
    assert!(required_features("1 + 2").is_empty());
}

#[test]
fn select_number_follows_the_conversion_rules() {
    assert_eq!(select_number(&SelectorInput::Boolean(true)), Some(1));
    assert_eq!(select_number(&SelectorInput::Boolean(false)), Some(0));
    assert_eq!(select_number(&SelectorInput::Int(-7)), Some(-7));
    assert_eq!(select_number(&SelectorInput::Real(2.5f64.to_bits())), Some(3));
    assert_eq!(select_number(&SelectorInput::Real((-2.5f64).to_bits())), Some(-3));
    assert_eq!(select_number(&SelectorInput::Real(2.4f64.to_bits())), Some(2));
    assert_eq!(select_number(&SelectorInput::Text("x".to_string())), Some(1));
    assert_eq!(select_number(&SelectorInput::Text(String::new())), Some(0));
    assert_eq!(select_number(&SelectorInput::Other), None);
}

#[test]
fn condition_truth_of_each_value() {
    assert_eq!(condition_truth(&ConditionValue::Boolean(true)), Some(true));
    assert_eq!(condition_truth(&ConditionValue::Boolean(false)), Some(false));
    assert_eq!(condition_truth(&ConditionValue::Int(0)), Some(false));
    assert_eq!(condition_truth(&ConditionValue::Int(-3)), Some(true));
    assert_eq!(condition_truth(&ConditionValue::Real(0.0f64.to_bits())), Some(false));
    assert_eq!(condition_truth(&ConditionValue::Real((-0.0f64).to_bits())), Some(false));
    assert_eq!(condition_truth(&ConditionValue::Real(0.1f64.to_bits())), Some(true));
    assert_eq!(condition_truth(&ConditionValue::Real(f64::NAN.to_bits())), Some(true));
    assert_eq!(condition_truth(&ConditionValue::Other), None);
}

#[test]
fn shifts_are_evaluated() {
    let doc = car();
    assert_eq!(try_feat("shl(1, 0) == 1", doc), Ok(true));
    assert_eq!(try_feat("shl(1, 3) == 8", doc), Ok(true));
    assert_eq!(try_feat("shr(Electric.PS, 2) == 300", doc), Ok(true));
    assert_eq!(try_feat("shr(0 - 8, 1) == 0 - 4", doc), Ok(true));
    assert_eq!(try_feat_if("shl(UltrasonicSensor, 1) == 4", false, doc), Ok(Expansion::Then));
}

#[test]
fn shift_amounts_out_of_range_fail_evaluation() {
    let doc = car();
    assert!(matches!(try_feat("shl(1, 64) > 0", doc), Err(MacroError::EvaluationFailed(_))));
    assert!(matches!(try_feat("shr(1, 0 - 1) > 0", doc), Err(MacroError::EvaluationFailed(_))));
    assert!(matches!(try_feat("shl(1.5, 1) > 0", doc), Err(MacroError::EvaluationFailed(_))));
}

#[test]
fn absolute_values_are_evaluated() {
    let doc = car();
    assert_eq!(try_feat("math::abs(0 - 3) == 3", doc), Ok(true));
    assert_eq!(try_feat("math::abs(0 - 2.5) == 2.5", doc), Ok(true));
    assert_eq!(try_feat("math::abs(Electric.PS) == 1200", doc), Ok(true));
    assert!(matches!(
        try_feat("math::abs(0 - 9223372036854775807 - 1) > 0", doc),
        Err(MacroError::EvaluationFailed(_))
    ));
    assert!(matches!(try_feat("math::abs(Manufacturer) > 0", doc), Err(MacroError::EvaluationFailed(_))));
}

#[test]
fn substrings_are_evaluated() {
    let doc = car();
    assert_eq!(try_feat_if("str::substring(Manufacturer, 0, 5) == \"Crazy\"", true, doc), Ok(Expansion::Then));
    assert_eq!(try_feat("str::substring(Manufacturer, 5) == \"Company\"", doc), Ok(true));
    assert_eq!(try_feat("str::substring(Manufacturer, 12, 12) == \"\"", doc), Ok(true));
    assert!(matches!(try_feat("str::substring(Manufacturer, 3, 2) == \"\"", doc), Err(MacroError::EvaluationFailed(_))));
    assert!(matches!(try_feat("str::substring(Manufacturer, 0, 13) == \"\"", doc), Err(MacroError::EvaluationFailed(_))));
    assert!(matches!(try_feat("str::substring(Manufacturer, 0 - 1) == \"\"", doc), Err(MacroError::EvaluationFailed(_))));
}

#[test]
fn substring_inside_a_character_fails_evaluation() {
    let doc = r#"{"config": {"Name": "\u00e9t\u00e9"}}"#;
    assert_eq!(try_feat("str::substring(Name, 0, 2) == \"\u{e9}\"", doc), Ok(true));
    assert!(matches!(try_feat("str::substring(Name, 0, 1) == \"\"", doc), Err(MacroError::EvaluationFailed(_))));
    assert!(matches!(try_feat("str::substring(Name, 1) == \"\"", doc), Err(MacroError::EvaluationFailed(_))));
}

#[test]
fn load_failures_come_before_evaluation() {
    assert_eq!(try_feat("shl(1, 2) > 0", "null"), Err(MacroError::Config(ConfigError::MissingConfigSection)));
}

#[test]
fn conditions_under_a_configuration_that_loads() {
    let doc = car();
    assert_eq!(feat("Electric && shl(1, 0) == 1", doc), Ok(true));
    assert_eq!(feat("Autopilot", doc), Ok(false));
    assert_eq!(feat_if("Gasoline", true, doc), Ok(Expansion::Else));
    assert_eq!(feat_if("Gasoline", false, doc), Ok(Expansion::Empty));
    assert_eq!(feat("Manufacturer", doc), Err(MacroError::UnsupportedConditionType));
    let cardinality = r#"{"config": {"UltrasonicSensor": [{"a": false}]}}"#;
    assert_eq!(feat_if("UltrasonicSensor", true, cardinality), Ok(Expansion::Else));
}

#[test]
fn other_builtins_are_evaluated() {
    let doc = car();
    assert_eq!(try_feat("math::sqrt(16.0) == 4.0", doc), Ok(true));
    assert_eq!(try_feat("min(UltrasonicSensor, 1) == 1", doc), Ok(true));
    assert_eq!(try_feat("len(Manufacturer) == 12", doc), Ok(true));
}

#[test]
fn prepare_condition_completes_the_named_features() {
    let ctx = prepare_condition("Electric && !Autopilot && sel(Gasoline) == 0", car());
    assert_eq!(ctx.get_value("Electric"), Some(FeatureValue::Bool(true)));
    assert_eq!(ctx.get_value("Gasoline"), Some(FeatureValue::Bool(false)));
    assert_eq!(ctx.get_value("Autopilot"), Some(FeatureValue::Bool(false)));
    assert_eq!(ctx.get_value("sel"), Some(FeatureValue::Bool(false)));
    assert_eq!(ctx.get_value("Manufacturer"), None);
}

#[test]
fn decide_condition_of_each_outcome() {
    assert_eq!(decide_condition(&Ok(ConditionValue::Boolean(true))), Ok(true));
    assert_eq!(decide_condition(&Ok(ConditionValue::Int(0))), Ok(false));
    assert_eq!(decide_condition(&Ok(ConditionValue::Real(1.5f64.to_bits()))), Ok(true));
    assert_eq!(decide_condition(&Ok(ConditionValue::Other)), Err(MacroError::UnsupportedConditionType));
    assert_eq!(
        decide_condition(&Err("boom".to_string())),
        Err(MacroError::EvaluationFailed("boom".to_string()))
    );
}
