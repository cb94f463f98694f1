//! The decisions that the variability macros make: which block a
//! conditional inserts, whether an item stays, and which value a feature
//! has.
use vstd::prelude::*;
use crate::json::{JsonValue, json_parse};
use crate::names::{normalized, normalize_feature_name};
use crate::features::{
    FeatureValue, FeatureModel, ConfigError, LoadOutcome, loaded_config, load_config,
    try_load_config, name_set, config_entries, feature_of, lemma_load_single_listed,
    lemma_load_without_required,
};
use crate::evaluation::{
    FeatureContext, ConditionValue, context_variables, context_functions, library_functions,
    evaluation_outcome, outcome_view, expression_identifiers, required_identifiers,
    identifiers_of, evaluate, get_variable, set_variable,
};

verus! {

/// Why a macro cannot expand.
#[derive(Clone, Debug, PartialEq)]
pub enum MacroError {
    /// The configuration cannot be loaded.
    Config(ConfigError),
    /// `evalexpr` cannot evaluate the condition (it carries the message).
    EvaluationFailed(String),
    /// The condition evaluates to a string, a tuple or the empty value.
    UnsupportedConditionType,
    /// The configuration does not define the feature (it carries the
    /// normalized name).
    FeatureNotFound(String),
}

/// A failure of a macro, as contracts speak of it.
pub enum Failure {
    InvalidJson(Seq<char>),
    NoConfigSection,
    Unsupported(Seq<char>),
    Conflict(Seq<char>, FeatureModel, FeatureModel, bool),
    Evaluation(Seq<char>),
    ConditionType,
    NotFound(Seq<char>),
}

/// The failure that an error stands for.
pub open spec fn failure_of(e: MacroError) -> Failure {
    match e {
        MacroError::Config(ConfigError::InvalidJson(m)) => Failure::InvalidJson(m@),
        MacroError::Config(ConfigError::MissingConfigSection) => Failure::NoConfigSection,
        MacroError::Config(ConfigError::UnsupportedFeatureType(k)) => Failure::Unsupported(k@),
        MacroError::Config(ConfigError::ConflictingFeatureType { name, held, given, cardinality }) =>
            Failure::Conflict(name@, held@, given@, cardinality),
        MacroError::EvaluationFailed(m) => Failure::Evaluation(m@),
        MacroError::UnsupportedConditionType => Failure::ConditionType,
        MacroError::FeatureNotFound(k) => Failure::NotFound(k@),
    }
}

/// The block that a conditional macro inserts.
#[derive(Clone, Copy, Debug, PartialEq, Eq)]
pub enum Expansion {
    /// The block written for the condition.
    Then,
    /// The `else` block.
    Else,
    /// Nothing: the condition fails and there is no `else` block.
    Empty,
}

/// The block inserted for a decided condition.
pub open spec fn expansion_for(holds: bool, has_else: bool) -> Expansion {
    if holds {
        Expansion::Then
    } else if has_else {
        Expansion::Else
    } else {
        Expansion::Empty
    }
}

/// The assignment `m` where every normalized name of `required` that `m`
/// leaves undefined is `false`.
pub open spec fn completed(m: Map<Seq<char>, FeatureModel>, required: Set<Seq<char>>) -> Map<Seq<char>, FeatureModel> {
    Map::new(
        |k: Seq<char>| m.contains_key(k) || exists|r: Seq<char>| required.contains(r) && normalized(r) == k,
        |k: Seq<char>| if m.contains_key(k) { m[k] } else { FeatureModel::Bool(false) },
    )
}

/// Whether a condition value counts as true: a boolean is itself, a number
/// is true when it is not zero (a real is zero when its bits, but for the
/// sign, are all 0). Other values have no truth.
pub open spec fn truth(v: ConditionValue) -> Option<bool> {
    match v {
        ConditionValue::Boolean(b) => Some(b),
        ConditionValue::Int(i) => Some(i != 0),
        ConditionValue::Real(bits) => Some(bits & 0x7fff_ffff_ffff_ffffu64 != 0),
        ConditionValue::Other => None,
    }
}

/// The failure that a failed load stands for.
pub open spec fn load_failure(o: LoadOutcome) -> Failure {
    match o {
        LoadOutcome::Unsupported(k) => Failure::Unsupported(k),
        LoadOutcome::Conflict(k, held, given, card) => Failure::Conflict(k, held, given, card),
        LoadOutcome::InvalidJson(m) => Failure::InvalidJson(m),
        _ => Failure::NoConfigSection,
    }
}

/// The decision made from what the evaluator gave: an error is an
/// evaluation failure, a value decides by its truth, and a value without
/// truth is refused.
pub open spec fn condition_result(o: Result<ConditionValue, String>) -> Result<bool, MacroError> {
    match o {
        Err(msg) => Err(MacroError::EvaluationFailed(msg)),
        Ok(v) => match truth(v) {
            Some(b) => Ok(b),
            None => Err(MacroError::UnsupportedConditionType),
        },
    }
}

/// What deciding a presence condition can give where the configuration
/// loads the features it names (`m`): the decision made from an outcome of
/// evaluating the condition with those features, the named ones that the
/// configuration leaves undefined set to `false`, and the functions of this
/// library in place of the builtins of the same name. No condition is
/// refused for the functions it names.
pub open spec fn evaluated_decision(cond: Seq<char>, m: Map<Seq<char>, FeatureModel>, r: Result<bool, MacroError>) -> bool {
    exists|o: Result<ConditionValue, String>|
        evaluation_outcome(cond, completed(m, required_identifiers(cond)), library_functions(), outcome_view(o))
        && r == #[trigger] condition_result(o)
}

/// What deciding a presence condition under a configuration text can give:
/// the features that the condition names are loaded (its load failures come
/// first), and then the condition is evaluated (`evaluated_decision`).
pub open spec fn condition_decided(cond: Seq<char>, text: Seq<char>, r: Result<bool, MacroError>) -> bool {
    match loaded_config(text, required_identifiers(cond)) {
        LoadOutcome::Loaded(m) => evaluated_decision(cond, m, r),
        other => r is Err && failure_of(r->Err_0) == load_failure(other),
    }
}

/// The block chosen by a decided condition; errors pass through.
pub open spec fn expansion_result(r: Result<bool, MacroError>, has_else: bool) -> Result<Expansion, MacroError> {
    match r {
        Ok(b) => Ok(expansion_for(b, has_else)),
        Err(e) => Err(e),
    }
}

/// Whether a configuration defines a feature: the feature alone is loaded,
/// under its normalized name.
pub open spec fn definition_verdict(name: Seq<char>, text: Seq<char>) -> Result<bool, Failure> {
    let key = normalized(name);
    match loaded_config(text, set![key]) {
        LoadOutcome::Loaded(m) => Ok(m.contains_key(key)),
        other => Err(load_failure(other)),
    }
}

/// The value that a configuration gives a feature.
pub open spec fn value_verdict(name: Seq<char>, text: Seq<char>) -> Result<FeatureModel, Failure> {
    let key = normalized(name);
    match loaded_config(text, set![key]) {
        LoadOutcome::Loaded(m) => if m.contains_key(key) {
            Ok(m[key])
        } else {
            Err(Failure::NotFound(key))
        },
        other => Err(load_failure(other)),
    }
}

/// A real condition value is false exactly when it is +0.0 or -0.0, and
/// its sign never changes its truth.
pub proof fn lemma_real_truth_ignores_sign(bits: u64)
    ensures
        truth(ConditionValue::Real(bits)) == Some(bits != 0u64 && bits != 0x8000_0000_0000_0000u64),
        truth(ConditionValue::Real(bits)) == truth(ConditionValue::Real(bits ^ 0x8000_0000_0000_0000u64)),
{
    assert((bits & 0x7fff_ffff_ffff_ffffu64 != 0) == (bits != 0u64 && bits != 0x8000_0000_0000_0000u64))
        by (bit_vector);
    assert((bits ^ 0x8000_0000_0000_0000u64) & 0x7fff_ffff_ffff_ffffu64 == bits & 0x7fff_ffff_ffff_ffffu64)
        by (bit_vector);
}

/// An integer condition value is false exactly when it is 0, and its sign
/// never changes its truth.
pub proof fn lemma_integer_truth_ignores_sign(i: i64)
    ensures
        truth(ConditionValue::Int(i)) == Some(i != 0),
        i != i64::MIN ==> truth(ConditionValue::Int(i)) == truth(ConditionValue::Int((-i) as i64)),
{
}

/// A boolean condition value is its own truth; strings, tuples and the
/// empty value have none.
pub proof fn lemma_boolean_truth(b: bool)
    ensures
        truth(ConditionValue::Boolean(b)) == Some(b),
        truth(ConditionValue::Other) is None,
{
}

/// The decision for an evaluated value is its truth, and a value without
/// truth is refused; an error of the evaluator is passed on.
pub proof fn lemma_value_decides_by_truth(v: ConditionValue, msg: String)
    ensures
        truth(v) is Some ==> condition_result(Ok(v)) == Ok::<bool, MacroError>(truth(v)->Some_0),
        truth(v) is None ==> condition_result(Ok(v)) == Err::<bool, MacroError>(MacroError::UnsupportedConditionType),
        condition_result(Err(msg)) == Err::<bool, MacroError>(MacroError::EvaluationFailed(msg)),
{
}

/// Numbers decide a condition by being nonzero, whatever their sign: an
/// integer and its negation, and a real and its negation, decide alike.
pub proof fn lemma_number_decisions_ignore_sign(i: i64, bits: u64)
    ensures
        condition_result(Ok(ConditionValue::Int(i))) == Ok::<bool, MacroError>(i != 0),
        i != i64::MIN ==> condition_result(Ok(ConditionValue::Int(i)))
            == condition_result(Ok(ConditionValue::Int((-i) as i64))),
        condition_result(Ok(ConditionValue::Real(bits)))
            == Ok::<bool, MacroError>(bits != 0u64 && bits != 0x8000_0000_0000_0000u64),
        condition_result(Ok(ConditionValue::Real(bits)))
            == condition_result(Ok(ConditionValue::Real(bits ^ 0x8000_0000_0000_0000u64))),
{
    lemma_real_truth_ignores_sign(bits);
    lemma_integer_truth_ignores_sign(i);
}

/// A condition that holds inserts its block; one that fails inserts the
/// `else` block where there is one and nothing where there is none.
pub proof fn lemma_expansion_choice(holds: bool, has_else: bool)
    ensures
        (expansion_for(holds, has_else) == Expansion::Then) == holds,
        (expansion_for(holds, has_else) == Expansion::Else) == (!holds && has_else),
        (expansion_for(holds, has_else) == Expansion::Empty) == (!holds && !has_else),
{
}

/// Features that a condition names and the configuration leaves undefined
/// are `false`; the features that the configuration defines keep their
/// values, and no other name is defined.
pub proof fn lemma_undefined_features_are_false(m: Map<Seq<char>, FeatureModel>, required: Set<Seq<char>>)
    ensures
        forall|r: Seq<char>| #[trigger] required.contains(r) ==> completed(m, required).contains_key(normalized(r)),
        forall|k: Seq<char>| #[trigger] m.contains_key(k) ==> completed(m, required).contains_key(k)
            && completed(m, required)[k] == m[k],
        forall|k: Seq<char>| #[trigger] completed(m, required).contains_key(k) && !m.contains_key(k)
            ==> completed(m, required)[k] == FeatureModel::Bool(false)
                && exists|r: Seq<char>| required.contains(r) && normalized(r) == k,
{
}

/// `feat_ifdef!` takes its first block exactly where `feat_value!` finds a
/// value, and both fail alike when the configuration cannot be loaded.
pub proof fn lemma_definition_matches_value(name: Seq<char>, text: Seq<char>)
    ensures
        (definition_verdict(name, text) == Ok::<bool, Failure>(true)) == value_verdict(name, text) is Ok,
        (definition_verdict(name, text) == Ok::<bool, Failure>(false))
            == (value_verdict(name, text) == Err::<FeatureModel, Failure>(Failure::NotFound(normalized(name)))),
        definition_verdict(name, text) is Err ==> value_verdict(name, text) is Err
            && definition_verdict(name, text)->Err_0 == value_verdict(name, text)->Err_0,
{
}

/// Once the configuration loads the features that a condition names, the
/// condition is evaluated whatever functions it names: a decision fails
/// only where `evalexpr` fails or gives a value without truth.
pub proof fn lemma_loaded_conditions_are_evaluated(cond: Seq<char>, text: Seq<char>, r: Result<bool, MacroError>)
    requires
        loaded_config(text, required_identifiers(cond)) is Loaded,
        condition_decided(cond, text, r),
    ensures
        r is Err ==> r->Err_0 is EvaluationFailed || r->Err_0 is UnsupportedConditionType,
{
    let o = choose|o: Result<ConditionValue, String>|
        evaluation_outcome(cond, completed(loaded_config(text, required_identifiers(cond))->Loaded_0,
            required_identifiers(cond)), library_functions(), outcome_view(o))
        && r == #[trigger] condition_result(o);
}

/// The entries of the `config` object of a configuration text that parses.
pub open spec fn text_entries(text: Seq<char>) -> Option<Seq<(Seq<char>, JsonValue)>> {
    match json_parse(text) {
        Ok(doc) => config_entries(doc),
        Err(_) => None,
    }
}

/// A feature that exactly one entry of the configuration names, with a
/// value of a feature kind, is defined, and `feat_value!` gives the value of
/// that entry.
pub proof fn lemma_listed_feature_value(name: Seq<char>, text: Seq<char>, a: int)
    requires
        text_entries(text) is Some,
        0 <= a < text_entries(text)->Some_0.len(),
        normalized(text_entries(text)->Some_0[a].0) == normalized(name),
        forall|b: int| 0 <= b < text_entries(text)->Some_0.len() && b != a
            ==> normalized(#[trigger] text_entries(text)->Some_0[b].0) != normalized(name),
        feature_of(text_entries(text)->Some_0[a].1) is Some,
    ensures
        definition_verdict(name, text) == Ok::<bool, Failure>(true),
        value_verdict(name, text) == Ok::<FeatureModel, Failure>(feature_of(text_entries(text)->Some_0[a].1)->Some_0),
{
    lemma_load_single_listed(text_entries(text)->Some_0, normalized(name), a);
}

/// A feature that no entry of the configuration names is undefined, and
/// `feat_value!` does not find it.
pub proof fn lemma_unlisted_feature(name: Seq<char>, text: Seq<char>)
    requires
        text_entries(text) is Some,
        forall|a: int| 0 <= a < text_entries(text)->Some_0.len()
            ==> normalized(#[trigger] text_entries(text)->Some_0[a].0) != normalized(name),
    ensures
        definition_verdict(name, text) == Ok::<bool, Failure>(false),
        value_verdict(name, text) == Err::<FeatureModel, Failure>(Failure::NotFound(normalized(name))),
{
    lemma_load_without_required(text_entries(text)->Some_0, set![normalized(name)]);
}

/// The identifiers that a condition names, each once.
pub fn required_features(condition: &str) -> (r: Vec<String>)
    ensures
        name_set(r@) == required_identifiers(condition@),
        forall|a: int, b: int| 0 <= a < b < r@.len() ==> r@[a]@ != r@[b]@,
{
    let mut r: Vec<String> = Vec::new();
    let ids = match identifiers_of(condition) {
        Some(ids) => ids,
        None => {
            assert(name_set(r@) =~= required_identifiers(condition@));
            return r;
        },
    };
    let ghost all = ids@.map_values(|s: String| s@);
    for i in 0..ids.len()
        invariant
            all == ids@.map_values(|s: String| s@),
            expression_identifiers(condition@) == Some(all),
            forall|a: int, b: int| 0 <= a < b < r@.len() ==> r@[a]@ != r@[b]@,
            name_set(r@) == Set::new(|n: Seq<char>| exists|j: int| 0 <= j < i && all[j] == n),
    {
        let mut seen = false;
        let mut k: usize = 0;
        while k < r.len()
            invariant
                k <= r.len(),
                i < ids@.len(),
                !seen ==> forall|j: int| 0 <= j < k ==> r@[j]@ != ids@[i as int]@,
                seen ==> exists|j: int| 0 <= j < r@.len() && r@[j]@ == ids@[i as int]@,
            decreases r.len() - k,
        {
            if r[k] == ids[i] {
                seen = true;
            }
            k = k + 1;
        }
        let ghost before = r@;
        if !seen {
            r.push(ids[i].clone());
        }
        assert(name_set(r@) =~= Set::new(|n: Seq<char>| exists|j: int| 0 <= j < i + 1 && all[j] == n)) by {
            assert(all[i as int] == ids@[i as int]@);
            assert forall|n: Seq<char>| name_set(r@).contains(n)
                implies exists|j: int| 0 <= j < i + 1 && all[j] == n by {
                let t = choose|t: int| 0 <= t < r@.len() && r@[t]@ == n;
                if t < before.len() {
                    assert(before[t] == r@[t]);
                    assert(name_set(before).contains(n));
                }
            }
            assert forall|n: Seq<char>| (exists|j: int| 0 <= j < i + 1 && all[j] == n)
                implies name_set(r@).contains(n) by {
                let j = choose|j: int| 0 <= j < i + 1 && all[j] == n;
                if j < i {
                    assert(name_set(before).contains(n));
                    let t = choose|t: int| 0 <= t < before.len() && before[t]@ == n;
                    assert(r@[t] == before[t]);
                } else if !seen {
                    assert(r@[before.len() as int]@ == n);
                }
            }
        }
    }
    assert(name_set(r@) =~= required_identifiers(condition@));
    r
}

/// Defines, as `false`, every normalized name of `required` that the
/// context leaves undefined.
pub fn complete_features(ctx: &mut FeatureContext, required: &Vec<String>)
    ensures
        context_variables(*final(ctx)) == completed(context_variables(*old(ctx)), name_set(required@)),
        context_functions(*final(ctx)) == context_functions(*old(ctx)),
{
    let ghost m0 = context_variables(*ctx);
    assert(completed(m0, name_set(required@.take(0))) =~= m0);
    for i in 0..required.len()
        invariant
            context_variables(*ctx) == completed(m0, name_set(required@.take(i as int))),
            context_functions(*ctx) == context_functions(*old(ctx)),
    {
        let ghost before = context_variables(*ctx);
        let ghost s = name_set(required@.take(i as int));
        let ghost s1 = name_set(required@.take(i + 1));
        assert(s1 =~= s.insert(required@[i as int]@)) by {
            assert forall|n: Seq<char>| s1.contains(n) implies s.insert(required@[i as int]@).contains(n) by {
                let j = choose|j: int| 0 <= j < i + 1 && #[trigger] required@.take(i + 1)[j]@ == n;
                if j < i {
                    assert(required@.take(i as int)[j] == required@.take(i + 1)[j]);
                }
            }
            assert forall|n: Seq<char>| s.insert(required@[i as int]@).contains(n) implies s1.contains(n) by {
                if n == required@[i as int]@ {
                    assert(required@.take(i + 1)[i as int] == required@[i as int]);
                } else {
                    let j = choose|j: int| 0 <= j < i && #[trigger] required@.take(i as int)[j]@ == n;
                    assert(required@.take(i as int)[j] == required@.take(i + 1)[j]);
                }
            }
        }
        let clean = normalize_feature_name(required[i].as_str());
        let ghost r = required@[i as int]@;
        if get_variable(ctx, clean.as_str()).is_none() {
            set_variable(ctx, clean, &FeatureValue::Bool(false));
            assert(!m0.contains_key(normalized(r)));
            assert(completed(m0, s1) =~= before.insert(normalized(r), FeatureModel::Bool(false))) by {
                assert forall|k: Seq<char>| completed(m0, s1).contains_key(k)
                    implies before.insert(normalized(r), FeatureModel::Bool(false)).contains_key(k) by {
                    if k != normalized(r) && !m0.contains_key(k) {
                        let q = choose|q: Seq<char>| s1.contains(q) && normalized(q) == k;
                        assert(s.contains(q));
                    }
                }
            }
        } else {
            assert(completed(m0, s1) =~= before) by {
                assert forall|k: Seq<char>| completed(m0, s1).contains_key(k)
                    implies before.contains_key(k) by {
                    if k != normalized(r) && !m0.contains_key(k) {
                        let q = choose|q: Seq<char>| s1.contains(q) && normalized(q) == k;
                        assert(s.contains(q));
                    }
                }
            }
        }
    }
    assert(required@.take(required@.len() as int) == required@);
}

/// Whether a condition value counts as true.
pub fn condition_truth(v: &ConditionValue) -> (r: Option<bool>)
    ensures
        r == truth(*v),
{
    match v {
        ConditionValue::Boolean(b) => Some(*b),
        ConditionValue::Int(i) => Some(*i != 0),
        ConditionValue::Real(bits) => Some(*bits & 0x7fff_ffff_ffff_ffffu64 != 0),
        ConditionValue::Other => None,
    }
}

/// Prepares the evaluation of a presence condition under a configuration
/// text that loads the features it names: loads them, and defines as
/// `false` the named features that the configuration leaves undefined. The
/// context that comes back holds the functions of this library.
pub fn prepare_condition(condition: &str, config_json: &str) -> (r: FeatureContext)
    requires
        loaded_config(config_json@, required_identifiers(condition@)) is Loaded,
    ensures
        context_variables(r) == completed(
            loaded_config(config_json@, required_identifiers(condition@))->Loaded_0,
            required_identifiers(condition@),
        ),
        context_functions(r) == library_functions(),
{
    let required = required_features(condition);
    let mut ctx = load_config(&required, config_json);
    complete_features(&mut ctx, &required);
    ctx
}

/// The decision made from what the evaluator gave for a presence condition.
pub fn decide_condition(outcome: &Result<ConditionValue, String>) -> (r: Result<bool, MacroError>)
    ensures
        r == condition_result(*outcome),
{
    match outcome {
        Err(msg) => Err(MacroError::EvaluationFailed(msg.clone())),
        Ok(v) => match condition_truth(v) {
            Some(b) => Ok(b),
            None => Err(MacroError::UnsupportedConditionType),
        },
    }
}

/// Decides a presence condition under a configuration text that loads the
/// features it names: whether an item marked `#[feat(condition)]` stays.
/// The condition is evaluated whatever functions it names; it fails only
/// where `evalexpr` fails or gives a value without truth.
pub fn feat(condition: &str, config_json: &str) -> (r: Result<bool, MacroError>)
    requires
        loaded_config(config_json@, required_identifiers(condition@)) is Loaded,
    ensures
        evaluated_decision(condition@, loaded_config(config_json@, required_identifiers(condition@))->Loaded_0, r),
        r is Err ==> r->Err_0 is EvaluationFailed || r->Err_0 is UnsupportedConditionType,
{
    let ctx = prepare_condition(condition, config_json);
    let outcome = evaluate(&ctx, condition);
    let r = decide_condition(&outcome);
    assert(r == condition_result(outcome));
    r
}

/// Decides a presence condition under any configuration text: a
/// configuration that cannot load the features that the condition names
/// gives its load failure, and otherwise the condition is decided by `feat`.
pub fn try_feat(condition: &str, config_json: &str) -> (r: Result<bool, MacroError>)
    ensures
        condition_decided(condition@, config_json@, r),
{
    let required = required_features(condition);
    match try_load_config(&required, config_json) {
        Err(e) => Err(MacroError::Config(e)),
        Ok(_) => feat(condition, config_json),
    }
}

/// The block that `feat_if!(condition, { .. } else { .. })` inserts under a
/// configuration text that loads the features the condition names;
/// `has_else` tells whether the `else` block is written.
pub fn feat_if(condition: &str, has_else: bool, config_json: &str) -> (r: Result<Expansion, MacroError>)
    requires
        loaded_config(config_json@, required_identifiers(condition@)) is Loaded,
    ensures
        exists|d: Result<bool, MacroError>|
            evaluated_decision(condition@, loaded_config(config_json@, required_identifiers(condition@))->Loaded_0, d)
            && r == #[trigger] expansion_result(d, has_else),
{
    expand_decision(feat(condition, config_json), has_else)
}

/// The block chosen by a decided condition; errors pass through.
fn expand_decision(d: Result<bool, MacroError>, has_else: bool) -> (r: Result<Expansion, MacroError>)
    ensures
        r == expansion_result(d, has_else),
{
    match d {
        Ok(holds) => Ok(if holds {
            Expansion::Then
        } else if has_else {
            Expansion::Else
        } else {
            Expansion::Empty
        }),
        Err(e) => Err(e),
    }
}

/// The block that `feat_if!` inserts under any configuration text: the
/// load failure where the configuration cannot load the features that the
/// condition names, and otherwise the block chosen by `feat_if`.
pub fn try_feat_if(condition: &str, has_else: bool, config_json: &str) -> (r: Result<Expansion, MacroError>)
    ensures
        exists|d: Result<bool, MacroError>| condition_decided(condition@, config_json@, d)
            && r == #[trigger] expansion_result(d, has_else),
{
    let required = required_features(condition);
    match try_load_config(&required, config_json) {
        Err(e) => expand_decision(Err(MacroError::Config(e)), has_else),
        Ok(_) => feat_if(condition, has_else, config_json),
    }
}

/// Loads one feature under its normalized name.
fn load_single(name: &String, config_json: &str) -> (r: Result<FeatureContext, MacroError>)
    ensures
        match loaded_config(config_json@, set![name@]) {
            LoadOutcome::Loaded(m) => r is Ok && context_variables(r->Ok_0) == m,
            other => r is Err && failure_of(r->Err_0) == load_failure(other),
        },
{
    let mut required: Vec<String> = Vec::new();
    required.push(name.clone());
    assert(name_set(required@) =~= set![name@]) by {
        assert(required@[0]@ == name@);
    }
    match try_load_config(&required, config_json) {
        Ok(ctx) => Ok(ctx),
        Err(e) => Err(MacroError::Config(e)),
    }
}

/// The block that `feat_ifdef!(feature, { .. } else { .. })` inserts under a
/// configuration text that loads: the first when the configuration defines
/// the feature.
pub fn feat_ifdef(feature: &str, has_else: bool, config_json: &str) -> (r: Expansion)
    requires
        definition_verdict(feature@, config_json@) is Ok,
    ensures
        r == expansion_for(definition_verdict(feature@, config_json@)->Ok_0, has_else),
{
    let name = normalize_feature_name(feature);
    let ctx = load_single(&name, config_json).unwrap();
    let defined = get_variable(&ctx, name.as_str()).is_some();
    if defined {
        Expansion::Then
    } else if has_else {
        Expansion::Else
    } else {
        Expansion::Empty
    }
}

/// The block that `feat_ifdef!` inserts under any configuration text: the
/// load failure where the configuration cannot be loaded, and otherwise the
/// block chosen by `feat_ifdef`.
pub fn try_feat_ifdef(feature: &str, has_else: bool, config_json: &str) -> (r: Result<Expansion, MacroError>)
    ensures
        definition_verdict(feature@, config_json@) is Ok ==> r is Ok
            && r->Ok_0 == expansion_for(definition_verdict(feature@, config_json@)->Ok_0, has_else),
        definition_verdict(feature@, config_json@) is Err ==> r is Err
            && failure_of(r->Err_0) == definition_verdict(feature@, config_json@)->Err_0,
{
    let name = normalize_feature_name(feature);
    match load_single(&name, config_json) {
        Err(e) => Err(e),
        Ok(_) => Ok(feat_ifdef(feature, has_else, config_json)),
    }
}

/// The value that `feat_value!(feature)` stands for under a configuration
/// text that gives the feature a value.
pub fn feat_value(feature: &str, config_json: &str) -> (r: FeatureValue)
    requires
        value_verdict(feature@, config_json@) is Ok,
    ensures
        r@ == value_verdict(feature@, config_json@)->Ok_0,
{
    let name = normalize_feature_name(feature);
    let ctx = load_single(&name, config_json).unwrap();
    get_variable(&ctx, name.as_str()).unwrap()
}

/// The value that `feat_value!(feature)` stands for under any configuration
/// text: the load failure where the configuration cannot be loaded,
/// `FeatureNotFound` where it does not define the feature, and otherwise the
/// value given by `feat_value`.
pub fn try_feat_value(feature: &str, config_json: &str) -> (r: Result<FeatureValue, MacroError>)
    ensures
        value_verdict(feature@, config_json@) is Ok ==> r is Ok
            && r->Ok_0@ == value_verdict(feature@, config_json@)->Ok_0,
        value_verdict(feature@, config_json@) is Err ==> r is Err
            && failure_of(r->Err_0) == value_verdict(feature@, config_json@)->Err_0,
{
    let name = normalize_feature_name(feature);
    let ctx = match load_single(&name, config_json) {
        Ok(ctx) => ctx,
        Err(e) => return Err(e),
    };
    if get_variable(&ctx, name.as_str()).is_none() {
        return Err(MacroError::FeatureNotFound(name));
    }
    Ok(feat_value(feature, config_json))
}

} // verus!
