//! Feature values as a configuration assigns them, and the loading of a
//! configuration into an evaluation context.
use vstd::prelude::*;
use crate::json::{
    JsonValue, member, json_contents, json_parse, parse_json, json_get, json_object_entries,
    json_array_items, json_as_i64, json_as_float_bits, json_as_bool, json_as_str,
};
use crate::names::{normalized, normalize_feature_name};
use crate::evaluation::{
    FeatureContext, context_variables, context_functions, library_functions, new_context,
    install_library_functions, set_variable, get_variable,
};

verus! {

/// The value a configuration assigns to a feature.
///
/// A real number is held by its IEEE-754 bit pattern.
#[derive(Clone, Debug, PartialEq)]
pub enum FeatureValue {
    Int(i64),
    Real(u64),
    Bool(bool),
    Text(String),
}

/// A feature value as contracts speak of it.
pub enum FeatureModel {
    Int(i64),
    Real(u64),
    Bool(bool),
    Text(Seq<char>),
}

impl View for FeatureValue {
    type V = FeatureModel;

    open spec fn view(&self) -> FeatureModel {
        match self {
            FeatureValue::Int(i) => FeatureModel::Int(*i),
            FeatureValue::Real(b) => FeatureModel::Real(*b),
            FeatureValue::Bool(b) => FeatureModel::Bool(*b),
            FeatureValue::Text(s) => FeatureModel::Text(s@),
        }
    }
}

/// Two values of the same kind: a variable of the evaluation context keeps
/// the kind of the value it was first given.
pub open spec fn same_kind(a: FeatureModel, b: FeatureModel) -> bool {
    match (a, b) {
        (FeatureModel::Int(_), FeatureModel::Int(_)) => true,
        (FeatureModel::Real(_), FeatureModel::Real(_)) => true,
        (FeatureModel::Bool(_), FeatureModel::Bool(_)) => true,
        (FeatureModel::Text(_), FeatureModel::Text(_)) => true,
        _ => false,
    }
}

/// The assignment that assigns no feature.
pub open spec fn no_features() -> Map<Seq<char>, FeatureModel> {
    Map::empty()
}

/// Why a configuration cannot be loaded.
#[derive(Clone, Debug, PartialEq)]
pub enum ConfigError {
    /// The text is no JSON (it carries the parser's message).
    InvalidJson(String),
    /// The document has no `config` member that is an object.
    MissingConfigSection,
    /// A required feature has a value that is no array, number, boolean or
    /// string (it carries the normalized name).
    UnsupportedFeatureType(String),
    /// Two entries of the configuration name the same feature once
    /// normalized, with values of different kinds: it carries the name, the
    /// value that the feature holds, the value of the later entry, and
    /// whether that entry is a feature cardinality (an array).
    ConflictingFeatureType { name: String, held: FeatureValue, given: FeatureValue, cardinality: bool },
}

/// What loading a configuration gives: the assignment of the required
/// features, or the first failure.
pub enum LoadOutcome {
    InvalidJson(Seq<char>),
    NoConfigSection,
    Loaded(Map<Seq<char>, FeatureModel>),
    Unsupported(Seq<char>),
    /// The name, the value it holds, the value of the later entry, and
    /// whether that entry is an array.
    Conflict(Seq<char>, FeatureModel, FeatureModel, bool),
}

/// An instance of a cloned feature that is selected: an object whose first
/// entry is `true`.
pub open spec fn selected_instance(item: JsonValue) -> bool {
    match item {
        JsonValue::Object(entries) => entries.len() > 0 && entries[0].1 == JsonValue::Bool(true),
        _ => false,
    }
}

/// The number of selected instances in the array of a feature cardinality.
pub open spec fn cardinality(items: Seq<JsonValue>) -> nat
    decreases items.len(),
{
    if items.len() == 0 {
        0
    } else {
        cardinality(items.drop_last()) + if selected_instance(items.last()) { 1nat } else { 0nat }
    }
}

/// The value of a feature as the configuration gives it, trying in turn: an
/// array counts its selected instances, a number is its `i64` when it has
/// one and its float otherwise, booleans and strings stay what they are.
/// `None` for anything else.
pub open spec fn feature_of(v: JsonValue) -> Option<FeatureModel> {
    match v {
        JsonValue::Array(items) => Some(FeatureModel::Int(cardinality(items) as i64)),
        JsonValue::Number(Some(i), _) => Some(FeatureModel::Int(i)),
        JsonValue::Number(None, bits) => Some(FeatureModel::Real(bits)),
        JsonValue::Bool(b) => Some(FeatureModel::Bool(b)),
        JsonValue::Str(s) => Some(FeatureModel::Text(s)),
        _ => None,
    }
}

/// Loads the entries of a configuration in order: an entry whose normalized
/// name is not required is skipped; a required one assigns its value to
/// that name, unless its value has no feature kind or the name already
/// holds a value of another kind.
pub open spec fn load_entries(entries: Seq<(Seq<char>, JsonValue)>, required: Set<Seq<char>>) -> LoadOutcome
    decreases entries.len(),
{
    if entries.len() == 0 {
        LoadOutcome::Loaded(no_features())
    } else {
        match load_entries(entries.drop_last(), required) {
            LoadOutcome::Loaded(m) => {
                let key = normalized(entries.last().0);
                if !required.contains(key) {
                    LoadOutcome::Loaded(m)
                } else {
                    match feature_of(entries.last().1) {
                        None => LoadOutcome::Unsupported(key),
                        Some(f) => if m.contains_key(key) && !same_kind(m[key], f) {
                            LoadOutcome::Conflict(key, m[key], f, entries.last().1 is Array)
                        } else {
                            LoadOutcome::Loaded(m.insert(key, f))
                        },
                    }
                }
            },
            other => other,
        }
    }
}

/// The entries of the `config` object of a configuration document.
pub open spec fn config_entries(doc: JsonValue) -> Option<Seq<(Seq<char>, JsonValue)>> {
    match member(doc, "config"@) {
        Some(JsonValue::Object(entries)) => Some(entries),
        _ => None,
    }
}

/// What loading a parsed configuration document for the `required` features
/// gives.
pub open spec fn loaded_document(doc: JsonValue, required: Set<Seq<char>>) -> LoadOutcome {
    match config_entries(doc) {
        None => LoadOutcome::NoConfigSection,
        Some(entries) => load_entries(entries, required),
    }
}

/// What loading the configuration text for the `required` features gives.
pub open spec fn loaded_config(text: Seq<char>, required: Set<Seq<char>>) -> LoadOutcome {
    match json_parse(text) {
        Err(msg) => LoadOutcome::InvalidJson(msg),
        Ok(doc) => loaded_document(doc, required),
    }
}

/// The names in a list, as a set.
pub open spec fn name_set(names: Seq<String>) -> Set<Seq<char>> {
    Set::new(|n: Seq<char>| exists|j: int| 0 <= j < names.len() && names[j]@ == n)
}

/// A failure while loading a prefix of the entries is the failure of all
/// of them.
pub proof fn lemma_load_failure_persists(entries: Seq<(Seq<char>, JsonValue)>, n: int, required: Set<Seq<char>>)
    requires
        0 <= n <= entries.len(),
        !(load_entries(entries.take(n), required) is Loaded),
    ensures
        load_entries(entries, required) == load_entries(entries.take(n), required),
    decreases entries.len() - n,
{
    if n < entries.len() {
        assert(entries.take(n + 1).drop_last() == entries.take(n));
        lemma_load_failure_persists(entries, n + 1, required);
    } else {
        assert(entries.take(n) == entries);
    }
}

/// An instance object whose first entry is `true` is selected, whatever
/// its other entries; a value that is no object, an empty object, and an
/// object whose first entry is anything but `true` are not.
pub proof fn lemma_selected_instance_by_first_entry(item: JsonValue)
    ensures
        (item matches JsonValue::Object(e) && e.len() > 0 && e[0].1 == JsonValue::Bool(true))
            ==> selected_instance(item),
        !(item is Object) ==> !selected_instance(item),
        (item matches JsonValue::Object(e) && (e.len() == 0 || e[0].1 != JsonValue::Bool(true)))
            ==> !selected_instance(item),
{
}

/// An empty feature cardinality counts nothing; it grows by one for an
/// added instance object whose first entry is `true`, and stays for any
/// other added item.
pub proof fn lemma_cardinality_of_pushed_item(items: Seq<JsonValue>, x: JsonValue)
    ensures
        cardinality(Seq::<JsonValue>::empty()) == 0,
        (x matches JsonValue::Object(e) && e.len() > 0 && e[0].1 == JsonValue::Bool(true))
            ==> cardinality(items.push(x)) == cardinality(items) + 1,
        !(x matches JsonValue::Object(e) && e.len() > 0 && e[0].1 == JsonValue::Bool(true))
            ==> cardinality(items.push(x)) == cardinality(items),
{
    assert(items.push(x).drop_last() == items);
}

/// An array all of whose items are instance objects with `true` as first
/// entry counts every item, however many entries each object has.
pub proof fn lemma_cardinality_of_all_selected(items: Seq<JsonValue>)
    requires
        forall|i: int| 0 <= i < items.len() ==> (#[trigger] items[i] matches JsonValue::Object(e)
            && e.len() > 0 && e[0].1 == JsonValue::Bool(true)),
    ensures
        cardinality(items) == items.len(),
    decreases items.len(),
{
    if items.len() > 0 {
        let init = items.drop_last();
        assert forall|i: int| 0 <= i < init.len() implies (#[trigger] init[i] matches JsonValue::Object(e)
            && e.len() > 0 && e[0].1 == JsonValue::Bool(true)) by {
            assert(init[i] == items[i]);
        }
        lemma_cardinality_of_all_selected(init);
        assert(items[items.len() - 1] matches JsonValue::Object(e) && e.len() > 0 && e[0].1 == JsonValue::Bool(true));
    }
}

/// A string feature takes the JSON string of its entry unchanged, a
/// boolean one its boolean, an integer number its integer, any other number
/// its float, and an array the count of its selected instances; `null` and
/// objects are no feature values.
pub proof fn lemma_feature_values_unchanged(
    s: Seq<char>,
    b: bool,
    i: i64,
    bits: u64,
    items: Seq<JsonValue>,
    entries: Seq<(Seq<char>, JsonValue)>,
)
    ensures
        feature_of(JsonValue::Str(s)) == Some(FeatureModel::Text(s)),
        feature_of(JsonValue::Bool(b)) == Some(FeatureModel::Bool(b)),
        feature_of(JsonValue::Number(Some(i), bits)) == Some(FeatureModel::Int(i)),
        feature_of(JsonValue::Number(None, bits)) == Some(FeatureModel::Real(bits)),
        feature_of(JsonValue::Array(items)) == Some(FeatureModel::Int(cardinality(items) as i64)),
        feature_of(JsonValue::Null) is None,
        feature_of(JsonValue::Object(entries)) is None,
{
}

/// Loading a required feature that exactly one entry names, with a JSON
/// string as value, assigns exactly that string, and nothing else.
pub proof fn lemma_loaded_string_unchanged(entries: Seq<(Seq<char>, JsonValue)>, key: Seq<char>, a: int, s: Seq<char>)
    requires
        0 <= a < entries.len(),
        normalized(entries[a].0) == key,
        forall|b: int| 0 <= b < entries.len() && b != a ==> normalized(#[trigger] entries[b].0) != key,
        entries[a].1 == JsonValue::Str(s),
    ensures
        load_entries(entries, set![key]) == LoadOutcome::Loaded(no_features().insert(key, FeatureModel::Text(s))),
{
    lemma_load_single_listed(entries, key, a);
}

/// A feature cardinality counts no more instances than its array holds.
pub proof fn lemma_cardinality_bounded(items: Seq<JsonValue>)
    ensures
        cardinality(items) <= items.len(),
    decreases items.len(),
{
    if items.len() > 0 {
        lemma_cardinality_bounded(items.drop_last());
    }
}

/// Loading assigns required features only.
pub proof fn lemma_load_keeps_to_required(entries: Seq<(Seq<char>, JsonValue)>, required: Set<Seq<char>>)
    ensures
        load_entries(entries, required) is Loaded ==> forall|k: Seq<char>|
            #[trigger] load_entries(entries, required)->Loaded_0.contains_key(k) ==> required.contains(k),
    decreases entries.len(),
{
    if entries.len() > 0 {
        lemma_load_keeps_to_required(entries.drop_last(), required);
    }
}

/// No two entries name the same feature once normalized.
pub open spec fn distinct_names(entries: Seq<(Seq<char>, JsonValue)>) -> bool {
    forall|a: int, b: int| 0 <= a < b < entries.len()
        ==> normalized(#[trigger] entries[a].0) != normalized(#[trigger] entries[b].0)
}

/// Every entry whose feature is required has a value of a feature kind.
pub open spec fn supported_where_required(entries: Seq<(Seq<char>, JsonValue)>, required: Set<Seq<char>>) -> bool {
    forall|a: int| 0 <= a < entries.len() && required.contains(normalized(#[trigger] entries[a].0))
        ==> feature_of(entries[a].1) is Some
}

/// Loading reads what the configuration says: where no two entries name the
/// same feature and every required one has a value of a feature kind, each
/// required feature of the configuration gets the value of its entry, and
/// nothing else is assigned.
pub proof fn lemma_load_reads_entries(entries: Seq<(Seq<char>, JsonValue)>, required: Set<Seq<char>>)
    requires
        distinct_names(entries),
        supported_where_required(entries, required),
    ensures
        load_entries(entries, required) is Loaded,
        forall|a: int| 0 <= a < entries.len() && required.contains(normalized(#[trigger] entries[a].0))
            ==> load_entries(entries, required)->Loaded_0.contains_key(normalized(entries[a].0))
                && load_entries(entries, required)->Loaded_0[normalized(entries[a].0)]
                    == feature_of(entries[a].1)->Some_0,
        forall|k: Seq<char>| #[trigger] load_entries(entries, required)->Loaded_0.contains_key(k)
            ==> required.contains(k) && exists|a: int| 0 <= a < entries.len() && normalized(entries[a].0) == k,
    decreases entries.len(),
{
    if entries.len() > 0 {
        let init = entries.drop_last();
        assert forall|a: int, b: int| 0 <= a < b < init.len()
            implies normalized(#[trigger] init[a].0) != normalized(#[trigger] init[b].0) by {
            assert(init[a] == entries[a] && init[b] == entries[b]);
        }
        assert forall|a: int| 0 <= a < init.len() && required.contains(normalized(#[trigger] init[a].0))
            implies feature_of(init[a].1) is Some by {
            assert(init[a] == entries[a]);
        }
        lemma_load_reads_entries(init, required);
        let m = load_entries(init, required)->Loaded_0;
        let last = entries.len() - 1;
        let key = normalized(entries[last].0);
        assert(!m.contains_key(key)) by {
            if m.contains_key(key) {
                let a = choose|a: int| 0 <= a < init.len() && normalized(init[a].0) == key;
                assert(init[a] == entries[a]);
            }
        }
        let n = load_entries(entries, required)->Loaded_0;
        assert forall|a: int| 0 <= a < entries.len() && required.contains(normalized(#[trigger] entries[a].0))
            implies n.contains_key(normalized(entries[a].0))
                && n[normalized(entries[a].0)] == feature_of(entries[a].1)->Some_0 by {
            if a < last {
                assert(init[a] == entries[a]);
            }
        }
        assert forall|k: Seq<char>| #[trigger] n.contains_key(k)
            implies required.contains(k) && exists|a: int| 0 <= a < entries.len() && normalized(entries[a].0) == k by {
            if k != key || !required.contains(key) {
                assert(m.contains_key(k));
                let a = choose|a: int| 0 <= a < init.len() && normalized(init[a].0) == k;
                assert(init[a] == entries[a]);
            }
        }
    }
}

/// A configuration none of whose entries names a required feature assigns
/// nothing.
pub proof fn lemma_load_without_required(entries: Seq<(Seq<char>, JsonValue)>, required: Set<Seq<char>>)
    requires
        forall|a: int| 0 <= a < entries.len() ==> !required.contains(normalized(#[trigger] entries[a].0)),
    ensures
        load_entries(entries, required) == LoadOutcome::Loaded(no_features()),
    decreases entries.len(),
{
    if entries.len() > 0 {
        let init = entries.drop_last();
        assert forall|a: int| 0 <= a < init.len() implies !required.contains(normalized(#[trigger] init[a].0)) by {
            assert(init[a] == entries[a]);
        }
        lemma_load_without_required(init, required);
        assert(!required.contains(normalized(entries[entries.len() - 1].0)));
    }
}

/// Loading a single required feature that exactly one entry names assigns
/// that entry's value, and nothing else.
pub proof fn lemma_load_single_listed(entries: Seq<(Seq<char>, JsonValue)>, key: Seq<char>, a: int)
    requires
        0 <= a < entries.len(),
        normalized(entries[a].0) == key,
        forall|b: int| 0 <= b < entries.len() && b != a ==> normalized(#[trigger] entries[b].0) != key,
        feature_of(entries[a].1) is Some,
    ensures
        load_entries(entries, set![key]) == LoadOutcome::Loaded(no_features().insert(key, feature_of(entries[a].1)->Some_0)),
    decreases entries.len(),
{
    let init = entries.drop_last();
    if a == entries.len() - 1 {
        assert forall|b: int| 0 <= b < init.len() implies !set![key].contains(normalized(#[trigger] init[b].0)) by {
            assert(init[b] == entries[b]);
        }
        lemma_load_without_required(init, set![key]);
    } else {
        assert forall|b: int| 0 <= b < init.len() && b != a implies normalized(#[trigger] init[b].0) != key by {
            assert(init[b] == entries[b]);
        }
        assert(init[a] == entries[a]);
        lemma_load_single_listed(init, key, a);
        assert(normalized(entries[entries.len() - 1].0) != key);
    }
}

/// Whether `name` is one of `names`.
fn contains_name(names: &Vec<String>, name: &String) -> (r: bool)
    ensures
        r == name_set(names@).contains(name@),
{
    let mut i: usize = 0;
    while i < names.len()
        invariant
            i <= names.len(),
            forall|j: int| 0 <= j < i ==> names@[j]@ != name@,
        decreases names.len() - i,
    {
        if names[i] == *name {
            return true;
        }
        i = i + 1;
    }
    false
}

/// Whether an instance of a cloned feature is selected.
fn is_selected_instance(item: &serde_json::Value) -> (r: bool)
    ensures
        r == selected_instance(json_contents(*item)),
{
    match json_object_entries(item) {
        Some(entries) => {
            if entries.len() > 0 {
                json_as_bool(entries[0].1) == Some(true)
            } else {
                false
            }
        },
        None => false,
    }
}

/// Counts the selected instances of a feature cardinality.
fn count_selected(items: &Vec<serde_json::Value>, Ghost(model): Ghost<Seq<JsonValue>>) -> (r: usize)
    requires
        model.len() == items@.len(),
        forall|i: int| 0 <= i < items@.len() ==> json_contents(#[trigger] items@[i]) == model[i],
    ensures
        r == cardinality(model),
{
    let mut count: usize = 0;
    for j in 0..items.len()
        invariant
            model.len() == items@.len(),
            forall|i: int| 0 <= i < items@.len() ==> json_contents(#[trigger] items@[i]) == model[i],
            count == cardinality(model.take(j as int)),
            count <= j,
    {
        assert(model.take(j + 1).drop_last() == model.take(j as int));
        if is_selected_instance(&items[j]) {
            count = count + 1;
        }
    }
    assert(model.take(model.len() as int) == model);
    count
}

/// The value of a feature as the configuration gives it.
fn feature_value(v: &serde_json::Value) -> (r: Option<FeatureValue>)
    ensures
        r is Some == feature_of(json_contents(*v)) is Some,
        r is Some ==> r->Some_0@ == feature_of(json_contents(*v))->Some_0,
{
    if let Some(items) = json_array_items(v) {
        let ghost model = json_contents(*v)->Array_0;
        return Some(FeatureValue::Int(count_selected(items, Ghost(model)) as i64));
    }
    if let Some(i) = json_as_i64(v) {
        return Some(FeatureValue::Int(i));
    }
    if let Some(bits) = json_as_float_bits(v) {
        return Some(FeatureValue::Real(bits));
    }
    if let Some(b) = json_as_bool(v) {
        return Some(FeatureValue::Bool(b));
    }
    if let Some(s) = json_as_str(v) {
        return Some(FeatureValue::Text(s.to_string()));
    }
    None
}

/// Loads the features named in `required_features` from a configuration
/// text into a new evaluation context that also holds the functions of this
/// library, or tells why the configuration cannot be loaded.
pub fn try_load_config(required_features: &Vec<String>, config_json: &str) -> (r: Result<FeatureContext, ConfigError>)
    ensures
        match loaded_config(config_json@, name_set(required_features@)) {
            LoadOutcome::InvalidJson(msg) => r matches Err(ConfigError::InvalidJson(m)) && m@ == msg,
            LoadOutcome::NoConfigSection => r matches Err(ConfigError::MissingConfigSection),
            LoadOutcome::Loaded(m) => r is Ok && context_variables(r->Ok_0) == m
                && context_functions(r->Ok_0) == library_functions(),
            LoadOutcome::Unsupported(key) => r matches Err(ConfigError::UnsupportedFeatureType(k)) && k@ == key,
            LoadOutcome::Conflict(key, held, given, card) => r matches Err(
                ConfigError::ConflictingFeatureType { name, held: h, given: g, cardinality: c },
            ) && name@ == key && h@ == held && g@ == given && c == card,
        },
{
    broadcast use vstd::string::group_string_axioms;

    let doc = match parse_json(config_json) {
        Ok(doc) => doc,
        Err(msg) => return Err(ConfigError::InvalidJson(msg)),
    };
    let ghost required = name_set(required_features@);
    let mut ctx = new_context();
    install_library_functions(&mut ctx);
    assert(context_functions(ctx) =~= library_functions());
    let section = match json_get(&doc, "config") {
        Some(section) => section,
        None => return Err(ConfigError::MissingConfigSection),
    };
    let entries = match json_object_entries(section) {
        Some(entries) => entries,
        None => return Err(ConfigError::MissingConfigSection),
    };
    let ghost model = json_contents(*section)->Object_0;
    assert(config_entries(json_contents(doc)) == Some(model));
    assert(loaded_config(config_json@, required) == load_entries(model, required));
    for i in 0..entries.len()
        invariant
            required == name_set(required_features@),
            loaded_config(config_json@, required) == load_entries(model, required),
            model.len() == entries@.len(),
            forall|j: int| 0 <= j < entries@.len() ==> (#[trigger] entries@[j]).0@ == model[j].0
                && json_contents(*entries@[j].1) == model[j].1,
            load_entries(model.take(i as int), required) == LoadOutcome::Loaded(context_variables(ctx)),
            context_functions(ctx) == library_functions(),
    {
        assert(model.take(i + 1).drop_last() == model.take(i as int));
        assert(model.take(i + 1).last() == model[i as int]);
        assert(entries@[i as int].0@ == model[i as int].0);
        let clean = normalize_feature_name(entries[i].0.as_str());
        if contains_name(required_features, &clean) {
            let value = match feature_value(entries[i].1) {
                Some(value) => value,
                None => {
                    proof { lemma_load_failure_persists(model, i + 1, required); }
                    return Err(ConfigError::UnsupportedFeatureType(clean));
                },
            };
            let held = get_variable(&ctx, clean.as_str());
            if !set_variable(&mut ctx, clean.clone(), &value) {
                proof { lemma_load_failure_persists(model, i + 1, required); }
                let cardinality = json_array_items(entries[i].1).is_some();
                return Err(ConfigError::ConflictingFeatureType {
                    name: clean,
                    held: held.unwrap(),
                    given: value,
                    cardinality,
                });
            }
        }
    }
    assert(model.take(model.len() as int) == model);
    Ok(ctx)
}

/// Loads the features named in `required_features` from a configuration
/// text that loads: each gets the value that the configuration gives it, and
/// the context also holds the functions of this library.
pub fn load_config(required_features: &Vec<String>, config_json: &str) -> (r: FeatureContext)
    requires
        loaded_config(config_json@, name_set(required_features@)) is Loaded,
    ensures
        context_variables(r) == loaded_config(config_json@, name_set(required_features@))->Loaded_0,
        context_functions(r) == library_functions(),
{
    try_load_config(required_features, config_json).unwrap()
}

} // verus!
