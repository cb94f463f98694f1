//! Where a crate's manifest says its UVL configuration lies, read with
//! `toml`.
use vstd::prelude::*;

verus! {

#[verifier::external_type_specification]
#[verifier::external_body]
pub struct ExTomlValue(toml::Value);

/// What a TOML value holds, as far as the manifest lookup reads it: a
/// string, a table with its entries in the order in which its map hands
/// them out (each key once), or anything else.
pub enum TomlValue {
    Str(Seq<char>),
    Table(Seq<(Seq<char>, TomlValue)>),
    Other,
}

/// What a `toml::Value` holds.
pub uninterp spec fn toml_contents(v: toml::Value) -> TomlValue;

/// What `toml::from_str` makes of a text as a `toml::Value`: the value, or
/// the text of the error.
pub uninterp spec fn toml_parse(text: Seq<char>) -> Result<TomlValue, Seq<char>>;

/// Why a manifest names no configuration file.
#[derive(Clone, Debug, PartialEq, Eq)]
pub enum ManifestError {
    /// The manifest is no TOML (it carries the parser's message).
    InvalidToml(String),
    /// There is no `[package]` section.
    MissingPackage,
    /// There is no `[package.metadata]` section.
    MissingMetadata,
    /// `[package.metadata]` has no `uvl_config_path`.
    MissingConfigPath,
    /// `uvl_config_path` is not a string.
    ConfigPathNotString,
}

/// A manifest failure, as contracts speak of it.
pub enum ManifestFailure {
    InvalidToml(Seq<char>),
    MissingPackage,
    MissingMetadata,
    MissingConfigPath,
    ConfigPathNotString,
}

/// The failure that an error stands for.
pub open spec fn manifest_failure_of(e: ManifestError) -> ManifestFailure {
    match e {
        ManifestError::InvalidToml(m) => ManifestFailure::InvalidToml(m@),
        ManifestError::MissingPackage => ManifestFailure::MissingPackage,
        ManifestError::MissingMetadata => ManifestFailure::MissingMetadata,
        ManifestError::MissingConfigPath => ManifestFailure::MissingConfigPath,
        ManifestError::ConfigPathNotString => ManifestFailure::ConfigPathNotString,
    }
}

/// The value of the first entry named `key`.
pub open spec fn toml_entry_lookup(entries: Seq<(Seq<char>, TomlValue)>, key: Seq<char>) -> Option<TomlValue>
    decreases entries.len(),
{
    if entries.len() == 0 {
        None
    } else if entries[0].0 == key {
        Some(entries[0].1)
    } else {
        toml_entry_lookup(entries.drop_first(), key)
    }
}

/// The entry `key` of a table; nothing for any other value.
pub open spec fn toml_get(v: TomlValue, key: Seq<char>) -> Option<TomlValue> {
    match v {
        TomlValue::Table(entries) => toml_entry_lookup(entries, key),
        _ => None,
    }
}

/// What a manifest says of the configuration path: the string under
/// `package.metadata.uvl_config_path`, or the first step of that path that
/// fails.
pub open spec fn manifest_config_path(doc: TomlValue) -> Result<Seq<char>, ManifestFailure> {
    match toml_get(doc, "package"@) {
        None => Err(ManifestFailure::MissingPackage),
        Some(package) => match toml_get(package, "metadata"@) {
            None => Err(ManifestFailure::MissingMetadata),
            Some(metadata) => match toml_get(metadata, "uvl_config_path"@) {
                None => Err(ManifestFailure::MissingConfigPath),
                Some(TomlValue::Str(path)) => Ok(path),
                Some(_) => Err(ManifestFailure::ConfigPathNotString),
            },
        },
    }
}

/// What a manifest text says of the configuration path.
pub open spec fn manifest_text_config_path(text: Seq<char>) -> Result<Seq<char>, ManifestFailure> {
    match toml_parse(text) {
        Err(msg) => Err(ManifestFailure::InvalidToml(msg)),
        Ok(doc) => manifest_config_path(doc),
    }
}

/// `toml::from_str` into a `toml::Value`.
#[verifier::external_body]
fn parse_toml(text: &str) -> (r: Result<toml::Value, String>)
    ensures
        r is Ok == toml_parse(text@) is Ok,
        r is Ok ==> toml_contents(r->Ok_0) == toml_parse(text@)->Ok_0,
        r is Err ==> r->Err_0@ == toml_parse(text@)->Err_0,
{
    toml::from_str::<toml::Value>(text).map_err(|e| e.to_string())
}

/// `Value::get` with a key: the entry of a table (keys are unique in a
/// `toml` map, so it is the first entry of that name).
#[verifier::external_body]
fn toml_member<'a>(v: &'a toml::Value, key: &str) -> (r: Option<&'a toml::Value>)
    ensures
        r is Some == toml_get(toml_contents(*v), key@) is Some,
        r is Some ==> toml_contents(*r->Some_0) == toml_get(toml_contents(*v), key@)->Some_0,
{
    v.get(key)
}

/// `Value::as_str`.
#[verifier::external_body]
fn toml_as_str<'a>(v: &'a toml::Value) -> (r: Option<&'a str>)
    ensures
        r is Some == toml_contents(*v) is Str,
        r is Some ==> r->Some_0@ == toml_contents(*v)->Str_0,
{
    v.as_str()
}

/// Whether a manifest names a configuration path, or the first step of
/// `package.metadata.uvl_config_path` that fails.
pub fn check_cargotoml(cargo_toml: &toml::Value) -> (r: Result<(), ManifestError>)
    ensures
        r is Ok == manifest_config_path(toml_contents(*cargo_toml)) is Ok,
        r is Err ==> manifest_failure_of(r->Err_0) == manifest_config_path(toml_contents(*cargo_toml))->Err_0,
{
    let package = match toml_member(cargo_toml, "package") {
        Some(v) => v,
        None => return Err(ManifestError::MissingPackage),
    };
    let metadata = match toml_member(package, "metadata") {
        Some(v) => v,
        None => return Err(ManifestError::MissingMetadata),
    };
    let value = match toml_member(metadata, "uvl_config_path") {
        Some(v) => v,
        None => return Err(ManifestError::MissingConfigPath),
    };
    match toml_as_str(value) {
        Some(_) => Ok(()),
        None => Err(ManifestError::ConfigPathNotString),
    }
}

/// The configuration path that a manifest gives in
/// `[package.metadata] uvl_config_path`, where it gives one.
pub fn get_config_path_from_cargotoml<'a>(cargo_toml: &'a toml::Value) -> (r: &'a str)
    requires
        manifest_config_path(toml_contents(*cargo_toml)) is Ok,
    ensures
        r@ == manifest_config_path(toml_contents(*cargo_toml))->Ok_0,
{
    let package = toml_member(cargo_toml, "package").unwrap();
    let metadata = toml_member(package, "metadata").unwrap();
    let value = toml_member(metadata, "uvl_config_path").unwrap();
    toml_as_str(value).unwrap()
}

/// The configuration path that a manifest text gives, where it is TOML and
/// gives one.
pub fn config_path_from_manifest(content: &str) -> (r: String)
    requires
        manifest_text_config_path(content@) is Ok,
    ensures
        r@ == manifest_text_config_path(content@)->Ok_0,
{
    broadcast use vstd::string::group_string_axioms;

    let doc = parse_toml(content).unwrap();
    get_config_path_from_cargotoml(&doc).to_string()
}

/// The configuration path that any manifest text gives, or why it gives
/// none: the text is no TOML, or the first step of the lookup that fails.
pub fn try_config_path_from_manifest(content: &str) -> (r: Result<String, ManifestError>)
    ensures
        r is Ok == manifest_text_config_path(content@) is Ok,
        r is Ok ==> r->Ok_0@ == manifest_text_config_path(content@)->Ok_0,
        r is Err ==> manifest_failure_of(r->Err_0) == manifest_text_config_path(content@)->Err_0,
{
    let doc = match parse_toml(content) {
        Ok(doc) => doc,
        Err(msg) => return Err(ManifestError::InvalidToml(msg)),
    };
    match check_cargotoml(&doc) {
        Err(e) => Err(e),
        Ok(()) => Ok(config_path_from_manifest(content)),
    }
}

} // verus!
