use uvl_macros::manifest::{
    check_cargotoml, config_path_from_manifest, get_config_path_from_cargotoml, try_config_path_from_manifest,
    ManifestError,
};

const MANIFEST: &str = r#"
[package]
name = "example_car"
version = "0.1.0"
edition = "2021"

[package.metadata]
uvl_config_path = "config.uvl.json"

[dependencies]
uvl_macros = { path = "../uvl_macros" }
"#;

#[test]
fn config_path_is_read_from_package_metadata() {
    assert_eq!(try_config_path_from_manifest(MANIFEST), Ok("config.uvl.json".to_string()));
    assert_eq!(config_path_from_manifest(MANIFEST), "config.uvl.json".to_string());
    let doc: toml::Value = toml::from_str(MANIFEST).unwrap();
    assert_eq!(check_cargotoml(&doc), Ok(()));
    assert_eq!(get_config_path_from_cargotoml(&doc), "config.uvl.json");
}

#[test]
fn missing_package_section() {
    assert_eq!(try_config_path_from_manifest("[dependencies]\nx = \"1\"\n"), Err(ManifestError::MissingPackage));
    assert_eq!(try_config_path_from_manifest(""), Err(ManifestError::MissingPackage));
    assert_eq!(check_cargotoml(&toml::Value::Integer(3)), Err(ManifestError::MissingPackage));
}

#[test]
fn missing_metadata_section() {
    assert_eq!(
        try_config_path_from_manifest("[package]\nname = \"x\"\n"),
        Err(ManifestError::MissingMetadata)
    );
}

#[test]
fn missing_config_path() {
    assert_eq!(
        try_config_path_from_manifest("[package]\nname = \"x\"\n[package.metadata]\nother = 1\n"),
        Err(ManifestError::MissingConfigPath)
    );
}

#[test]
fn config_path_not_a_string() {
    assert_eq!(
        try_config_path_from_manifest("[package.metadata]\nuvl_config_path = 42\n"),
        Err(ManifestError::ConfigPathNotString)
    );
    assert_eq!(
        try_config_path_from_manifest("[package.metadata.uvl_config_path]\nfile = \"a.json\"\n"),
        Err(ManifestError::ConfigPathNotString)
    );
}

#[test]
fn metadata_that_is_not_a_table_has_no_entries() {
    assert_eq!(
        try_config_path_from_manifest("[package]\nmetadata = \"x\"\n"),
        Err(ManifestError::MissingConfigPath)
    );
}

#[test]
fn invalid_toml_is_reported() {
    assert!(matches!(try_config_path_from_manifest("[package\nname ="), Err(ManifestError::InvalidToml(_))));
}

#[test]
fn each_failing_step_of_a_parsed_manifest() {
    for (text, expected) in [
        ("name = 'x'", ManifestError::MissingPackage),
        ("[package]\nname = 'car'", ManifestError::MissingMetadata),
        ("[package.metadata]\nother = 1", ManifestError::MissingConfigPath),
        ("[package.metadata]\nuvl_config_path = 5", ManifestError::ConfigPathNotString),
    ] {
        let doc: toml::Value = toml::from_str(text).unwrap();
        assert_eq!(check_cargotoml(&doc), Err(expected));
    }
}
