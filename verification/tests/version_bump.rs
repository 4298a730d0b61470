use unvet::version_bump::{update_cargo_lock_versions, update_json_version, update_toml_version, validate_version, version_check};

fn local_package_names() -> Vec<String> {
    [
        "unvet-cli",
        "unvet-config",
        "unvet-core",
        "unvet-desktop",
        "unvet-input-ifacialmocap",
        "unvet-input-vmc-osc",
        "unvet-output",
        "unvet-output-ets2",
        "unvet-output-keyboard",
        "unvet-output-mouse",
        "unvet-output-touch",
        "unvet-ui",
        "xtask",
    ]
    .iter()
    .map(|s| s.to_string())
    .collect()
}

#[test]
fn cargo_lock_update_only_touches_local_packages() {
    let local_package_names = local_package_names();
    let raw = r#"[[package]]
name = "http"
version = "1.4.0"

[[package]]
name = "unvet-core"
version = "1.4.0"
"#;

    let updated = update_cargo_lock_versions(raw, "1.4.1", &local_package_names).unwrap();

    assert!(updated.contains("name = \"http\"\nversion = \"1.4.0\""));
    assert!(updated.contains("name = \"unvet-core\"\nversion = \"1.4.1\""));
}

#[test]
fn version_validation_accepts_semver_prerelease() {
    validate_version("1.4.1-beta.1+build.5").unwrap();
}

#[test]
fn version_validation_rejects_partial_versions() {
    assert!(validate_version("1.4").is_err());
}

#[test]
fn package_lock_update_keeps_dependency_versions() {
    let raw = r#"{
 "version": "1.4.0",
 "packages": {
  "": {
   "version": "1.4.0"
  },
  "node_modules/example": {
   "version": "9.9.9"
  }
 }
}
"#;

    let updated = update_json_version(raw, "1.4.1", 2).unwrap();

    assert!(updated.contains("\"version\": \"1.4.1\""));
    assert!(updated.contains("\"version\": \"9.9.9\""));
}

#[test]
fn version_messages_and_leading_zeros() {
    assert_eq!(
        validate_version("01.2.3"),
        Err("version must be SemVer-like MAJOR.MINOR.PATCH, got: 01.2.3".to_owned())
    );
    assert!(validate_version("0.0.0").is_ok());
    assert_eq!(version_check(true, "x"), Ok(()));
}

#[test]
fn toml_update_replaces_package_and_workspace_versions() {
    let raw = "[package]\nname = \"a\"\nversion = \"0.1.0\"\n[workspace.package]\nversion.workspace = \"0.1.0\"\n";
    let next = update_toml_version(raw, "2.0.0").unwrap();
    assert_eq!(next, "[package]\nname = \"a\"\nversion = \"2.0.0\"\n[workspace.package]\nversion.workspace = \"2.0.0\"\n");
    assert_eq!(update_toml_version("name = \"a\"\n", "2.0.0"), Err("no package version assignment found".to_owned()));
    assert_eq!(update_toml_version("version = \"1\"", "1.0.0-$x"), Ok("version = \"1.0.0-$x\"".to_owned()));
}

#[test]
fn json_update_errors() {
    assert_eq!(update_json_version("{", "1.0.0", 1), Err("invalid JSON before version update".to_owned()));
    assert_eq!(update_json_version("{\"name\": \"a\"}", "1.0.0", 1), Err("no JSON version property found".to_owned()));
    assert_eq!(
        update_json_version("{\"version\": \"0.1.0\"}", "1.0.0", 0),
        Err("no JSON version property found".to_owned())
    );
    assert_eq!(update_json_version("{\"version\": \"0.1.0\"}", "1.0.0", 1), Ok("{\"version\": \"1.0.0\"}".to_owned()));
}

#[test]
fn lock_update_keeps_missing_final_newline_and_requires_local_package() {
    let names = local_package_names();
    let raw = "[[package]]\r\nname = \"xtask\"\r\nversion = \"0.1.0\"";
    assert_eq!(
        update_cargo_lock_versions(raw, "0.2.0", &names),
        Ok("[[package]]\nname = \"xtask\"\nversion = \"0.2.0\"".to_owned())
    );
    assert_eq!(
        update_cargo_lock_versions("[[package]]\nname = \"http\"\nversion = \"1.0.0\"\n", "2.0.0", &names),
        Err("no local package versions found in lockfile".to_owned())
    );
}
