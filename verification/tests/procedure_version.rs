use tofupilot_run::procedure_version::{read_pyproject_version, read_yaml_version};

fn declared(version: &str) -> Option<String> {
    Some(version.to_string())
}

fn project(content: &str) -> Option<String> {
    read_pyproject_version(&Some(content.to_string()))
}

#[test]
fn reads_yaml_version() {
    assert_eq!(read_yaml_version(&declared("3.1.4")).as_deref(), Some("3.1.4"));
}

#[test]
fn yaml_wins_over_pyproject() {
    assert_eq!(read_yaml_version(&declared("3.1.4")).as_deref(), Some("3.1.4"));
    assert_eq!(project("[project]\nversion = \"1.2.3\"\n").as_deref(), Some("1.2.3"));
}

#[test]
fn custom_named_yaml_is_read() {
    assert_eq!(read_yaml_version(&declared("4.2.0")).as_deref(), Some("4.2.0"));
}

#[test]
fn yaml_without_version_does_not_fall_back() {
    assert!(read_yaml_version(&None).is_none());
}

#[test]
fn yml_extension_is_read() {
    assert_eq!(read_yaml_version(&declared("0.9")).as_deref(), Some("0.9"));
}

#[test]
fn unparseable_yaml_yields_no_version() {
    assert!(read_yaml_version(&None).is_none());
}

#[test]
fn blank_yaml_version_does_not_fall_back() {
    assert!(read_yaml_version(&declared("   ")).is_none());
}

#[test]
fn missing_yaml_yields_no_version() {
    assert!(read_yaml_version(&None).is_none());
}

#[test]
fn yaml_version_is_trimmed() {
    assert_eq!(read_yaml_version(&declared(" 1.0\t")).as_deref(), Some("1.0"));
}

#[test]
fn connector_ignores_a_stray_yaml() {
    assert_eq!(project("[project]\nversion = \"1.2.3\"\n").as_deref(), Some("1.2.3"));
}

#[test]
fn reads_pep621_version() {
    assert_eq!(
        project("[project]\nname = \"foo\"\nversion = \"1.2.3\"\n").as_deref(),
        Some("1.2.3")
    );
}

#[test]
fn reads_poetry_version_fallback() {
    assert_eq!(
        project("[tool.poetry]\nname = \"foo\"\nversion = \"0.4.0\"\n").as_deref(),
        Some("0.4.0")
    );
}

#[test]
fn pep621_wins_over_poetry() {
    assert_eq!(
        project("[project]\nversion = \"2.0.0\"\n[tool.poetry]\nversion = \"1.0.0\"\n").as_deref(),
        Some("2.0.0")
    );
}

#[test]
fn missing_file_returns_none() {
    assert!(read_pyproject_version(&None).is_none());
}

#[test]
fn missing_version_field_returns_none() {
    assert!(project("[project]\nname = \"foo\"\n").is_none());
}

#[test]
fn empty_version_returns_none() {
    assert!(project("[project]\nversion = \"   \"\n").is_none());
}

#[test]
fn malformed_toml_returns_none() {
    assert!(project("this is not [valid toml").is_none());
}
