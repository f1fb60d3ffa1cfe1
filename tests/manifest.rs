use cargo_dockerize::manifest::{read_package_metadata, ManifestError, PackageMetadata};

fn meta(name: &str, version: &str) -> PackageMetadata {
    PackageMetadata { name: name.to_string(), version: version.to_string() }
}

#[test]
fn reads_name_and_version() {
    let text = "[package]\nname = \"svc\"\nversion = \"0.3.1\"\nedition = \"2021\"\n";
    assert_eq!(read_package_metadata(text), Ok(meta("svc", "0.3.1")));
}

#[test]
fn ignores_comments_and_surrounding_lines() {
    let text = "# a service\n\n[package]\n# name is below\n  name = \"svc\"  \nauthors = []\nversion = \"1.0.0\"\n\n[dependencies]\nserde = \"1\"\n";
    assert_eq!(read_package_metadata(text), Ok(meta("svc", "1.0.0")));
}

#[test]
fn first_name_line_wins_whatever_its_section() {
    let text = "[workspace]\nname = \"outer\"\n[package]\nname = \"inner\"\nversion = \"2.0.0\"\n";
    assert_eq!(read_package_metadata(text), Ok(meta("outer", "2.0.0")));
}

#[test]
fn version_may_precede_name() {
    let text = "version = \"0.1.0\"\nname = \"tool\"";
    assert_eq!(read_package_metadata(text), Ok(meta("tool", "0.1.0")));
}

#[test]
fn windows_line_endings() {
    let text = "[package]\r\nname = \"svc\"\r\nversion = \"0.2.0\"\r\n";
    assert_eq!(read_package_metadata(text), Ok(meta("svc", "0.2.0")));
}

#[test]
fn value_is_all_after_the_first_equals_sign() {
    let text = "name = \"a\" = \"b\"\nversion = 3\n";
    assert_eq!(read_package_metadata(text), Ok(meta("a\" = \"b", "3")));
}

#[test]
fn value_may_hold_equals_signs() {
    let text = "name = \"a=b\"\nversion = \"1\"\n";
    assert_eq!(read_package_metadata(text), Ok(meta("a=b", "1")));
}

#[test]
fn indented_lines_with_trailing_space() {
    let text = "[package]\n    name = \"svc\"\t \n\tversion = \"0.5.0\"  \n";
    assert_eq!(read_package_metadata(text), Ok(meta("svc", "0.5.0")));
}

#[test]
fn all_surrounding_quotes_are_stripped() {
    let text = "name = \"\"x\"\"\nversion = \"\"\n";
    assert_eq!(read_package_metadata(text), Ok(meta("x", "")));
}

#[test]
fn key_without_space_is_not_a_field_line() {
    let text = "name=\"svc\"\nversion = \"1\"\n";
    assert_eq!(read_package_metadata(text), Err(ManifestError::MissingName));
}

#[test]
fn missing_name_is_reported() {
    assert_eq!(read_package_metadata("[package]\nversion = \"1.0.0\"\n"), Err(ManifestError::MissingName));
}

#[test]
fn missing_version_is_reported() {
    assert_eq!(read_package_metadata("[package]\nname = \"svc\"\n"), Err(ManifestError::MissingVersion));
}

#[test]
fn empty_manifest_lacks_a_name() {
    assert_eq!(read_package_metadata(""), Err(ManifestError::MissingName));
}

#[test]
fn non_ascii_values_are_kept() {
    let text = "name = \"caf\u{e9}\"\nversion = \"1.0.0-\u{3b2}\"\n";
    assert_eq!(read_package_metadata(text), Ok(meta("caf\u{e9}", "1.0.0-\u{3b2}")));
}
