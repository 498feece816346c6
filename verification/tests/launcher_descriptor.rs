//! Tests of the packaging-descriptor reader.

use theseus::error::Error;
use theseus::launcher::read_package_json;

#[test]
fn reads_the_version_out_of_a_valid_descriptor() {
    let launcher = read_package_json("{\"version\": \"0.7.1\"}")
        .expect("a descriptor with a version string decodes");
    assert_eq!(launcher.version, "0.7.1");
}

#[test]
fn reads_the_version_among_other_fields() {
    let content = "{\"productName\": \"launcher\", \"version\": \"1.2.3\", \"identifier\": \"x\"}";
    let launcher = read_package_json(content).expect("the version field is found");
    assert_eq!(launcher.version, "1.2.3");
}

#[test]
fn invalid_text_fails_with_deserialization_error() {
    assert!(matches!(
        read_package_json("not a descriptor"),
        Err(Error::DeserializationError)
    ));
}

#[test]
fn missing_version_field_fails_with_deserialization_error() {
    assert!(matches!(
        read_package_json("{\"productName\": \"launcher\"}"),
        Err(Error::DeserializationError)
    ));
}

#[test]
fn non_string_version_fails_with_deserialization_error() {
    assert!(matches!(
        read_package_json("{\"version\": 7}"),
        Err(Error::DeserializationError)
    ));
}
