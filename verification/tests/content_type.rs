use arkiv_sdk::entity::content_type::mime::Mime as ConstMime;
use arkiv_sdk::entity::content_type::{ContentType, Error};

#[test]
fn control() {
    const CONTROL_CONTENT_TYPE: &str = r#"application/json; version="1";mode=debug"#;

    // checked when made
    let _control: ConstMime = ConstMime::new(CONTROL_CONTENT_TYPE);

    // runtime checks
    assert!(ContentType::try_from(CONTROL_CONTENT_TYPE).is_ok());

    // parsed mime compatibility
    let mime: mime::Mime = "application/json".parse().unwrap();
    assert!(ContentType::try_from(mime.to_string()).is_ok());
}

#[test]
fn length_exceeded() {
    let valid_mime_length_exceeded = ConstMime::new(
        "application/vnd.example.super-long-custom-format+json;version=42;mode=fast;region=us-west-2;retry=5;debug=true;feature=experimental",
    );
    assert_eq!(
        ContentType::validate_source(valid_mime_length_exceeded.source()).err(),
        Some(Error::LengthExceeded)
    );
}

#[test]
fn missing_type_subtype_separator() {
    assert_eq!(
        ConstMime::validate_source("applicationjson;version=1").err(),
        Some(Error::MissingTypeSeparator)
    );
}

#[test]
fn missing_type() {
    assert_eq!(
        ConstMime::validate_source("/json;version=1").err(),
        Some(Error::MissingType)
    );
}

#[test]
fn invalid_type_char() {
    assert_eq!(
        ConstMime::validate_source("applic@tion/json;version=1").err(),
        Some(Error::InvalidTypeChar)
    );
}

#[test]
fn missing_subtype() {
    assert_eq!(
        ConstMime::validate_source("application/;version=1").err(),
        Some(Error::MissingSubtype)
    );
}

#[test]
fn invalid_subtype_char() {
    assert_eq!(
        ConstMime::validate_source("application/custom@json;version=1").err(),
        Some(Error::InvalidSubtypeChar)
    );
    assert_eq!(
        ConstMime::validate_source("application/json ;version=1").err(),
        Some(Error::InvalidSubtypeChar)
    );
}

#[test]
fn missing_parameter_separator() {
    assert_eq!(
        ConstMime::validate_source("application/jsonversion=1").err(),
        Some(Error::MissingParameterSeparator)
    );
    assert_eq!(
        ConstMime::validate_source("application/jsonversion=1").err(),
        Some(Error::MissingParameterSeparator)
    );
    assert_eq!(
        ConstMime::validate_source("application/jsonversion=1;mode=debug").err(),
        Some(Error::MissingParameterSeparator)
    );
}

#[test]
fn invalid_parameter_key() {
    assert_eq!(
        ConstMime::validate_source("application/json;versi@n=1").err(),
        Some(Error::InvalidParameterKey)
    );
}

#[test]
fn missing_parameter_assignment() {
    assert_eq!(
        ConstMime::validate_source("application/json;version1").err(),
        Some(Error::MissingParameterAssignment)
    );
}

#[test]
fn invalid_parameter_value() {
    assert_eq!(
        ConstMime::validate_source("application/json;version=1@").err(),
        Some(Error::InvalidParameterValue)
    );
}

#[test]
fn valid_sources_are_accepted() {
    assert_eq!(ConstMime::validate_source("text/plain"), Ok(()));
    assert_eq!(ConstMime::validate_source("application/json;charset=utf-8"), Ok(()));
    assert_eq!(ConstMime::validate_source(r#"text/plain; a="b""#), Ok(()));
    assert_eq!(ConstMime::validate_source("a/b;  k=v;x=y"), Ok(()));
}

#[test]
fn too_many_quotes_in_a_value() {
    assert_eq!(
        ConstMime::validate_source(r#"a/b;k=""""#).err(),
        Some(Error::InvalidParameterValue)
    );
    assert_eq!(ConstMime::validate_source(r#"a/b;k=x""#), Ok(()));
}

#[test]
fn empty_parameter_value_and_key() {
    assert_eq!(
        ConstMime::validate_source("a/b;k=;x=y").err(),
        Some(Error::InvalidParameterValue)
    );
    assert_eq!(
        ConstMime::validate_source("a/b;=v").err(),
        Some(Error::MissingParameterAssignment)
    );
}

#[test]
fn content_type_length_limit() {
    let at_limit = format!("a/{}", "b".repeat(126));
    assert!(ContentType::try_from(at_limit.as_str()).is_ok());
    let over_limit = format!("a/{}", "b".repeat(127));
    assert_eq!(ContentType::try_from(over_limit).err(), Some(Error::LengthExceeded));
    assert_eq!(ContentType::validate_source(&"a".repeat(129)), Err(Error::LengthExceeded));
    assert_eq!(ContentType::validate_source(""), Ok(()));
}

#[test]
fn content_type_keeps_its_source() {
    let c = ContentType::new("text/plain");
    assert_eq!(c.source(), "text/plain");
    let m = ConstMime::new("application/json");
    assert_eq!(m.source(), "application/json");
    let from_mime = ContentType::from_mime(m);
    assert_eq!(from_mime.source(), "application/json");
}

#[test]
fn error_messages() {
    assert_eq!(
        Error::LengthExceeded.as_static_str(),
        "`ContentType` exceeds maximum length of `[char; 128]`."
    );
    assert_eq!(
        Error::MissingParameterSeparator.as_static_str(),
        "`ContentType` invalid parameter separator, expected ';'."
    );
}

#[test]
fn content_type_length_counts_characters() {
    let two_byte = "é".repeat(65);
    assert!(two_byte.len() > 128);
    assert_eq!(ContentType::validate_source(&two_byte), Ok(()));
    assert_eq!(ContentType::validate_source(&"é".repeat(128)), Ok(()));
    assert_eq!(ContentType::validate_source(&"é".repeat(129)), Err(Error::LengthExceeded));
}

#[test]
fn content_type_validates_the_mime_grammar() {
    assert_eq!(
        ContentType::try_from("applicationjson").err(),
        Some(Error::MissingTypeSeparator)
    );
    assert_eq!(
        ContentType::try_from("text/pl@in".to_string()).err(),
        Some(Error::InvalidSubtypeChar)
    );
    let long_and_bad = "x".repeat(200);
    assert_eq!(ContentType::try_from(long_and_bad.as_str()).err(), Some(Error::LengthExceeded));
    assert!(ContentType::new("text/plain").validate().is_ok());
    assert_eq!(ContentType::new("/plain").validate().err(), Some(Error::MissingType));
}

#[test]
fn mime_sources_ending_early() {
    assert_eq!(ConstMime::validate_source("a/b;").err(), Some(Error::MissingParameterAssignment));
    assert_eq!(ConstMime::validate_source("a/b; ").err(), Some(Error::MissingParameterAssignment));
    assert_eq!(ConstMime::validate_source("a/b;k=").err(), Some(Error::InvalidParameterValue));
    assert_eq!(ConstMime::validate_source("a/b;k=\"").err(), Some(Error::InvalidParameterValue));
    assert_eq!(ConstMime::validate_source("a/b;k=v;").err(), Some(Error::MissingParameterAssignment));
}
