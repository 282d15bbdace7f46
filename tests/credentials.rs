use smite_api::credentials::Credentials;
use smite_api::error::ApiError;

#[test]
fn credentials_read_from_json() {
    let c = Credentials::from_json(r#"{"dev_id":"1004","token":"SECRET-REDACTED"}"#).unwrap();
    assert_eq!(c.dev_id, "1004");
    assert_eq!(c.token, "SECRET-REDACTED");
}

#[test]
fn credentials_missing_or_bad_fields_fail() {
    for text in [
        r#"{"dev_id":"1004"}"#,
        r#"{"token":"abc"}"#,
        r#"{"dev_id":1004,"token":"abc"}"#,
        "not json",
        "",
    ] {
        assert_eq!(Credentials::from_json(text).unwrap_err(), ApiError::CredentialRead);
    }
}
