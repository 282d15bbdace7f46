use smite_api::credentials::Credentials;
use smite_api::error::ApiError;
use smite_api::session::{complete_session, make_session};
use smite_api::timestamp::Timestamp;

fn now() -> Timestamp {
    Timestamp::new(2023, 1, 1, 12, 0, 30).unwrap()
}

#[test]
fn session_takes_id_and_local_corrected_time() {
    let body = r#"{"id":"abc123","timestamp":"ignored"}"#.to_string();
    let s = complete_session(Some(body), &now()).unwrap();
    assert_eq!(s.id, "abc123");
    assert_eq!(s.timestamp, "20230101120015");
}

#[test]
fn session_correction_borrows_on_the_calendar() {
    let body = r#"{"id":"abc123","timestamp":"ignored","ret_msg":"Approved"}"#.to_string();
    let early = Timestamp::new(2023, 1, 1, 12, 0, 5).unwrap();
    let s = complete_session(Some(body), &early).unwrap();
    assert_eq!(s.timestamp, "20230101115950");
    // The stamp is not what subtracting 15 from the digits as one integer gives.
    let naive = ("20230101120005".parse::<u64>().unwrap() - 15).to_string();
    assert_eq!(naive, "20230101119990");
    assert_ne!(s.timestamp, naive);
}

#[test]
fn transport_failure_gives_transport_error() {
    assert_eq!(complete_session(None, &now()).unwrap_err(), ApiError::Transport);
}

#[test]
fn malformed_body_gives_malformed_response() {
    let e = complete_session(Some("<html>not json".to_string()), &now()).unwrap_err();
    assert_eq!(e, ApiError::MalformedResponse);
    assert_ne!(e, ApiError::Transport);
}

#[test]
fn body_without_expected_fields_is_malformed() {
    for body in [r#"{"timestamp":"x"}"#, r#"{"id":"abc"}"#, r#"{"id":7,"timestamp":"x"}"#, r#"["abc"]"#] {
        assert_eq!(complete_session(Some(body.to_string()), &now()).unwrap_err(), ApiError::MalformedResponse);
    }
}

#[test]
fn session_before_year_zero_is_out_of_range() {
    let body = r#"{"id":"abc123","timestamp":"x"}"#.to_string();
    let t = Timestamp::new(0, 1, 1, 0, 0, 3).unwrap();
    assert_eq!(complete_session(Some(body), &t).unwrap_err(), ApiError::ClockOutOfRange);
}

fn creds() -> Credentials {
    Credentials::new("1004".to_string(), "SECRET-REDACTED".to_string())
}

#[test]
fn make_session_with_stub_transport() {
    let s = make_session(&creds(), |link: &str| {
        assert!(link.contains("/createsessionjson/1004/"));
        Some(r#"{"id":"abc123","timestamp":"ignored"}"#.to_string())
    })
    .unwrap();
    assert_eq!(s.id, "abc123");
    assert_eq!(s.timestamp.len(), 14);
    assert_ne!(s.timestamp, "ignored");
}

#[test]
fn make_session_transport_failure() {
    let r = make_session(&creds(), |_link: &str| None);
    assert_eq!(r.unwrap_err(), ApiError::Transport);
}

#[test]
fn make_session_malformed_body() {
    let r = make_session(&creds(), |_link: &str| Some("{\"id\":".to_string()));
    assert_eq!(r.unwrap_err(), ApiError::MalformedResponse);
}
