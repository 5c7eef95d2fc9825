use fred_releases::fetch::{handle_response, process_body, BodyError, ResponseAction};
use fred_releases::request::{build_url, plan_request, ConfigError};
use fred_releases::status::{classify_status, StatusClass};

#[test]
fn test_write_json_to_file() {
    // The computing half of persisting a body: the text written to the
    // artifact is the whole parsed value re-serialized, not the raw input.
    let body = "{ \"a\" : 1 }";
    let out = process_body(body).unwrap();
    assert_eq!(out.file_text, "{\"a\":1}");
    let original: serde_json::Value = serde_json::from_str(body).unwrap();
    let written: serde_json::Value = serde_json::from_str(&out.file_text).unwrap();
    assert_eq!(written, original);
}

#[test]
fn classify_status_covers_all_codes() {
    assert_eq!(classify_status(200), StatusClass::Success);
    assert_eq!(classify_status(401), StatusClass::Unauthorized);
    assert_eq!(classify_status(404), StatusClass::Unexpected);
    assert_eq!(classify_status(500), StatusClass::Unexpected);
    assert_eq!(classify_status(0), StatusClass::Unexpected);
}

#[test]
fn missing_credential_is_config_error() {
    assert_eq!(plan_request(None), Err(ConfigError::MissingCredential));
}

#[test]
fn empty_credential_is_config_error() {
    assert_eq!(
        plan_request(Some(String::new())),
        Err(ConfigError::MissingCredential)
    );
}

#[test]
fn url_interpolates_credential_into_template() {
    assert_eq!(
        build_url("abc"),
        "https://api.stlouisfed.org/fred/releases?api_key=abc&file_type=json&limit=3"
    );
    let planned = plan_request(Some(String::from("k1"))).unwrap();
    assert_eq!(
        planned,
        "https://api.stlouisfed.org/fred/releases?api_key=k1&file_type=json&limit=3"
    );
}

#[test]
fn success_response_round_trips() {
    let body = "{\"releases\":[{\"id\":1}]}";
    match handle_response(200, body) {
        ResponseAction::Write(out) => {
            let original: serde_json::Value = serde_json::from_str(body).unwrap();
            let written: serde_json::Value = serde_json::from_str(&out.file_text).unwrap();
            assert_eq!(written, original);
            assert_eq!(out.diagnostic, "[{\"id\":1}]");
        }
        other => panic!("expected a write action, got {:?}", other),
    }
}

#[test]
fn unauthorized_response_skips_without_output() {
    let action = handle_response(401, "{\"releases\":[]}");
    assert!(matches!(action, ResponseAction::SkipUnauthorized));
}

#[test]
fn unexpected_status_aborts() {
    let action = handle_response(500, "{\"releases\":[]}");
    assert!(matches!(action, ResponseAction::AbortUnexpectedStatus));
    let action = handle_response(404, "");
    assert!(matches!(action, ResponseAction::AbortUnexpectedStatus));
}

#[test]
fn invalid_body_aborts_before_any_write() {
    let action = handle_response(200, "releases: not json");
    assert!(matches!(action, ResponseAction::AbortInvalidBody));
    assert!(matches!(
        process_body("releases: not json"),
        Err(BodyError::InvalidJson)
    ));
}

#[test]
fn second_response_wins() {
    let first = "{\"releases\":[{\"id\":1}]}";
    let second = "{\"releases\":[{\"id\":2},{\"id\":3}]}";
    let out1 = match handle_response(200, first) {
        ResponseAction::Write(out) => out,
        other => panic!("expected a write action, got {:?}", other),
    };
    let out2 = match handle_response(200, second) {
        ResponseAction::Write(out) => out,
        other => panic!("expected a write action, got {:?}", other),
    };
    assert_ne!(out1.file_text, out2.file_text);
    let written: serde_json::Value = serde_json::from_str(&out2.file_text).unwrap();
    let expected: serde_json::Value = serde_json::from_str(second).unwrap();
    assert_eq!(written, expected);
}

#[test]
fn absent_releases_member_is_reported() {
    let out = process_body("{\"other\":true}").unwrap();
    assert_eq!(out.diagnostic, "absent");
}
