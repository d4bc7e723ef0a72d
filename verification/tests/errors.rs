use reqwest::StatusCode;
use smarthome_sdk_rs::errors::status_advice;
use smarthome_sdk_rs::Error;

#[test]
fn advice_for_the_known_statuses() {
    assert_eq!(
        status_advice(401),
        "Login failed: invalid credentials\n => Validate your credentials"
    );
    assert_eq!(
        status_advice(403),
        "Access to this resource has been denied.\n => You are possibly lacking permission to access the requested resource"
    );
    assert_eq!(
        status_advice(503),
        "Smarthome is currently unavailable\n => The server has significant issues and was unable to respond properly"
    );
    assert_eq!(
        status_advice(409),
        "The requested action conflicts with other data on the system\n => Identify those conflicts and repeat the current action"
    );
}

#[test]
fn advice_for_any_other_status() {
    let other = "Unimplemented status code: please open an issue on Github here: (https://github.com/smarthome-go/sdk-rs)";
    for number in [0, 100, 200, 204, 400, 402, 404, 408, 410, 500, 502, 504, 999, u16::MAX] {
        assert_eq!(status_advice(number), other);
    }
}

#[test]
fn message_of_a_url_failure_shows_the_reason() {
    let reason = url::Url::parse("no scheme").unwrap_err();
    assert_eq!(
        Error::UrlParse(reason).message(),
        "Could not parse URL: relative URL without a base"
    );
    let reason = url::Url::parse("http://").unwrap_err();
    assert_eq!(Error::UrlParse(reason).message(), "Could not parse URL: empty host");
}

#[test]
fn message_of_a_transport_failure_shows_the_cause() {
    assert_eq!(
        Error::Transport("connection reset".to_string()).message(),
        "Request error: connection reset"
    );
    assert_eq!(
        Error::Decode("error decoding response body".to_string()).message(),
        "Request error: error decoding response body"
    );
}

#[test]
fn message_of_a_status_shows_the_status_and_the_advice() {
    assert_eq!(
        Error::Smarthome(StatusCode::SERVICE_UNAVAILABLE).message(),
        "Smarthome error (503 Service Unavailable):\nSmarthome is currently unavailable\n => The server has significant issues and was unable to respond properly"
    );
    assert_eq!(
        Error::Smarthome(StatusCode::UNAUTHORIZED).message(),
        "Smarthome error (401 Unauthorized):\nLogin failed: invalid credentials\n => Validate your credentials"
    );
    assert_eq!(
        Error::Smarthome(StatusCode::FORBIDDEN).message(),
        "Smarthome error (403 Forbidden):\nAccess to this resource has been denied.\n => You are possibly lacking permission to access the requested resource"
    );
    assert_eq!(
        Error::Smarthome(StatusCode::CONFLICT).message(),
        "Smarthome error (409 Conflict):\nThe requested action conflicts with other data on the system\n => Identify those conflicts and repeat the current action"
    );
    assert_eq!(
        Error::Smarthome(StatusCode::NOT_FOUND).message(),
        "Smarthome error (404 Not Found):\nUnimplemented status code: please open an issue on Github here: (https://github.com/smarthome-go/sdk-rs)"
    );
}

#[test]
fn message_of_an_incompatible_version_shows_both_versions() {
    assert_eq!(
        Error::IncompatibleVersion("0.3.9".to_string()).message(),
        "Incompatible server version: the server version is `0.3.9` but this program requires `>=0.4.0`"
    );
}

#[test]
fn a_url_failure_converts_into_an_error() {
    let reason = url::Url::parse("http://[::1").unwrap_err();
    match Error::from(reason) {
        Error::UrlParse(kept) => assert_eq!(kept, reason),
        other => panic!("expected a URL failure, got {:?}", other),
    }
}
