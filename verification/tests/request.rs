use reqwest::StatusCode;
use smarthome_sdk_rs::request::{build_request, expect_ok, expect_script_result};
use smarthome_sdk_rs::{Auth, Error, Method, User, HTTP_USER_AGENT};

fn base(text: &str) -> url::Url {
    url::Url::parse(text).unwrap()
}

fn user() -> User {
    User { username: "alice".to_string(), password: "s3cret&more".to_string() }
}

fn pair(name: &str, value: &str) -> (String, String) {
    (name.to_string(), value.to_string())
}

#[test]
fn no_credentials_add_no_query() {
    let r = build_request::<()>(&base("http://box.local"), &Auth::NoAuth, Method::Get, "/api/debug", None)
        .unwrap();
    assert!(r.query.is_empty());
    assert_eq!(r.url.as_str(), "http://box.local/api/debug");
    assert_eq!(r.method, Method::Get);
    assert!(r.body.is_none());
    assert_eq!(r.user_agent, "smarthome-sdk-rs/0.1.0");
    assert_eq!(r.user_agent, HTTP_USER_AGENT);
}

#[test]
fn password_by_query_adds_name_and_password() {
    let auth = Auth::QueryPassword(user());
    let r = build_request::<()>(&base("http://box.local"), &auth, Method::Get, "/api/debug", None)
        .unwrap();
    assert_eq!(r.query, vec![pair("username", "alice"), pair("password", "s3cret&more")]);
    assert_eq!(r.url.as_str(), "http://box.local/api/debug");
}

#[test]
fn token_by_query_adds_the_token() {
    let auth = Auth::QueryToken("t0ken".to_string());
    let r = build_request::<()>(&base("http://box.local"), &auth, Method::Get, "/api/debug", None)
        .unwrap();
    assert_eq!(r.query, vec![pair("token", "t0ken")]);
}

#[test]
fn session_strategies_add_no_query() {
    for auth in [Auth::SessionPassword(user()), Auth::SessionToken("t0ken".to_string())] {
        let r = build_request::<()>(&base("http://box.local"), &auth, Method::Post, "/api/x", None)
            .unwrap();
        assert!(r.query.is_empty());
        assert_eq!(r.url.query(), None);
    }
}

#[test]
fn the_path_replaces_that_of_the_base() {
    let r = build_request::<()>(
        &base("https://box.local:8123/some/where?x=1#top"),
        &Auth::NoAuth,
        Method::Get,
        "/api/version",
        None,
    )
    .unwrap();
    assert_eq!(r.url.as_str(), "https://box.local:8123/api/version");
}

#[test]
fn the_body_goes_through_unchanged() {
    let r = build_request(
        &base("http://box.local"),
        &Auth::NoAuth,
        Method::Put,
        "/api/x",
        Some(vec![1u8, 2, 3]),
    )
    .unwrap();
    assert_eq!(r.body, Some(vec![1u8, 2, 3]));
    assert_eq!(r.method, Method::Put);
}

#[test]
fn a_path_that_cannot_be_joined_is_a_url_failure() {
    let r = build_request::<()>(&base("mailto:someone@box.local"), &Auth::NoAuth, Method::Get, "/api/debug", None);
    match r {
        Err(Error::UrlParse(reason)) => {
            assert_eq!(reason, url::ParseError::RelativeUrlWithCannotBeABaseBase)
        }
        other => panic!("expected a URL failure, got {:?}", other),
    }
    let r = build_request::<()>(&base("http://box.local"), &Auth::NoAuth, Method::Get, "http://[::1", None);
    assert!(matches!(r, Err(Error::UrlParse(_))));
}

#[test]
fn only_200_is_ok() {
    assert!(expect_ok(StatusCode::OK).is_ok());
    for status in [
        StatusCode::CREATED,
        StatusCode::NO_CONTENT,
        StatusCode::UNAUTHORIZED,
        StatusCode::INTERNAL_SERVER_ERROR,
        StatusCode::SERVICE_UNAVAILABLE,
    ] {
        match expect_ok(status) {
            Err(Error::Smarthome(s)) => assert_eq!(s, status),
            other => panic!("expected the status back, got {:?}", other),
        }
    }
}

#[test]
fn a_script_result_may_come_with_500() {
    assert!(expect_script_result(StatusCode::OK).is_ok());
    assert!(expect_script_result(StatusCode::INTERNAL_SERVER_ERROR).is_ok());
    for status in [StatusCode::NO_CONTENT, StatusCode::FORBIDDEN, StatusCode::BAD_GATEWAY] {
        match expect_script_result(status) {
            Err(Error::Smarthome(s)) => assert_eq!(s, status),
            other => panic!("expected the status back, got {:?}", other),
        }
    }
}
