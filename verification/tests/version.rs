use smarthome_sdk_rs::version::{decide_compatibility, is_compatible, is_server_compatible};
use smarthome_sdk_rs::{Error, SERVER_VERSION_REQUIREMENT};

fn parse_failure(r: Result<bool, Error>) -> String {
    match r {
        Err(Error::VersionParse(cause)) => cause,
        other => panic!("expected a parse failure, got {:?}", other),
    }
}

#[test]
fn the_required_range_is_fixed() {
    assert_eq!(SERVER_VERSION_REQUIREMENT, ">=0.4.0");
}

#[test]
fn lower_bound_is_inside_the_range() {
    assert!(matches!(is_compatible(">=0.4.0", "0.4.0"), Ok(true)));
}

#[test]
fn below_the_lower_bound_is_outside() {
    assert!(matches!(is_compatible(">=0.4.0", "0.3.9"), Ok(false)));
}

#[test]
fn malformed_version_is_a_parse_failure() {
    assert_eq!(
        parse_failure(is_compatible(">=0.4.0", "0.4")),
        "unexpected end of input while parsing minor version number"
    );
    assert_eq!(
        parse_failure(is_compatible(">=0.4.0", "")),
        "empty string, expected a semver version"
    );
    assert_eq!(
        parse_failure(is_compatible(">=0.4.0", "1.q.r")),
        "unexpected character 'q' while parsing minor version number"
    );
    assert!(matches!(is_compatible(">=0.4.0", "v0.4.0"), Err(Error::VersionParse(_))));
    assert!(matches!(is_compatible(">=0.4.0", "0.4.00"), Err(Error::VersionParse(_))));
}

#[test]
fn malformed_range_is_a_parse_failure() {
    assert!(matches!(is_compatible("@1.0.0", "1.0.0"), Err(Error::VersionParse(_))));
    assert!(matches!(is_compatible(">=1.0 <2.0", "1.0.0"), Err(Error::VersionParse(_))));
    assert!(matches!(is_compatible("*.*", "1.0.0"), Err(Error::VersionParse(_))));
}

#[test]
fn the_failure_of_the_range_comes_first() {
    let both = parse_failure(is_compatible("@1.0.0", "not a version"));
    let range_only = parse_failure(is_compatible("@1.0.0", "1.0.0"));
    assert_eq!(both, range_only);
}

#[test]
fn precedence_goes_by_major_minor_patch() {
    assert!(matches!(is_compatible(">=0.4.0", "0.4.1"), Ok(true)));
    assert!(matches!(is_compatible(">=0.4.0", "0.10.0"), Ok(true)));
    assert!(matches!(is_compatible(">=0.4.0", "1.0.0"), Ok(true)));
    assert!(matches!(is_compatible(">=0.4.0", "0.0.99"), Ok(false)));
    assert!(matches!(is_compatible("^0.4.0", "0.4.7"), Ok(true)));
    assert!(matches!(is_compatible("^0.4.0", "0.5.0"), Ok(false)));
    assert!(matches!(is_compatible("^1.2.3", "1.9.0"), Ok(true)));
    assert!(matches!(is_compatible("^1.2.3", "2.0.0"), Ok(false)));
    assert!(matches!(is_compatible(">=0.4.0, <0.6.0", "0.5.9"), Ok(true)));
    assert!(matches!(is_compatible(">=0.4.0, <0.6.0", "0.6.0"), Ok(false)));
}

#[test]
fn pre_releases_are_outside_unless_asked_for() {
    assert!(matches!(is_compatible(">=0.4.0", "0.5.0-beta.1"), Ok(false)));
    assert!(matches!(is_compatible(">=0.4.0", "0.4.0-rc.1"), Ok(false)));
    assert!(matches!(is_compatible(">=0.4.0-rc.1", "0.4.0-rc.2"), Ok(true)));
    assert!(matches!(is_compatible(">=0.4.0", "0.4.0+build.5"), Ok(true)));
}

#[test]
fn the_server_is_held_to_the_fixed_range() {
    assert!(matches!(is_server_compatible("0.4.0"), Ok(true)));
    assert!(matches!(is_server_compatible("0.9.3"), Ok(true)));
    assert!(matches!(is_server_compatible("0.3.9"), Ok(false)));
    assert!(matches!(is_server_compatible("0.3"), Err(Error::VersionParse(_))));
}

#[test]
fn the_decision_follows_the_two_readings() {
    let range = || semver::VersionReq::parse(">=0.4.0").map_err(|e| e.to_string());
    let version = |text: &str| semver::Version::parse(text).map_err(|e| e.to_string());
    assert!(matches!(decide_compatibility(range(), version("0.4.0")), Ok(true)));
    assert!(matches!(decide_compatibility(range(), version("0.1.0")), Ok(false)));
    assert_eq!(
        parse_failure(decide_compatibility(Err("range".to_string()), version("0.4.0"))),
        "range"
    );
    assert_eq!(
        parse_failure(decide_compatibility(range(), Err("version".to_string()))),
        "version"
    );
    assert_eq!(
        parse_failure(decide_compatibility(Err("range".to_string()), Err("version".to_string()))),
        "range"
    );
}
