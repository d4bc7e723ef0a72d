//! Which versions of the server this library can talk to.

use crate::errors::Error;
use crate::SERVER_VERSION_REQUIREMENT;
use vstd::prelude::*;

verus! {

#[verifier::external_type_specification]
#[verifier::external_body]
pub struct ExVersion(semver::Version);

#[verifier::external_type_specification]
#[verifier::external_body]
pub struct ExVersionReq(semver::VersionReq);

/// What `semver::Version::parse` makes of a text: the version it reads, or
/// its complaint where the text is no semantic version.
pub uninterp spec fn parsed_version(text: Seq<char>) -> Result<semver::Version, Seq<char>>;

/// What `semver::VersionReq::parse` makes of a text: the range it reads, or
/// its complaint where the text is no range of versions.
pub uninterp spec fn parsed_range(text: Seq<char>) -> Result<semver::VersionReq, Seq<char>>;

/// What `semver::VersionReq::matches` answers: whether the version lies in
/// the range.
pub uninterp spec fn range_admits(range: semver::VersionReq, version: semver::Version) -> bool;

/// Calls `semver::Version::parse` and, where it fails, formats its error.
/// The result is the named reading of the text.
#[verifier::external_body]
fn parse_version(text: &str) -> (r: Result<semver::Version, String>)
    ensures
        match r {
            Ok(version) => parsed_version(text@) == Ok::<semver::Version, Seq<char>>(version),
            Err(cause) => parsed_version(text@) == Err::<semver::Version, Seq<char>>(cause@),
        },
{
    match semver::Version::parse(text) {
        Ok(version) => Ok(version),
        Err(error) => Err(format!("{}", error)),
    }
}

/// Calls `semver::VersionReq::parse` and, where it fails, formats its
/// error. The result is the named reading of the text.
#[verifier::external_body]
fn parse_range(text: &str) -> (r: Result<semver::VersionReq, String>)
    ensures
        match r {
            Ok(range) => parsed_range(text@) == Ok::<semver::VersionReq, Seq<char>>(range),
            Err(cause) => parsed_range(text@) == Err::<semver::VersionReq, Seq<char>>(cause@),
        },
{
    match semver::VersionReq::parse(text) {
        Ok(range) => Ok(range),
        Err(error) => Err(format!("{}", error)),
    }
}

/// Calls `semver::VersionReq::matches`.
#[verifier::external_body]
fn matches_range(range: &semver::VersionReq, version: &semver::Version) -> (b: bool)
    ensures
        b == range_admits(*range, *version),
{
    range.matches(version)
}

/// What the server says of itself.
#[derive(Debug, Clone)]
pub struct VersionResponse {
    pub smarthome_version: String,
    pub go_version: String,
}

/// Whether a server of version `server_version` satisfies the range
/// `required_range`, given what the two texts parse to: the range is read
/// first, and its failure wins over that of the version.
pub open spec fn compatibility(
    range: Result<semver::VersionReq, Seq<char>>,
    version: Result<semver::Version, Seq<char>>,
) -> Result<bool, Seq<char>> {
    match (range, version) {
        (Err(cause), _) => Err(cause),
        (Ok(_), Err(cause)) => Err(cause),
        (Ok(r), Ok(v)) => Ok(range_admits(r, v)),
    }
}

/// Decides, from the two readings, whether the version lies in the range.
pub fn decide_compatibility(
    range: Result<semver::VersionReq, String>,
    version: Result<semver::Version, String>,
) -> (r: Result<bool, Error>)
    ensures
        match r {
            Ok(b) => range is Ok && version is Ok && b == range_admits(range->Ok_0, version->Ok_0),
            Err(Error::VersionParse(cause)) => (range is Err && cause == range->Err_0) || (range is Ok
                && version is Err && cause == version->Err_0),
            Err(_) => false,
        },
{
    match range {
        Err(cause) => Err(Error::VersionParse(cause)),
        Ok(r) => match version {
            Err(cause) => Err(Error::VersionParse(cause)),
            Ok(v) => Ok(matches_range(&r, &v)),
        },
    }
}

/// Whether a server of version `server_version` satisfies the range
/// `required_range`, under the precedence rules of semantic versioning.
/// Fails with `VersionParse` where either text cannot be parsed, and never
/// answers `true` or `false` for such a text.
pub fn is_compatible(required_range: &str, server_version: &str) -> (r: Result<bool, Error>)
    ensures
        match r {
            Ok(b) => compatibility(parsed_range(required_range@), parsed_version(server_version@))
                == Ok::<bool, Seq<char>>(b),
            Err(Error::VersionParse(cause)) => compatibility(
                parsed_range(required_range@),
                parsed_version(server_version@),
            ) == Err::<bool, Seq<char>>(cause@),
            Err(_) => false,
        },
{
    decide_compatibility(parse_range(required_range), parse_version(server_version))
}

/// Whether this library can talk to a server of version `server_version`:
/// whether that version lies in `SERVER_VERSION_REQUIREMENT`.
pub fn is_server_compatible(server_version: &str) -> (r: Result<bool, Error>)
    ensures
        match r {
            Ok(b) => compatibility(
                parsed_range(SERVER_VERSION_REQUIREMENT@),
                parsed_version(server_version@),
            ) == Ok::<bool, Seq<char>>(b),
            Err(Error::VersionParse(cause)) => compatibility(
                parsed_range(SERVER_VERSION_REQUIREMENT@),
                parsed_version(server_version@),
            ) == Err::<bool, Seq<char>>(cause@),
            Err(_) => false,
        },
{
    is_compatible(SERVER_VERSION_REQUIREMENT, server_version)
}

} // verus!
