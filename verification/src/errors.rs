//! What can go wrong between this library and the server, and how each
//! failure is explained to a reader.

use crate::SERVER_VERSION_REQUIREMENT;
use vstd::prelude::*;
use vstd::string::StringExecFns;

verus! {

#[verifier::external_type_specification]
#[verifier::external_body]
pub struct ExUrlParseError(url::ParseError);

#[verifier::external_type_specification]
#[verifier::external_body]
pub struct ExStatusCode(reqwest::StatusCode);

/// The number of an HTTP status, as `StatusCode::as_u16` gives it.
pub uninterp spec fn status_number(status: reqwest::StatusCode) -> u16;

/// The text that `StatusCode` shows itself as: its number and the usual
/// name of that status.
pub uninterp spec fn status_line(status: reqwest::StatusCode) -> Seq<char>;

/// The text that a `url::ParseError` shows itself as.
pub uninterp spec fn url_error_line(error: url::ParseError) -> Seq<char>;

/// `StatusCode::as_u16` returns the number of the status.
pub assume_specification[ reqwest::StatusCode::as_u16 ](status: &reqwest::StatusCode) -> (n: u16)
    ensures
        n == status_number(*status),
;

/// Formats a `StatusCode` by its `Display`: the result is the status's own
/// text.
#[verifier::external_body]
fn status_text(status: &reqwest::StatusCode) -> (r: String)
    ensures
        r@ == status_line(*status),
{
    format!("{}", status)
}

/// Formats a `url::ParseError` by its `Display`: the result is the error's
/// own text.
#[verifier::external_body]
fn url_error_text(error: &url::ParseError) -> (r: String)
    ensures
        r@ == url_error_line(*error),
{
    format!("{}", error)
}

/// A failure of a call to the server.
#[derive(Debug)]
pub enum Error {
    /// A URL could not be parsed or joined.
    UrlParse(url::ParseError),
    /// The request did not get through: a failure below HTTP, with its
    /// cause in words.
    Transport(String),
    /// The server answered, but the body was not what it should be; with
    /// the cause in words.
    Decode(String),
    /// The server answered with a status that the call does not accept.
    Smarthome(reqwest::StatusCode),
    /// A semantic version or range could not be parsed; with the parser's
    /// complaint.
    VersionParse(String),
    /// The server runs a version that this library cannot talk to.
    IncompatibleVersion(String),
}

impl From<url::ParseError> for Error {
    fn from(reason: url::ParseError) -> (r: Self) {
        Error::UrlParse(reason)
    }
}

impl vstd::std_specs::convert::FromSpecImpl<url::ParseError> for Error {
    open spec fn obeys_from_spec() -> bool {
        true
    }

    open spec fn from_spec(reason: url::ParseError) -> Self {
        Error::UrlParse(reason)
    }
}

/// What a status usually means and what the user can do about it.
pub open spec fn spec_status_advice(number: u16) -> Seq<char> {
    if number == 401 {
        "Login failed: invalid credentials\n => Validate your credentials"@
    } else if number == 403 {
        "Access to this resource has been denied.\n => You are possibly lacking permission to access the requested resource"@
    } else if number == 503 {
        "Smarthome is currently unavailable\n => The server has significant issues and was unable to respond properly"@
    } else if number == 409 {
        "The requested action conflicts with other data on the system\n => Identify those conflicts and repeat the current action"@
    } else {
        "Unimplemented status code: please open an issue on Github here: (https://github.com/smarthome-go/sdk-rs)"@
    }
}

/// What a status usually means and what the user can do about it. The
/// text is advice for a reader; no decision of the library rests on it.
pub fn status_advice(number: u16) -> (r: &'static str)
    ensures
        r@ == spec_status_advice(number),
{
    if number == 401 {
        "Login failed: invalid credentials\n => Validate your credentials"
    } else if number == 403 {
        "Access to this resource has been denied.\n => You are possibly lacking permission to access the requested resource"
    } else if number == 503 {
        "Smarthome is currently unavailable\n => The server has significant issues and was unable to respond properly"
    } else if number == 409 {
        "The requested action conflicts with other data on the system\n => Identify those conflicts and repeat the current action"
    } else {
        "Unimplemented status code: please open an issue on Github here: (https://github.com/smarthome-go/sdk-rs)"
    }
}

impl Error {
    /// The explanation of the failure, for every failure that has one.
    pub open spec fn spec_message(&self) -> Seq<char>
        recommends
            !(self is VersionParse),
    {
        match self {
            Error::UrlParse(e) => "Could not parse URL: "@ + url_error_line(*e),
            Error::Transport(cause) => "Request error: "@ + cause@,
            Error::Decode(cause) => "Request error: "@ + cause@,
            Error::Smarthome(status) => "Smarthome error ("@ + status_line(*status) + "):\n"@
                + spec_status_advice(status_number(*status)),
            Error::VersionParse(_) => Seq::<char>::empty(),
            Error::IncompatibleVersion(version) =>
                "Incompatible server version: the server version is `"@ + version@
                + "` but this program requires `"@ + SERVER_VERSION_REQUIREMENT@ + "`"@,
        }
    }

    /// Explains the failure in a paragraph for a human reader.
    ///
    /// A version that cannot be parsed is a fault of this library, not of
    /// its user, and has no explanation to give: the caller must not ask
    /// for one.
    pub fn message(&self) -> (r: String)
        requires
            !(self is VersionParse),
        ensures
            r@ == self.spec_message(),
    {
        let mut out = String::new();
        match self {
            Error::UrlParse(e) => {
                out.append("Could not parse URL: ");
                out.append(url_error_text(e).as_str());
            },
            Error::Transport(cause) => {
                out.append("Request error: ");
                out.append(cause.as_str());
            },
            Error::Decode(cause) => {
                out.append("Request error: ");
                out.append(cause.as_str());
            },
            Error::Smarthome(status) => {
                out.append("Smarthome error (");
                out.append(status_text(status).as_str());
                out.append("):\n");
                out.append(status_advice(status.as_u16()));
            },
            Error::VersionParse(_) => {},
            Error::IncompatibleVersion(version) => {
                out.append("Incompatible server version: the server version is `");
                out.append(version.as_str());
                out.append("` but this program requires `");
                out.append(SERVER_VERSION_REQUIREMENT);
                out.append("`");
            },
        }
        assert(out@ =~= self.spec_message());
        out
    }
}

} // verus!
