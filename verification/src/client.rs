//! The client, and the steps by which one comes to be: the server's
//! version is asked for and checked, then the credentials are tried.

use crate::auth::{Auth, Credential};
use crate::errors::{status_number, Error};
use crate::request::{build_request, is_built, joined_url, Method, Request};
use crate::version::{
    compatibility, is_server_compatible, parsed_range, parsed_version, VersionResponse,
};
use crate::{HTTP_USER_AGENT, SERVER_VERSION_REQUIREMENT};
use vstd::prelude::*;

verus! {

/// What `Url::parse` makes of a text: the URL it reads, or the reason why
/// the text is no absolute URL.
pub uninterp spec fn parsed_url(text: Seq<char>) -> Result<url::Url, url::ParseError>;

/// Calls `Url::parse`. The result is the named reading of the text.
#[verifier::external_body]
fn parse_url(text: &str) -> (r: Result<url::Url, url::ParseError>)
    ensures
        r == parsed_url(text@),
{
    url::Url::parse(text)
}

/// What came of a request: the server's answer, or the reason why there is
/// none.
#[derive(Debug)]
pub enum Reply<B> {
    /// The server answered. `body` is what its payload decodes to, or the
    /// reason why it does not decode. Where the step that takes the answer
    /// says that the body is not to be read, any reason will do: the step
    /// does not look at it.
    Answered { status: reqwest::StatusCode, body: Result<B, String> },
    /// The request failed below HTTP; the cause in words.
    Lost(String),
}

/// What the server answers to a login by token.
#[derive(Debug, Clone)]
pub struct TokenResponse {
    pub username: String,
    pub token_label: String,
}

/// A client that is ready for use. Its server has an acceptable version
/// and has, where the client has credentials, accepted them.
#[derive(Debug)]
pub struct Client {
    auth: Auth,
    smarthome_url: url::Url,
    smarthome_version: VersionResponse,
    username: Option<String>,
}

impl Client {
    pub closed spec fn spec_auth(&self) -> Auth {
        self.auth
    }

    pub closed spec fn spec_url(&self) -> url::Url {
        self.smarthome_url
    }

    pub closed spec fn spec_version(&self) -> VersionResponse {
        self.smarthome_version
    }

    /// The name of the user that the client acts as; none for a client
    /// without credentials.
    pub closed spec fn spec_username(&self) -> Option<Seq<char>> {
        match self.username {
            Some(name) => Some(name@),
            None => None,
        }
    }

    /// The way this client authenticates.
    pub fn auth(&self) -> (r: &Auth)
        ensures
            *r == self.spec_auth(),
    {
        &self.auth
    }

    /// The address of the server.
    pub fn smarthome_url(&self) -> (r: &url::Url)
        ensures
            *r == self.spec_url(),
    {
        &self.smarthome_url
    }

    /// What the server said of its version when the client was created.
    pub fn smarthome_version(&self) -> (r: &VersionResponse)
        ensures
            *r == self.spec_version(),
    {
        &self.smarthome_version
    }

    /// The name of the user that the client acts as.
    pub fn username(&self) -> (r: Option<&str>)
        ensures
            match r {
                Some(name) => self.spec_username() == Some(name@),
                None => self.spec_username() is None,
            },
    {
        match &self.username {
            Some(name) => Some(name.as_str()),
            None => None,
        }
    }

    /// The first step towards a client: reads the server's address. Fails
    /// with `UrlParse` exactly where the text is no absolute URL.
    pub fn create(raw_url: &str, auth: Auth) -> (r: Result<Created, Error>)
        ensures
            match parsed_url(raw_url@) {
                Ok(url) => r matches Ok(state) && state.spec_url() == url && state.spec_auth()
                    == auth,
                Err(reason) => r matches Err(Error::UrlParse(e)) && e == reason,
            },
    {
        match parse_url(raw_url) {
            Ok(url) => Ok(Created { base: url, auth }),
            Err(reason) => Err(Error::UrlParse(reason)),
        }
    }
}

/// The state of a client in the making whose server has not been asked
/// for its version yet, or has not answered yet.
#[derive(Debug)]
pub struct Created {
    base: url::Url,
    auth: Auth,
}

/// The state of a client in the making whose server has an acceptable
/// version.
#[derive(Debug)]
pub struct VersionChecked {
    base: url::Url,
    auth: Auth,
    version: VersionResponse,
}

/// The state of a client in the making that has sent its credentials and
/// waits for the server's verdict. A client without credentials is never in
/// this state.
#[derive(Debug)]
pub struct LoggingIn {
    base: url::Url,
    auth: Auth,
    version: VersionResponse,
}

/// Where a client in the making goes once the version is checked.
#[derive(Debug)]
pub enum Next {
    /// The client is ready: it has no credentials to try.
    Ready(Client),
    /// The credentials are to be tried: send the request, and hand the
    /// answer to the state.
    Login(LoggingIn, Request<Credential>),
}

/// Whether `r` is where the verdict on the server's version leads from
/// `state`, for a server that describes itself as `version`: on to the next
/// state where `compatible` says that the version is acceptable, to
/// `IncompatibleVersion` where it says that it is not, and to the failure
/// itself where the comparison failed.
pub open spec fn is_version_settled(
    state: Created,
    version: VersionResponse,
    compatible: Result<bool, Error>,
    r: Result<VersionChecked, Error>,
) -> bool {
    match compatible {
        Ok(true) => r matches Ok(next) && next.spec_url() == state.spec_url() && next.spec_auth()
            == state.spec_auth() && next.spec_version() == version,
        Ok(false) => r matches Err(Error::IncompatibleVersion(reported)) && reported
            == version.smarthome_version,
        Err(failure) => r == Err::<VersionChecked, Error>(failure),
    }
}

/// Whether a status says that the request succeeded: whether its number
/// lies in 200 to 299.
pub open spec fn is_success(status: reqwest::StatusCode) -> bool {
    200 <= status_number(status) <= 299
}

/// Whether a status is one that the server accepts a login with: 200 or
/// 204.
pub open spec fn is_login_accepted(status: reqwest::StatusCode) -> bool {
    status_number(status) == 200 || status_number(status) == 204
}

/// Whether `r` is where the answer to the version request leads from
/// `state`.
///
/// A request that got no answer fails as `Transport`. An answer with a
/// status outside 200 to 299 fails as `Smarthome` with that status,
/// whatever its body holds. A body that does not decode fails as `Decode`. Then the version
/// decides: one outside the required range fails as
/// `IncompatibleVersion` with the version reported, one that cannot be
/// parsed as `VersionParse`, and an acceptable one leads on.
pub open spec fn is_version_checked(
    state: Created,
    reply: Reply<VersionResponse>,
    r: Result<VersionChecked, Error>,
) -> bool {
    match reply {
        Reply::Lost(cause) => r matches Err(Error::Transport(c)) && c == cause,
        Reply::Answered { status, body } => if !is_success(status) {
            r matches Err(Error::Smarthome(s)) && s == status
        } else {
            match body {
                Err(cause) => r matches Err(Error::Decode(c)) && c == cause,
                Ok(version) => match compatibility(
                    parsed_range(SERVER_VERSION_REQUIREMENT@),
                    parsed_version(version.smarthome_version@),
                ) {
                    Ok(true) => r matches Ok(next) && next.spec_url() == state.spec_url()
                        && next.spec_auth() == state.spec_auth() && next.spec_version() == version,
                    Ok(false) => r matches Err(Error::IncompatibleVersion(reported)) && reported
                        == version.smarthome_version,
                    Err(cause) => r matches Err(Error::VersionParse(c)) && c@ == cause,
                },
            }
        },
    }
}

impl Created {
    pub closed spec fn spec_url(&self) -> url::Url {
        self.base
    }

    pub closed spec fn spec_auth(&self) -> Auth {
        self.auth
    }

    /// The request that asks the server for its version: a `GET` without
    /// credentials, whatever the client's own.
    pub fn version_request(&self) -> (r: Result<Request<()>, Error>)
        ensures
            is_built(r, self.spec_url(), Auth::NoAuth, Method::Get, "/api/version"@, None),
    {
        build_request(&self.base, &Auth::NoAuth, Method::Get, "/api/version", None)
    }

    /// Whether the body of an answer to the version request is to be read:
    /// whether the status says that the request succeeded. The body of any
    /// other answer is never looked at.
    pub fn reads_body(&self, status: reqwest::StatusCode) -> (r: bool)
        ensures
            r == is_success(status),
    {
        let number = status.as_u16();
        200 <= number && number <= 299
    }

    /// Moves on, or fails, by the verdict on the server's version.
    pub fn settle_version(self, version: VersionResponse, compatible: Result<bool, Error>) -> (r: Result<
        VersionChecked,
        Error,
    >)
        ensures
            is_version_settled(self, version, compatible, r),
    {
        match compatible {
            Ok(true) => Ok(VersionChecked { base: self.base, auth: self.auth, version }),
            Ok(false) => Err(Error::IncompatibleVersion(version.smarthome_version)),
            Err(failure) => Err(failure),
        }
    }

    /// Takes the answer to the version request and checks the server's
    /// version against the range that this library requires.
    pub fn on_version(self, reply: Reply<VersionResponse>) -> (r: Result<VersionChecked, Error>)
        ensures
            is_version_checked(self, reply, r),
    {
        match reply {
            Reply::Lost(cause) => Err(Error::Transport(cause)),
            Reply::Answered { status, body } => {
                if !self.reads_body(status) {
                    return Err(Error::Smarthome(status));
                }
                match body {
                    Err(cause) => Err(Error::Decode(cause)),
                    Ok(version) => {
                        let compatible = is_server_compatible(version.smarthome_version.as_str());
                        self.settle_version(version, compatible)
                    },
                }
            },
        }
    }
}

/// Whether `r` is where a client in the making goes from `state`.
///
/// Without credentials the client is ready at once, and acts as no user.
/// With credentials it logs in: by a `POST` to the login path of its kind,
/// with the credentials as the body, and as query parameters too where the
/// client's way goes by the query. Where that path cannot be resolved
/// against the server's address, the failure is `UrlParse`.
pub open spec fn is_advanced(state: VersionChecked, r: Result<Next, Error>) -> bool {
    match state.spec_auth().spec_login_path() {
        None => r matches Ok(Next::Ready(client)) && client.spec_auth() == state.spec_auth()
            && client.spec_url() == state.spec_url() && client.spec_version()
            == state.spec_version() && client.spec_username() is None,
        Some(path) => match joined_url(state.spec_url(), path) {
            Ok(url) => r matches Ok(Next::Login(next, request)) && next.spec_auth()
                == state.spec_auth() && next.spec_url() == state.spec_url() && next.spec_version()
                == state.spec_version() && request.method == Method::Post && request.url == url
                && request.spec_query() == state.spec_auth().spec_query() && request.user_agent@
                == HTTP_USER_AGENT@ && (request.body matches Some(credential) && Some(credential@)
                == state.spec_auth().spec_credential()),
            Err(reason) => r matches Err(Error::UrlParse(e)) && e == reason,
        },
    }
}

impl VersionChecked {
    pub closed spec fn spec_url(&self) -> url::Url {
        self.base
    }

    pub closed spec fn spec_auth(&self) -> Auth {
        self.auth
    }

    pub closed spec fn spec_version(&self) -> VersionResponse {
        self.version
    }

    /// Moves on from the version check: to a ready client where there are
    /// no credentials, and to the login otherwise.
    pub fn advance(self) -> (r: Result<Next, Error>)
        ensures
            is_advanced(self, r),
    {
        let path = self.auth.login_path();
        let credential = self.auth.credential();
        match (path, credential) {
            (Some(path), Some(credential)) => {
                match build_request(&self.base, &self.auth, Method::Post, path, Some(credential)) {
                    Ok(request) => Ok(
                        Next::Login(
                            LoggingIn { base: self.base, auth: self.auth, version: self.version },
                            request,
                        ),
                    ),
                    Err(failure) => Err(failure),
                }
            },
            _ => Ok(
                Next::Ready(
                    Client {
                        auth: self.auth,
                        smarthome_url: self.base,
                        smarthome_version: self.version,
                        username: None,
                    },
                ),
            ),
        }
    }
}

/// Whether `r` is where the answer to the login request leads from
/// `state`.
///
/// A request that got no answer fails as `Transport`. An answer with a
/// status other than 200 and 204 fails as `Smarthome` with that status.
/// Otherwise the client is ready. It acts as the user of its credentials
/// where these are name and password; where they are a token, as the user
/// that the answer's body names, and a body that does not decode fails as
/// `Decode`.
pub open spec fn is_logged_in(
    state: LoggingIn,
    reply: Reply<TokenResponse>,
    r: Result<Client, Error>,
) -> bool {
    match reply {
        Reply::Lost(cause) => r matches Err(Error::Transport(c)) && c == cause,
        Reply::Answered { status, body } => if !is_login_accepted(status) {
            r matches Err(Error::Smarthome(s)) && s == status
        } else {
            match state.spec_auth() {
                Auth::QueryPassword(user) | Auth::SessionPassword(user) => is_ready(
                    state,
                    user.username@,
                    r,
                ),
                _ => match body {
                    Ok(answer) => is_ready(state, answer.username@, r),
                    Err(cause) => r matches Err(Error::Decode(c)) && c == cause,
                },
            }
        },
    }
}

/// Whether `r` is the ready client that comes of `state`, acting as
/// `username`.
pub open spec fn is_ready(state: LoggingIn, username: Seq<char>, r: Result<Client, Error>) -> bool {
    r matches Ok(client) && client.spec_auth() == state.spec_auth() && client.spec_url()
        == state.spec_url() && client.spec_version() == state.spec_version()
        && client.spec_username() == Some(username)
}

impl LoggingIn {
    #[verifier::type_invariant]
    spec fn has_credentials(&self) -> bool {
        !(self.auth is NoAuth)
    }

    pub closed spec fn spec_url(&self) -> url::Url {
        self.base
    }

    pub closed spec fn spec_auth(&self) -> Auth {
        self.auth
    }

    pub closed spec fn spec_version(&self) -> VersionResponse {
        self.version
    }

    /// Whether the body of an answer to the login request is to be read:
    /// whether the server accepted the login and the credentials are a
    /// token, so that the answer names the user. The body of any other
    /// answer is never looked at.
    pub open spec fn spec_reads_body(&self, status: reqwest::StatusCode) -> bool {
        is_login_accepted(status) && (self.spec_auth() is QueryToken || self.spec_auth()
            is SessionToken)
    }

    /// Whether the body of an answer to the login request is to be read.
    pub fn reads_body(&self, status: reqwest::StatusCode) -> (r: bool)
        ensures
            r == self.spec_reads_body(status),
    {
        let number = status.as_u16();
        let accepted = number == 200 || number == 204;
        match &self.auth {
            Auth::QueryToken(_) | Auth::SessionToken(_) => accepted,
            _ => false,
        }
    }

    /// Takes the answer to the login request and makes the client.
    pub fn on_login(self, reply: Reply<TokenResponse>) -> (r: Result<Client, Error>)
        ensures
            !(self.spec_auth() is NoAuth),
            is_logged_in(self, reply, r),
    {
        proof {
            use_type_invariant(&self);
        }
        match reply {
            Reply::Lost(cause) => Err(Error::Transport(cause)),
            Reply::Answered { status, body } => {
                let number = status.as_u16();
                if number != 200 && number != 204 {
                    return Err(Error::Smarthome(status));
                }
                let username = match &self.auth {
                    Auth::QueryPassword(user) | Auth::SessionPassword(user) => user.username.clone(),
                    _ => match body {
                        Ok(answer) => answer.username,
                        Err(cause) => {
                            return Err(Error::Decode(cause));
                        },
                    },
                };
                Ok(
                    Client {
                        auth: self.auth,
                        smarthome_url: self.base,
                        smarthome_version: self.version,
                        username: Some(username),
                    },
                )
            },
        }
    }
}

/// A client without credentials is ready as soon as its server's version is
/// checked: no login request is ever made for it.
pub proof fn lemma_no_login_without_credentials(state: VersionChecked, r: Result<Next, Error>)
    requires
        is_advanced(state, r),
        state.spec_auth() is NoAuth,
    ensures
        r matches Ok(Next::Ready(_)),
{
}

/// A client with credentials does not become ready by the version check
/// alone: it goes on to the login, or fails.
pub proof fn lemma_credentials_need_login(state: VersionChecked, r: Result<Next, Error>)
    requires
        is_advanced(state, r),
        !(state.spec_auth() is NoAuth),
    ensures
        !(r matches Ok(Next::Ready(_))),
{
}

/// An answer to the version request with a status outside 200 to 299 fails
/// with that status, whether or not its body can be decoded.
pub proof fn lemma_status_wins_over_body(
    state: Created,
    reply: Reply<VersionResponse>,
    r: Result<VersionChecked, Error>,
)
    requires
        is_version_checked(state, reply, r),
        reply matches Reply::Answered { status, .. } && !is_success(status),
    ensures
        r matches Err(Error::Smarthome(s)) && s == reply->status,
{
}

/// A server whose version is outside the required range, or cannot be
/// read, never gets past the version check.
pub proof fn lemma_only_compatible_servers_pass(
    state: Created,
    reply: Reply<VersionResponse>,
    r: Result<VersionChecked, Error>,
)
    requires
        is_version_checked(state, reply, r),
        r is Ok,
    ensures
        reply matches Reply::Answered { status, body: Ok(version) } && is_success(status)
            && compatibility(
            parsed_range(SERVER_VERSION_REQUIREMENT@),
            parsed_version(version.smarthome_version@),
        ) == Ok::<bool, Seq<char>>(true),
{
}

/// An answer to the version request with a status inside 200 to 299 never
/// fails with that status: what becomes of it lies with its body alone.
pub proof fn lemma_success_is_no_status_failure(
    state: Created,
    reply: Reply<VersionResponse>,
    r: Result<VersionChecked, Error>,
)
    requires
        is_version_checked(state, reply, r),
        reply matches Reply::Answered { status, .. } && is_success(status),
    ensures
        !(r matches Err(Error::Smarthome(_))),
{
}

/// Where the body of an answer to the version request is not to be read,
/// nothing depends on it: the step leads to the same place with any body in
/// its stead.
pub proof fn lemma_unread_version_body_is_not_missed(
    state: Created,
    status: reqwest::StatusCode,
    body: Result<VersionResponse, String>,
    other: Result<VersionResponse, String>,
    r: Result<VersionChecked, Error>,
)
    requires
        !is_success(status),
        is_version_checked(state, (Reply::Answered { status, body }), r),
    ensures
        is_version_checked(state, (Reply::Answered { status, body: other }), r),
{
}

/// Where the body of an answer to the login request is not to be read,
/// nothing depends on it: the step leads to the same place with any body in
/// its stead.
pub proof fn lemma_unread_login_body_is_not_missed(
    state: LoggingIn,
    status: reqwest::StatusCode,
    body: Result<TokenResponse, String>,
    other: Result<TokenResponse, String>,
    r: Result<Client, Error>,
)
    requires
        !(state.spec_auth() is NoAuth),
        !state.spec_reads_body(status),
        is_logged_in(state, (Reply::Answered { status, body }), r),
    ensures
        is_logged_in(state, (Reply::Answered { status, body: other }), r),
{
}

} // verus!
