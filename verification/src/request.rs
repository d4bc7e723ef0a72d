//! What goes out to the server: a request, shaped by the way the client
//! authenticates.

use crate::auth::{pairs_view, Auth};
use crate::client::Client;
use crate::errors::{status_number, Error};
use crate::HTTP_USER_AGENT;
use vstd::prelude::*;

verus! {

#[verifier::external_type_specification]
#[verifier::external_body]
pub struct ExUrl(url::Url);

/// What `Url::join` makes of a base and a reference: the URL that the
/// reference resolves to, or the reason why it resolves to none.
pub uninterp spec fn joined_url(base: url::Url, reference: Seq<char>) -> Result<
    url::Url,
    url::ParseError,
>;

/// Calls `Url::join`: resolves `reference` against `base` as a browser
/// would. The result is the named resolution.
#[verifier::external_body]
pub(crate) fn join_url(base: &url::Url, reference: &str) -> (r: Result<url::Url, url::ParseError>)
    ensures
        r == joined_url(*base, reference@),
{
    base.join(reference)
}

/// The verb of an HTTP request.
#[derive(Debug, Clone, Copy, PartialEq, Eq, Structural)]
pub enum Method {
    Get,
    Post,
    Put,
    Delete,
}

/// A request that is ready to be sent: where it goes, how, and with what.
#[derive(Debug)]
pub struct Request<T> {
    pub method: Method,
    /// The address, without the parameters in `query`.
    pub url: url::Url,
    /// Names and values to append to the address as its query, in order.
    pub query: Vec<(String, String)>,
    /// What to send as the JSON payload, if anything.
    pub body: Option<T>,
    /// How the sender names itself to the server.
    pub user_agent: &'static str,
}

impl<T> Request<T> {
    /// The query parameters as plain text.
    pub open spec fn spec_query(&self) -> Seq<(Seq<char>, Seq<char>)> {
        pairs_view(self.query@)
    }
}

/// Whether `r` is what building a request from these parts must give: the
/// request to `path` resolved against `base`, with the given method and
/// body, exactly the query parameters of `auth`, and this library's name
/// as the sender; or, where the path cannot be resolved, the reason as a
/// `UrlParse` failure.
pub open spec fn is_built<T>(
    r: Result<Request<T>, Error>,
    base: url::Url,
    auth: Auth,
    method: Method,
    path: Seq<char>,
    body: Option<T>,
) -> bool {
    match joined_url(base, path) {
        Ok(url) => r matches Ok(request) && request.method == method && request.url == url
            && request.spec_query() == auth.spec_query() && request.body == body
            && request.user_agent@ == HTTP_USER_AGENT@,
        Err(reason) => r matches Err(Error::UrlParse(e)) && e == reason,
    }
}

/// Builds the request for `path` on the server at `base`, as a client that
/// authenticates by `auth` sends it.
///
/// The path is resolved against the base, so an absolute path replaces the
/// base's own. The request carries name and password, or the token, as
/// query parameters where `auth` goes by the query, and none otherwise.
/// The body is carried as it is: the sender encodes it.
pub fn build_request<T>(
    base: &url::Url,
    auth: &Auth,
    method: Method,
    path: &str,
    body: Option<T>,
) -> (r: Result<Request<T>, Error>)
    ensures
        is_built(r, *base, *auth, method, path@, body),
{
    match join_url(base, path) {
        Ok(url) => Ok(
            Request { method, url, query: auth.query(), body, user_agent: HTTP_USER_AGENT },
        ),
        Err(reason) => Err(Error::UrlParse(reason)),
    }
}

/// Takes a status for success only if it is 200, and fails with the status
/// otherwise.
pub fn expect_ok(status: reqwest::StatusCode) -> (r: Result<(), Error>)
    ensures
        if status_number(status) == 200 {
            r is Ok
        } else {
            r matches Err(Error::Smarthome(s)) && s == status
        },
{
    if status.as_u16() == 200 {
        Ok(())
    } else {
        Err(Error::Smarthome(status))
    }
}

/// Takes a status for an answer that carries a script's results: 200, or
/// 500 where the script itself failed. Fails with the status otherwise.
pub fn expect_script_result(status: reqwest::StatusCode) -> (r: Result<(), Error>)
    ensures
        if status_number(status) == 200 || status_number(status) == 500 {
            r is Ok
        } else {
            r matches Err(Error::Smarthome(s)) && s == status
        },
{
    let number = status.as_u16();
    if number == 200 || number == 500 {
        Ok(())
    } else {
        Err(Error::Smarthome(status))
    }
}

impl Client {
    /// Builds the request for `path` on this client's server, with this
    /// client's credentials where they go by the query.
    pub fn build_request<T>(&self, method: Method, path: &str, body: Option<T>) -> (r: Result<
        Request<T>,
        Error,
    >)
        ensures
            is_built(r, self.spec_url(), self.spec_auth(), method, path@, body),
    {
        build_request(self.smarthome_url(), self.auth(), method, path, body)
    }
}

/// A request carries exactly the query parameters of the way its client
/// authenticates: name and password, the token, or nothing.
pub proof fn lemma_query_follows_auth<T>(
    r: Result<Request<T>, Error>,
    base: url::Url,
    auth: Auth,
    method: Method,
    path: Seq<char>,
    body: Option<T>,
)
    requires
        is_built(r, base, auth, method, path, body),
        r is Ok,
    ensures
        auth matches Auth::QueryPassword(user) ==> r->Ok_0.spec_query() == seq![
            ("username"@, user.username@),
            ("password"@, user.password@),
        ],
        auth matches Auth::QueryToken(token) ==> r->Ok_0.spec_query() == seq![("token"@, token@)],
        (auth is NoAuth || auth is SessionPassword || auth is SessionToken)
            ==> r->Ok_0.spec_query().len() == 0,
{
}

} // verus!
