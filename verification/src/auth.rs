//! How a client proves who it is.

use vstd::prelude::*;
use vstd::string::StringExecFns;

verus! {

/// A name and the password that goes with it.
#[derive(Debug, Clone)]
pub struct User {
    pub username: String,
    pub password: String,
}

/// An access token, and the name of the client it was issued to where that
/// is known.
#[derive(Debug, Clone)]
pub struct Token {
    token: String,
    client_name: Option<String>,
}

impl Token {
    /// The token's text.
    pub closed spec fn spec_token(&self) -> Seq<char> {
        self.token@
    }

    /// The name of the client the token was issued to, where known.
    pub closed spec fn spec_client_name(&self) -> Option<Seq<char>> {
        match self.client_name {
            Some(name) => Some(name@),
            None => None,
        }
    }

    /// A token of which nothing but its text is known.
    pub fn new(token: String) -> (r: Self)
        ensures
            r.spec_token() == token@,
            r.spec_client_name() is None,
    {
        Self { token, client_name: None }
    }

    pub fn token(&self) -> (r: &str)
        ensures
            r@ == self.spec_token(),
    {
        self.token.as_str()
    }

    pub fn client_name(&self) -> (r: Option<&str>)
        ensures
            match r {
                Some(name) => self.spec_client_name() == Some(name@),
                None => self.spec_client_name() is None,
            },
    {
        match &self.client_name {
            Some(n) => Some(n.as_str()),
            None => None,
        }
    }
}

/// The way a client authenticates. A client has exactly one, for as long
/// as it lives.
#[derive(Debug, Clone)]
pub enum Auth {
    /// No credentials at all.
    NoAuth,
    /// Name and password, sent with every request as query parameters.
    QueryPassword(User),
    /// Name and password, sent once at login; the session carries on.
    SessionPassword(User),
    /// A token, sent with every request as a query parameter.
    QueryToken(String),
    /// A token, sent once at login; the session carries on.
    SessionToken(String),
}

/// What a login request carries in its body.
#[derive(Debug, Clone)]
pub enum Credential {
    Password { username: String, password: String },
    Token { token: String },
}

impl Credential {
    pub open spec fn view(&self) -> CredentialView {
        match self {
            Credential::Password { username, password } => CredentialView::Password {
                username: username@,
                password: password@,
            },
            Credential::Token { token } => CredentialView::Token { token: token@ },
        }
    }
}

/// A credential as plain text.
pub ghost enum CredentialView {
    Password { username: Seq<char>, password: Seq<char> },
    Token { token: Seq<char> },
}

/// Names and values of query parameters, as plain text.
pub open spec fn pairs_view(pairs: Seq<(String, String)>) -> Seq<(Seq<char>, Seq<char>)> {
    pairs.map_values(|p: (String, String)| (p.0@, p.1@))
}

impl Auth {
    /// The query parameters that this way of authenticating adds to every
    /// request: name and password, or the token, for the two ways that go
    /// by the query; none for the others.
    pub open spec fn spec_query(&self) -> Seq<(Seq<char>, Seq<char>)> {
        match self {
            Auth::QueryPassword(user) => seq![
                ("username"@, user.username@),
                ("password"@, user.password@),
            ],
            Auth::QueryToken(token) => seq![("token"@, token@)],
            _ => Seq::empty(),
        }
    }

    /// The path that a client of this kind logs in at; none for a client
    /// without credentials.
    pub open spec fn spec_login_path(&self) -> Option<Seq<char>> {
        match self {
            Auth::NoAuth => None,
            Auth::QueryPassword(_) | Auth::SessionPassword(_) => Some("/api/login"@),
            Auth::QueryToken(_) | Auth::SessionToken(_) => Some("/api/login/token"@),
        }
    }

    /// What a client of this kind sends to log in; nothing for a client
    /// without credentials.
    pub open spec fn spec_credential(&self) -> Option<CredentialView> {
        match self {
            Auth::NoAuth => None,
            Auth::QueryPassword(user) | Auth::SessionPassword(user) => Some(
                CredentialView::Password { username: user.username@, password: user.password@ },
            ),
            Auth::QueryToken(token) | Auth::SessionToken(token) => Some(
                CredentialView::Token { token: token@ },
            ),
        }
    }

    /// The query parameters to add to a request.
    pub fn query(&self) -> (r: Vec<(String, String)>)
        ensures
            pairs_view(r@) == self.spec_query(),
    {
        let mut pairs: Vec<(String, String)> = Vec::new();
        match self {
            Auth::QueryPassword(user) => {
                pairs.push((String::from_str("username"), user.username.clone()));
                pairs.push((String::from_str("password"), user.password.clone()));
            },
            Auth::QueryToken(token) => {
                pairs.push((String::from_str("token"), token.clone()));
            },
            _ => {},
        }
        assert(pairs_view(pairs@) =~= self.spec_query());
        pairs
    }

    /// The path to log in at.
    pub fn login_path(&self) -> (r: Option<&'static str>)
        ensures
            match r {
                Some(path) => self.spec_login_path() == Some(path@),
                None => self.spec_login_path() is None,
            },
    {
        match self {
            Auth::NoAuth => None,
            Auth::QueryPassword(_) | Auth::SessionPassword(_) => Some("/api/login"),
            Auth::QueryToken(_) | Auth::SessionToken(_) => Some("/api/login/token"),
        }
    }

    /// The body of the login request.
    pub fn credential(&self) -> (r: Option<Credential>)
        ensures
            match r {
                Some(c) => self.spec_credential() == Some(c@),
                None => self.spec_credential() is None,
            },
    {
        match self {
            Auth::NoAuth => None,
            Auth::QueryPassword(user) | Auth::SessionPassword(user) => Some(
                Credential::Password {
                    username: user.username.clone(),
                    password: user.password.clone(),
                },
            ),
            Auth::QueryToken(token) | Auth::SessionToken(token) => Some(
                Credential::Token { token: token.clone() },
            ),
        }
    }
}

/// The two ways that rely on a session add no query parameter.
pub proof fn lemma_session_adds_no_query(auth: Auth)
    requires
        auth is SessionPassword || auth is SessionToken || auth is NoAuth,
    ensures
        auth.spec_query().len() == 0,
{
}

} // verus!
