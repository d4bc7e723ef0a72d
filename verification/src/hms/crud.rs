//! Scripts that the server keeps: their records, and the requests that
//! create, change, remove and list them.

use crate::client::Client;
use crate::errors::Error;
use crate::request::{is_built, Method, Request};
use vstd::prelude::*;

verus! {

/// A script on the server, with the user it belongs to.
#[derive(Debug, Clone)]
pub struct Homescript {
    pub owner: String,
    pub data: HomescriptData,
}

/// What a script is for.
#[derive(Debug, Clone, Copy, PartialEq, Eq, Structural)]
pub enum HomescriptType {
    Normal,
    Driver,
}

/// A script and its settings.
#[derive(Debug, Clone)]
pub struct HomescriptData {
    pub id: String,
    pub name: String,
    pub description: String,
    pub quick_actions_enabled: bool,
    pub scheduler_enabled: bool,
    pub is_widget: bool,
    pub code: String,
    pub md_icon: String,
    pub type_: HomescriptType,
    pub workspace: String,
}

/// Asks the server to remove a script.
#[derive(Debug, Clone, Copy)]
pub struct DeleteHomescriptRequest<'request> {
    pub id: &'request str,
}

impl Client {
    /// The request that creates a script on the server.
    pub fn create_homescript_request<'request>(&self, data: &'request HomescriptData) -> (r: Result<
        Request<&'request HomescriptData>,
        Error,
    >)
        ensures
            is_built(
                r,
                self.spec_url(),
                self.spec_auth(),
                Method::Post,
                "/api/homescript/add"@,
                Some(data),
            ),
    {
        self.build_request(Method::Post, "/api/homescript/add", Some(data))
    }

    /// The request that replaces a script's data on the server.
    pub fn modify_homescript_request<'request>(&self, new_data: &'request HomescriptData) -> (r:
        Result<Request<&'request HomescriptData>, Error>)
        ensures
            is_built(
                r,
                self.spec_url(),
                self.spec_auth(),
                Method::Put,
                "/api/homescript/modify"@,
                Some(new_data),
            ),
    {
        self.build_request(Method::Put, "/api/homescript/modify", Some(new_data))
    }

    /// The request that removes the script `id` from the server.
    pub fn delete_homescript_request<'request>(&self, id: &'request str) -> (r: Result<
        Request<DeleteHomescriptRequest<'request>>,
        Error,
    >)
        ensures
            is_built(
                r,
                self.spec_url(),
                self.spec_auth(),
                Method::Delete,
                "/api/homescript/delete"@,
                Some((DeleteHomescriptRequest { id })),
            ),
    {
        self.build_request(
            Method::Delete,
            "/api/homescript/delete",
            Some(DeleteHomescriptRequest { id }),
        )
    }

    /// The request that lists the scripts of the client's user.
    pub fn list_personal_homescripts_request(&self) -> (r: Result<Request<()>, Error>)
        ensures
            is_built(
                r,
                self.spec_url(),
                self.spec_auth(),
                Method::Get,
                "/api/homescript/list/personal"@,
                None,
            ),
    {
        self.build_request(Method::Get, "/api/homescript/list/personal", None)
    }
}

} // verus!
