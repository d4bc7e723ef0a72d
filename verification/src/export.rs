//! The server's configuration as one file.

use crate::client::Client;
use crate::errors::Error;
use crate::request::{is_built, Method, Request};
use vstd::prelude::*;

verus! {

/// What an export of the configuration is to hold besides the
/// configuration itself.
#[derive(Debug, Clone, Copy)]
pub struct ExportRequest {
    pub include_profile_pictures: bool,
    pub include_cache_data: bool,
}

impl Client {
    /// The request that asks the server for an export of its
    /// configuration.
    pub fn export_config_request<'request>(&self, request: &'request ExportRequest) -> (r: Result<
        Request<&'request ExportRequest>,
        Error,
    >)
        ensures
            is_built(
                r,
                self.spec_url(),
                self.spec_auth(),
                Method::Post,
                "/api/system/config/export"@,
                Some(request),
            ),
    {
        self.build_request(Method::Post, "/api/system/config/export", Some(request))
    }
}

} // verus!
