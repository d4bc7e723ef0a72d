//! What the server tells about its own state.

use crate::client::Client;
use crate::errors::Error;
use crate::request::{is_built, Method, Request};
use vstd::prelude::*;

verus! {

/// The server's account of itself: versions, load, database, jobs and
/// hardware.
#[derive(Debug, Clone)]
pub struct DebugInfoData {
    pub server_version: String,
    pub go_version: String,
    pub cpu_cores: u8,
    pub goroutines: u16,
    pub memory_usage: u16,
    pub database_online: bool,
    pub database_stats: DatabaseStats,
    pub power_job_count: u16,
    pub power_job_with_error_count: u16,
    pub power_jobs: Vec<PowerJob>,
    pub power_job_results: Vec<JobResult>,
    pub hardware_nodes_count: u16,
    pub hardware_nodes_online: u16,
    pub hardware_nodes_enabled: u16,
    pub hardware_nodes: Vec<HardwareNode>,
    pub homescript_job_count: u16,
    pub time: ServerTime,
}

/// The connections that the server holds to its database.
#[derive(Debug, Clone, Copy)]
pub struct DatabaseStats {
    pub open_connections: i32,
    pub in_use: i32,
    pub idle: i32,
}

/// A switch that waits to be set.
#[derive(Debug, Clone)]
pub struct PowerJob {
    pub id: i64,
    pub switch_name: String,
    pub power: bool,
}

/// How a job ended.
#[derive(Debug, Clone)]
pub struct JobResult {
    pub id: i64,
    pub error: String,
}

/// A piece of hardware that the server drives.
#[derive(Debug, Clone)]
pub struct HardwareNode {
    pub name: String,
    pub online: bool,
    pub enabled: bool,
    pub url: String,
    pub token: String,
}

/// The server's clock.
#[derive(Debug, Clone, Copy)]
pub struct ServerTime {
    pub hours: u8,
    pub minutes: u8,
    pub seconds: u8,
    pub unix: u64,
}

impl Client {
    /// The request that asks the server for its account of itself.
    pub fn debug_info_request(&self) -> (r: Result<Request<()>, Error>)
        ensures
            is_built(r, self.spec_url(), self.spec_auth(), Method::Get, "/api/debug"@, None),
    {
        self.build_request(Method::Get, "/api/debug", None)
    }
}

} // verus!
