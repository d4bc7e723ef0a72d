//! Client-side logic for a smart-home automation server's HTTP interface.
//!
//! The library decides and the caller carries out: it says which request
//! to send and what an answer means, and leaves the sending to a transport
//! of the caller's choice.

use vstd::prelude::*;

pub mod auth;
pub mod client;
pub mod debug;
pub mod errors;
pub mod export;
pub mod hms;
pub mod power;
pub mod request;
pub mod room;
pub mod text;
pub mod version;

pub use auth::{Auth, Credential, Token, User};
pub use client::{Client, Created, LoggingIn, Next, Reply, TokenResponse, VersionChecked};
pub use debug::{DatabaseStats, DebugInfoData, HardwareNode, JobResult, PowerJob, ServerTime};
pub use errors::Error;
pub use export::ExportRequest;
pub use hms::crud::{DeleteHomescriptRequest, Homescript, HomescriptData, HomescriptType};
pub use hms::exec::{
    DiagnosticError, DiagnosticLevel, ExecHomescriptbyIdRequest, HmsRunMode, HomescriptArg,
    HomescriptCodeRequest, HomescriptErrorKind, HomescriptExecError, HomescriptExecErrorLocation,
    HomescriptExecErrorSpan, HomescriptExecResponse, LintHomescriptCodeRequest,
    RunHomescriptCodeRequest, RuntimeInterrupt, SyntaxError,
};
pub use power::{
    DeviceCapability, DevicePowerInformation, DevicePowerRequest, DeviceRequest, DeviceType,
};
pub use request::{Method, Request};
pub use room::{Camera, Room, RoomData, Switch};
pub use version::VersionResponse;

verus! {

/// The range of server versions that this library can talk to. A client
/// is only created against a server whose version lies in it.
pub const SERVER_VERSION_REQUIREMENT: &'static str = ">=0.4.0";

/// How this library names itself to the server in every request.
pub const HTTP_USER_AGENT: &'static str = "smarthome-sdk-rs/0.1.0";

} // verus!
