//! Devices and the power they draw.

use crate::client::Client;
use crate::errors::Error;
use crate::request::{is_built, Method, Request};
use vstd::prelude::*;

verus! {

/// Names a device and, where its power is to be set, the state to set.
#[derive(Debug, Clone, Copy)]
pub struct DeviceRequest<'request> {
    pub device_id: &'request str,
    pub power: Option<DevicePowerRequest>,
}

/// The power state to set: on or off.
#[derive(Debug, Clone, Copy)]
pub struct DevicePowerRequest {
    pub state: bool,
}

/// What a device can do.
#[derive(Debug, Clone, Copy, PartialEq, Eq, Structural)]
pub enum DeviceCapability {
    Base,
    Power,
    Dimmable,
    Sensor,
}

/// Whether a device takes commands or gives readings.
#[derive(Debug, Clone, Copy, PartialEq, Eq, Structural)]
pub enum DeviceType {
    Input,
    Output,
}

/// Whether a device is on, and what it draws.
#[derive(Debug, Clone, Copy)]
pub struct DevicePowerInformation {
    pub state: bool,
    pub power_draw_watts: usize,
}

impl Client {
    /// The request that switches the device `switch` on or off.
    pub fn set_power_request<'request>(&self, switch: &'request str, power_on: bool) -> (r: Result<
        Request<DeviceRequest<'request>>,
        Error,
    >)
        ensures
            is_built(
                r,
                self.spec_url(),
                self.spec_auth(),
                Method::Post,
                "/api/devices/action/power"@,
                Some(
                    (DeviceRequest {
                        device_id: switch,
                        power: Some((DevicePowerRequest { state: power_on })),
                    }),
                ),
            ),
    {
        self.build_request(
            Method::Post,
            "/api/devices/action/power",
            Some(DeviceRequest { device_id: switch, power: Some(DevicePowerRequest { state: power_on }) }),
        )
    }

    /// The request that lists the devices of the client's user.
    pub fn personal_switches_request(&self) -> (r: Result<Request<()>, Error>)
        ensures
            is_built(
                r,
                self.spec_url(),
                self.spec_auth(),
                Method::Get,
                "/api/devices/list/personal/rich"@,
                None,
            ),
    {
        self.build_request(Method::Get, "/api/devices/list/personal/rich", None)
    }

    /// The request that lists all devices of the server.
    pub fn all_switches_request(&self) -> (r: Result<Request<()>, Error>)
        ensures
            is_built(
                r,
                self.spec_url(),
                self.spec_auth(),
                Method::Get,
                "/api/devices/list/all/rich"@,
                None,
            ),
    {
        self.build_request(Method::Get, "/api/devices/list/all/rich", None)
    }

    /// The request that asks for the power drawn over time: all that the
    /// server has recorded, or the last day only.
    pub fn power_usage_request(&self, fetch_all: bool) -> (r: Result<Request<()>, Error>)
        ensures
            is_built(
                r,
                self.spec_url(),
                self.spec_auth(),
                Method::Get,
                if fetch_all {
                    "/api/power/usage/all"@
                } else {
                    "/api/power/usage/day"@
                },
                None,
            ),
    {
        let path = if fetch_all {
            "/api/power/usage/all"
        } else {
            "/api/power/usage/day"
        };
        self.build_request(Method::Get, path, None)
    }
}

} // verus!
