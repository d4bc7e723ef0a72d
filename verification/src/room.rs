//! Rooms, and the switches and cameras in them.

use crate::client::Client;
use crate::errors::Error;
use crate::request::{is_built, Method, Request};
use vstd::prelude::*;
use vstd::string::StringExecFns;

verus! {

/// A room with what is in it.
#[derive(Debug, Clone)]
pub struct Room {
    pub data: RoomData,
    pub switches: Vec<Switch>,
    pub cameras: Vec<Camera>,
}

#[derive(Debug, Clone)]
pub struct RoomData {
    pub id: String,
    pub name: String,
    pub description: String,
}

#[derive(Debug, Clone)]
pub struct Switch {
    pub id: String,
    pub name: String,
    pub room_id: String,
    pub power_on: bool,
    pub watts: u16,
}

#[derive(Debug, Clone)]
pub struct Camera {
    pub id: String,
    pub name: String,
    pub url: String,
    pub room_id: String,
}

impl Client {
    /// The request that lists the rooms of the client's user.
    pub fn personal_rooms_request(&self) -> (r: Result<Request<()>, Error>)
        ensures
            is_built(
                r,
                self.spec_url(),
                self.spec_auth(),
                Method::Get,
                "/api/room/list/personal"@,
                None,
            ),
    {
        self.build_request(Method::Get, "/api/room/list/personal", None)
    }

    /// The request that fetches the current picture of the camera
    /// `camera_id`.
    pub fn camera_feed_request(&self, camera_id: &str) -> (r: Result<Request<()>, Error>)
        ensures
            is_built(
                r,
                self.spec_url(),
                self.spec_auth(),
                Method::Get,
                "/api/camera/feed/"@ + camera_id@,
                None,
            ),
    {
        let mut path = String::from_str("/api/camera/feed/");
        path.append(camera_id);
        self.build_request(Method::Get, path.as_str(), None)
    }
}

} // verus!
