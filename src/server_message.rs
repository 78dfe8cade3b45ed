//! Messages from the relay: commands to the controller and status pushed to
//! the user.
use vstd::prelude::*;

verus! {

/// Switch a zone, numbered from 1, on or off.
#[derive(Debug, Clone, Copy, PartialEq, Eq, Structural)]
pub struct ToggleZonePayload {
    pub zone: u8,
    pub activate: bool,
}

#[derive(Debug, Clone, Copy, PartialEq, Eq, Structural)]
pub struct ToggleZoneResponse {
    pub success: bool,
}

#[derive(Debug, Clone, Copy, PartialEq, Eq, Structural)]
pub enum ServerMessage {
    ToggleZone(ToggleZonePayload),
}

#[derive(Debug, Clone, Copy, PartialEq, Eq, Structural)]
pub enum ServerMessageResponse {
    ToggleZoneResponse(ToggleZoneResponse),
}

#[derive(Debug, Clone, Copy, PartialEq, Eq, Structural)]
pub struct ControllerHeartbeatPayload {
    pub is_controller_connected: bool,
}

#[derive(Debug, Clone, Copy, PartialEq, Eq, Structural)]
pub enum ServerResponse {
    ControllerHeartbeat(ControllerHeartbeatPayload),
}

} // verus!
