//! Messages from a user client to the relay, and the relay's answers.
use vstd::prelude::*;

use crate::types::Schedule;

verus! {

#[derive(Debug, Clone, Copy, PartialEq, Eq, Structural)]
pub struct ToggleZonePayload {
    pub zone: u8,
    pub activate: bool,
}

#[derive(Debug)]
pub struct ToggleZoneResponse {
    pub success: bool,
    pub error: Option<String>,
}

#[derive(Debug, Clone, Copy, PartialEq, Eq, Structural)]
pub struct StatusPayload {}

#[derive(Debug, Clone, Copy, PartialEq, Eq, Structural)]
pub struct StatusResponse {
    pub is_controller_connected: bool,
}

#[derive(Debug, Clone, Copy, PartialEq, Eq, Structural)]
pub struct KeepAlivePayload {}

#[derive(Debug, Clone, Copy, PartialEq, Eq, Structural)]
pub struct KeepAliveResponse {}

#[derive(Debug)]
pub struct SetSchedulePayload {
    pub schedules: Vec<Schedule>,
}

#[derive(Debug)]
pub struct SetScheduleResponse {
    pub success: bool,
    pub error: Option<String>,
}

#[derive(Debug, Clone, Copy, PartialEq, Eq, Structural)]
pub struct GetConfigPayload {}

#[derive(Debug)]
pub struct GetConfigResponse {
    pub schedules: Vec<Schedule>,
    pub stagger_on: bool,
    pub stagger_zones: bool,
}

#[derive(Debug)]
pub enum UserMessage {
    ToggleZone(ToggleZonePayload),
    Status(StatusPayload),
    KeepAlive(KeepAlivePayload),
    SetSchedule(SetSchedulePayload),
    GetConfig(GetConfigPayload),
}

#[derive(Debug)]
pub enum UserMessageResponse {
    ToggleZoneResponse(ToggleZoneResponse),
    StatusResponse(StatusResponse),
    KeepAliveResponse(KeepAliveResponse),
    SetScheduleResponse(SetScheduleResponse),
    GetConfigResponse(GetConfigResponse),
}

} // verus!
