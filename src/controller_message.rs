//! Messages from the controller to the relay.
use vstd::prelude::*;

verus! {

#[derive(Debug, Clone, Copy, PartialEq, Eq, Structural)]
pub struct KeepAlivePayload {}

#[derive(Debug, Clone, Copy, PartialEq, Eq, Structural)]
pub struct KeepAliveResponse {}

#[derive(Debug, Clone, Copy, PartialEq, Eq, Structural)]
pub enum ControllerMessage {
    KeepAlive(KeepAlivePayload),
}

#[derive(Debug, Clone, Copy, PartialEq, Eq, Structural)]
pub enum ControllerMessageResponse {
    KeepAliveResponse(KeepAliveResponse),
}

} // verus!
