//! Core logic of an irrigation relay: the WebSocket frame codec and handshake
//! used by the controller device, the device's session state machine, the
//! relay hub's registry and routing rules, and the schedule engine.
pub mod config;
pub mod controller_message;
pub mod dio_controller;
pub mod frame;
pub mod handshake;
pub mod hub;
pub mod schedule;
pub mod server_message;
pub mod session;
pub mod types;
pub mod user_message;
