//! Verified decision logic of a replay-clip controller for OBS Studio.
//!
//! The library decides which requests are sent to OBS (over obs-websocket) for
//! each operation, how their replies are interpreted, which commands received
//! over UDP trigger a replay capture, and which key event triggers a goal
//! message. The program around it performs the network and UI work.
pub mod names;
pub mod settings;
pub mod protocol;
pub mod task;
pub mod connection;
pub mod commands;
pub mod events;
pub mod laws;
pub mod traces;

