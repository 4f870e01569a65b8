//! Synchronises what is playing with the system's media controls and with a
//! Discord rich-presence activity.
//!
//! The crate holds the state of the Discord presence and of the Linux and
//! Windows media controls, and tells its caller which requests to send (and
//! to whom) for every command it receives; for macOS it decides the events
//! of the remote commands and what is shown of a song. Media positions and
//! durations are whole milliseconds.
pub mod model;
pub mod text;
pub mod discord;
pub mod coordinator;
pub mod platform;
