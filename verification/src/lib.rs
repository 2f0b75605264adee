//! Protocol core of a background agent that mirrors the in-use state of a
//! camera and a microphone to a home-automation hub.
//!
//! The crate holds the decisions of the agent and none of its I/O: the record
//! that is persisted, the endpoint resolution, the requests that are sent and
//! what each reply does to the record, and the steps of the monitoring loop.
pub mod text;
pub mod error;
pub mod json;
pub mod host;
pub mod locator;
pub mod agent_state;
pub mod wire;
pub mod connection;
pub mod realtime;
pub mod control;
pub mod watcher;
pub mod monitor;
pub mod config;
