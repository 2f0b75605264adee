//! What the output of the system's tools says about the two devices.
pub mod microphone;
pub mod webcam;
