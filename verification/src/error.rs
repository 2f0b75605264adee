//! The ways in which the agent's operations fail.
use vstd::prelude::*;

verus! {

/// Why an operation of the agent failed.
#[derive(Debug, Clone, Copy, PartialEq, Eq, Structural)]
pub enum AgentError {
    /// The transport to the hub could not be set up or broke down.
    ConnectionError,
    /// The hub did not accept the access token.
    AuthenticationFailed,
    /// The hub did not accept the registration of the device.
    RegistrationFailed,
    /// The hub did not accept a sensor registration or update.
    PushFailed,
    /// The persisted record could not be read or written.
    PersistenceError,
}

impl AgentError {
    /// A short description for diagnostics.
    pub fn message(&self) -> (text: String)
        ensures
            text@ == match *self {
                AgentError::ConnectionError => "connection to the hub failed"@,
                AgentError::AuthenticationFailed => "authentication failed"@,
                AgentError::RegistrationFailed => "device registration failed"@,
                AgentError::PushFailed => "sensor push failed"@,
                AgentError::PersistenceError => "state could not be persisted"@,
            },
    {
        match self {
            AgentError::ConnectionError => String::from_str("connection to the hub failed"),
            AgentError::AuthenticationFailed => String::from_str("authentication failed"),
            AgentError::RegistrationFailed => String::from_str("device registration failed"),
            AgentError::PushFailed => String::from_str("sensor push failed"),
            AgentError::PersistenceError => String::from_str("state could not be persisted"),
        }
    }
}

} // verus!
