//! Error type shared by the library's fallible operations.

use vstd::prelude::*;

verus! {

/// Errors raised by the gateway, each carrying a human-readable message.
#[derive(Debug, Clone, PartialEq, Eq)]
pub enum BeaconError {
    Config(String),
    Channel(String),
    Tool(String),
    NotFound(String),
    Media(String),
    Stt(String),
    Vision(String),
    Link(String),
    Attachment(String),
    Skill(String),
    Harness(String),
    Database(String),
    Agent(String),
    Audio(String),
}

impl BeaconError {
    /// The message carried by an error.
    pub open spec fn spec_message(&self) -> Seq<char> {
        match self {
            BeaconError::Config(m) => m@,
            BeaconError::Channel(m) => m@,
            BeaconError::Tool(m) => m@,
            BeaconError::NotFound(m) => m@,
            BeaconError::Media(m) => m@,
            BeaconError::Stt(m) => m@,
            BeaconError::Vision(m) => m@,
            BeaconError::Link(m) => m@,
            BeaconError::Attachment(m) => m@,
            BeaconError::Skill(m) => m@,
            BeaconError::Harness(m) => m@,
            BeaconError::Database(m) => m@,
            BeaconError::Agent(m) => m@,
            BeaconError::Audio(m) => m@,
        }
    }

    /// Returns the message carried by the error.
    pub fn message(&self) -> (m: String)
        ensures
            m@ == self.spec_message(),
    {
        match self {
            BeaconError::Config(m) => m.clone(),
            BeaconError::Channel(m) => m.clone(),
            BeaconError::Tool(m) => m.clone(),
            BeaconError::NotFound(m) => m.clone(),
            BeaconError::Media(m) => m.clone(),
            BeaconError::Stt(m) => m.clone(),
            BeaconError::Vision(m) => m.clone(),
            BeaconError::Link(m) => m.clone(),
            BeaconError::Attachment(m) => m.clone(),
            BeaconError::Skill(m) => m.clone(),
            BeaconError::Harness(m) => m.clone(),
            BeaconError::Database(m) => m.clone(),
            BeaconError::Agent(m) => m.clone(),
            BeaconError::Audio(m) => m.clone(),
        }
    }
}

} // verus!
