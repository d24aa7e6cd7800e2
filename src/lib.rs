//! Lifecycle and frontend relay of a device-control server.
//!
//! The engine keeps the server alive across client sessions, relays what
//! happens to an optional supervising frontend, and turns away a second client
//! while one is connected. Every decision stands here as a function from state
//! and event to next state and actions; a driver performs the actions.
use vstd::prelude::*;

pub mod advertise;
pub mod cli;
pub mod devices;
pub mod engine;
pub mod error;
pub mod link;
pub mod messages;
pub mod options;
pub mod repeater;
pub mod text;

pub use engine::{
    EngineAction, EngineEvent, EnginePhase, IntifaceEngine, ServerEvent, SessionOutcome,
};
pub use error::IntifaceError;
pub use link::{FrontendLink, InboundFrame, LinkAction, LinkEvent};
pub use messages::{EngineMessage, IntifaceMessage};
pub use options::{EngineOptions, EngineOptionsBuilder, LogLevel};
pub use repeater::ButtplugRepeater;

verus! {

} // verus!
