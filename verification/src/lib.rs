//! Decision logic for checking that a freshly provisioned compute instance
//! becomes reachable: where to ask for its address, how often to retry each
//! stage, when to give up, and what to report.
//!
//! Nothing here performs I/O. Every stage is a small state machine: it names
//! the next action it needs ([`protocol::Action`]), and is advanced with what
//! came of that action ([`protocol::Event`]). A driver performs the actions.

pub mod bounds;
pub mod instance;
pub mod json;
pub mod models;
pub mod orchestrator;
pub mod policy;
pub mod probe;
pub mod protocol;
pub mod resolver;
pub mod retry;
pub mod sequence;
pub mod text;
pub mod types;
pub mod workflow;
