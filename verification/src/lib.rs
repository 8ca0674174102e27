//! Orchestration engine for a desktop setup wizard of a self-hosted
//! sync-server companion tool.
//!
//! The engine is a step state machine: user events and task-completion
//! events are applied to a single wizard state, and each application
//! reports which one-shot background tasks became eligible to run. The
//! host event loop executes those tasks and feeds their results back in.

pub mod account;
pub mod addr;
pub mod controller;
pub mod errors;
pub mod filtered;
pub mod present;
pub mod task;
pub mod wizard;

pub use account::UserOperation;
