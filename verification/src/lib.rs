//! Dispatcher core of an administrative console for a remote automation-bus
//! controller.
//!
//! The crate holds the logic of the console's bridge between a synchronous
//! caller and a single long-lived connection to a remote node: the command
//! catalog (which abstract operation maps to which remote method and payload),
//! the admission-controlled command queue, the command router's execution
//! plans, the watcher registry, and the connection supervisor's lifecycle.
//! All of it is written as plain state machines over plain values, so that
//! every decision is verified; the surrounding process performs the actual
//! transport work (opening the connection, issuing remote calls, spawning and
//! aborting tasks) and feeds the results back in as events.
//!
//! Raw payload values that the logic only carries through (deploy bodies,
//! service-call arguments, poll results) appear as a type parameter `V`, so
//! the logic is verified for every possible payload representation.

pub mod catalog;
pub mod errors;
pub mod nodes;
pub mod notify;
pub mod queue;
pub mod registry;
pub mod route;
pub mod session;
pub mod text;
pub mod watch;
