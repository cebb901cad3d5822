//! Supervision of a single external server process on behalf of a desktop
//! front end: configuration checks, the life cycle of the one process slot,
//! bounded capture of the process output, reachability and shutdown rules.
//!
//! The library decides; the program around it performs. Every operation here
//! takes what was observed of the outside world as plain values and returns
//! the next state together with what has to be done.

pub mod binary;
pub mod commands;
pub mod emitter;
pub mod error;
pub mod events;
pub mod form;
pub mod health;
pub mod invocation;
pub mod lifecycle;
pub mod log_buffer;
pub mod shutdown;
pub mod supervisor;
pub mod text;
pub mod toast;
pub mod types;
pub mod ui;
