//! A command-line build orchestrator for microcontroller firmware.
//!
//! The library parses build options into a [`config::Config`], and drives a
//! fixed build pipeline (compile linked files, compile and link the main
//! source, convert the image, upload it) as a verified state machine.  The
//! actual external tools are invoked by the surrounding application; the
//! library decides which command runs next and how the run proceeds after
//! each exit status.

pub mod args;
pub mod command;
pub mod config;
pub mod pipeline;

pub use config::Config;
