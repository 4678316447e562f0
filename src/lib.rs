//! Marks a pull request ready for review and then enables auto-merge on it,
//! for each identifier given on the command line.
//!
//! The library decides; a driver runs what it asks for. A [`session::Session`]
//! names the next external command as an [`command::Invocation`], the driver
//! runs it and feeds the [`command::Outcome`] back, until the session names an
//! exit code.
mod text;

pub mod command;
pub mod session;
pub mod laws;
