//! Voice-activated command pipeline: a wake phrase opens a bounded listening
//! session, recognized speech is normalized and matched against a command
//! table, and the session returns to wake-word listening afterwards.
//!
//! The library holds the decisions of that pipeline as plain functions over
//! explicit state. Devices, recognizers and the command executor are driven by
//! the caller, which performs what a function asks for and reports back what
//! happened.

pub mod error;
pub mod text;
pub mod config;
pub mod normalizer;
pub mod commands;
pub mod audio;
pub mod events;
pub mod listener;
pub mod app;
pub mod stt;
pub mod tts;
pub mod tray;
pub mod db;
pub mod ai_integration;
pub mod document_search;

use vstd::prelude::*;

verus! {

/// The flags of the process as a whole: whether a shutdown has been asked
/// for, and whether start-up has come to its end.
#[derive(Clone, Copy, Debug, PartialEq, Eq, Structural)]
pub struct Lifecycle {
    pub shutdown_requested: bool,
    pub initialization_complete: bool,
}

impl Lifecycle {
    /// A process that has just begun.
    pub fn new() -> (r: Lifecycle)
        ensures
            r == (Lifecycle { shutdown_requested: false, initialization_complete: false }),
    {
        Lifecycle { shutdown_requested: false, initialization_complete: false }
    }
}

/// Whether a shutdown has been asked for.
pub fn should_shutdown(flags: &Lifecycle) -> (r: bool)
    ensures
        r == flags.shutdown_requested,
{
    flags.shutdown_requested
}

/// Whether start-up has come to its end.
pub fn is_initialization_complete(flags: &Lifecycle) -> (r: bool)
    ensures
        r == flags.initialization_complete,
{
    flags.initialization_complete
}

/// Asks for a shutdown. The request stays until the process ends.
pub fn request_shutdown(flags: &mut Lifecycle)
    ensures
        *final(flags) == (Lifecycle { shutdown_requested: true, ..*old(flags) }),
{
    flags.shutdown_requested = true;
}

} // verus!

