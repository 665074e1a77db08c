//! The unit of work that a node runs.

use vstd::prelude::*;
use crate::error::OckamError;

verus! {

/// A worker: it is started once, handles the messages addressed to it, and is
/// shut down once.
///
/// Every step has a default that succeeds and leaves the context as it
/// found it, so that a worker states only what it does differently. Of a
/// step that a worker writes itself nothing is promised.
pub trait Worker: Send + 'static {
    /// The messages that the worker handles.
    type Message;

    /// What the node lends the worker for the duration of a step.
    type Context: Send + 'static;

    /// Runs once, before the first message.
    fn initialize(&mut self, context: &mut Self::Context) -> (outcome: Result<(), OckamError>)
        default_ensures
            outcome is Ok,
            *final(context) == *old(context),
    {
        Ok(())
    }

    /// Runs once, after the last message.
    fn shutdown(&mut self, context: &mut Self::Context) -> (outcome: Result<(), OckamError>)
        default_ensures
            outcome is Ok,
            *final(context) == *old(context),
    {
        Ok(())
    }

    /// Handles one message.
    fn handle_message(&mut self, context: &mut Self::Context, message: Self::Message) -> (outcome:
        Result<(), OckamError>)
        default_ensures
            outcome is Ok,
            *final(context) == *old(context),
    {
        Ok(())
    }
}

} // verus!
