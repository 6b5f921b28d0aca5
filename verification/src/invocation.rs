//! Invocations and replies as they travel between the dispatcher, the queue
//! and the plugin.

use crate::trusted::{fresh_id, is_random_id};
use vstd::prelude::*;

verus! {

/// A tool invocation: the tagged payload, which the bridge carries without
/// looking inside, and the correlation id, absent until the invocation is
/// stamped.
#[derive(Clone, Debug, PartialEq, Eq)]
pub struct ToolArguments<P> {
    pub args: P,
    pub id: Option<u128>,
}

/// The plugin's answer to one invocation.
#[derive(Clone, Debug, PartialEq, Eq)]
pub struct RunCommandResponse {
    pub response: String,
    pub id: u128,
}

impl<P> ToolArguments<P> {
    /// An invocation that has no correlation id yet.
    pub fn unstamped(args: P) -> (invocation: Self)
        ensures
            invocation == (ToolArguments { args, id: None }),
    {
        ToolArguments { args, id: None }
    }

    /// The same payload under the correlation id `id`, whatever id the
    /// invocation had before.
    pub fn stamped(self, id: u128) -> (invocation: Self)
        ensures
            invocation == (ToolArguments { args: self.args, id: Some(id) }),
    {
        ToolArguments { args: self.args, id: Some(id) }
    }

    /// Wraps a payload and stamps it with a fresh random id, which is also
    /// returned on its own.
    pub fn new(args: P) -> (stamped: (Self, u128))
        ensures
            stamped.0 == (ToolArguments { args, id: Some(stamped.1) }),
            is_random_id(stamped.1),
    {
        ToolArguments::unstamped(args).with_id()
    }

    /// Replaces the id by a fresh random one, which is also returned on its
    /// own.
    pub fn with_id(self) -> (stamped: (Self, u128))
        ensures
            stamped.0 == (ToolArguments { args: self.args, id: Some(stamped.1) }),
            is_random_id(stamped.1),
    {
        let id = fresh_id();
        (self.stamped(id), id)
    }
}

} // verus!
