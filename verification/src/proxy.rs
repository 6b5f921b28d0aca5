//! The proxy endpoint: an invocation that a secondary instance forwards is
//! queued under the id it came with, as if it had been dispatched here.

use crate::dispatch::Ticket;
use crate::invocation::{RunCommandResponse, ToolArguments};
use crate::state::AppState;
use crate::trusted::{open_inbox, Reply};
use vstd::prelude::*;
use vstd::string::StringExecFns;

verus! {

/// Why a proxied invocation got no reply.
#[derive(Clone, Debug, PartialEq, Eq)]
pub enum ProxyError {
    /// The body carried no correlation id.
    MissingId,
    /// The inbox was dropped without producing a value.
    NoReply,
    /// The plugin reported a failure, with this message.
    Plugin(String),
}

/// The answer to a proxied invocation, given what the inbox yielded.
pub open spec fn proxy_outcome(id: u128, received: Option<Reply>) -> Result<
    RunCommandResponse,
    ProxyError,
> {
    match received {
        Some(Ok(response)) => Ok(RunCommandResponse { response, id }),
        Some(Err(message)) => Err(ProxyError::Plugin(message)),
        None => Err(ProxyError::NoReply),
    }
}

/// The text of a proxy error.
pub open spec fn proxy_error_text(error: ProxyError) -> Seq<char> {
    match error {
        ProxyError::MissingId => "Got proxy command with no id"@,
        ProxyError::NoReply => "Couldn't receive response"@,
        ProxyError::Plugin(message) => message@,
    }
}

/// Turns what the inbox yielded into the answer to the secondary: the
/// response under the id of the invocation, or the error.
pub fn proxy_reply(id: u128, received: Option<Reply>) -> (outcome: Result<
    RunCommandResponse,
    ProxyError,
>)
    ensures
        outcome == proxy_outcome(id, received),
{
    match received {
        Some(Ok(response)) => Ok(RunCommandResponse { response, id }),
        Some(Err(message)) => Err(ProxyError::Plugin(message)),
        None => Err(ProxyError::NoReply),
    }
}

impl ProxyError {
    /// The message that the secondary sees.
    pub fn message(&self) -> (text: String)
        ensures
            text@ == proxy_error_text(*self),
    {
        match self {
            ProxyError::MissingId => String::from_str("Got proxy command with no id"),
            ProxyError::NoReply => String::from_str("Couldn't receive response"),
            ProxyError::Plugin(message) => message.clone(),
        }
    }
}

impl<P> AppState<P> {
    /// The first half of the proxy endpoint, under the lock. An invocation
    /// without an id is refused and nothing changes. Otherwise an inbox is
    /// opened and registered under the id that the caller supplied, and the
    /// invocation joins the queue.
    pub fn begin_proxy(&mut self, command: ToolArguments<P>) -> (ticket: Result<
        Ticket,
        ProxyError,
    >)
        requires
            old(self).wf(),
        ensures
            final(self).wf(),
            command.id is None ==> final(self)@ == old(self)@,
            command.id is None ==> (ticket matches Err(error) && error == ProxyError::MissingId),
            command.id matches Some(id) ==> (ticket matches Ok(t) && t.id == id && t.trigger
                == old(self)@.trigger),
            command.id matches Some(id) ==> final(self)@.is_registered(id),
            command.id matches Some(id) ==> final(self)@ == old(self)@.enqueue(
                command.args,
                id,
                final(self)@.inboxes[id],
            ),
    {
        match command.id {
            Some(id) => {
                let (inbox, replies) = open_inbox();
                self.enqueue(command.args, id, inbox);
                Ok(Ticket { id, replies, trigger: self.clone_trigger() })
            },
            None => Err(ProxyError::MissingId),
        }
    }

    /// The second half of the proxy endpoint, under the lock again: the
    /// entry under `id` is removed and what the inbox yielded becomes the
    /// answer.
    pub fn finish_proxy(&mut self, id: u128, received: Option<Reply>) -> (outcome: Result<
        RunCommandResponse,
        ProxyError,
    >)
        requires
            old(self).wf(),
        ensures
            final(self).wf(),
            final(self)@ == old(self)@.unregister(id),
            !final(self)@.is_registered(id),
            outcome == proxy_outcome(id, received),
    {
        let _ = self.take_inbox(id);
        proxy_reply(id, received)
    }
}

} // verus!
