//! The tool dispatch entry: an invocation is stamped, queued with its inbox
//! registered, announced on the notifier, and, once the reply has come,
//! turned into the result of the tool call.

use crate::invocation::ToolArguments;
use crate::state::AppState;
use crate::trusted::{
    fresh_id, is_random_id, open_inbox, pulse, Inbox, Reply, ReplyReceiver, Trigger,
};
use vstd::prelude::*;
use vstd::string::StringExecFns;

verus! {

/// What a dispatcher holds between queueing its invocation and receiving
/// the reply.
pub struct Ticket {
    /// The correlation id under which the inbox is registered.
    pub id: u128,
    /// The receiving half of the inbox, to be awaited outside the lock.
    pub replies: ReplyReceiver,
    /// A handle on the notifier, to be pulsed outside the lock.
    pub trigger: Trigger,
}

/// The result of a tool call that reached the plugin.
#[derive(Clone, Debug, PartialEq, Eq)]
pub enum ToolReply {
    /// The plugin's opaque text.
    Success(String),
    /// The plugin reported a failure: a tool-error result, not a transport
    /// error.
    ToolError(String),
}

/// An internal failure of the bridge during a dispatch.
#[derive(Clone, Debug, PartialEq, Eq)]
pub enum DispatchFault {
    /// The notifier had no receiver left; the text is that of the send
    /// error.
    NotifierClosed(String),
    /// The inbox was dropped without producing a value.
    NoReply,
}

/// The result of a tool call, given what the inbox yielded.
pub open spec fn tool_outcome(received: Option<Reply>) -> Result<ToolReply, DispatchFault> {
    match received {
        Some(Ok(text)) => Ok(ToolReply::Success(text)),
        Some(Err(message)) => Ok(ToolReply::ToolError(message)),
        None => Err(DispatchFault::NoReply),
    }
}

/// The result of announcing an invocation, given what pulsing the notifier
/// returned.
pub open spec fn announce_outcome(sent: Result<(), String>) -> Result<(), DispatchFault> {
    match sent {
        Ok(_) => Ok(()),
        Err(text) => Err(DispatchFault::NotifierClosed(text)),
    }
}

/// The text of an internal failure.
pub open spec fn fault_text(fault: DispatchFault) -> Seq<char> {
    match fault {
        DispatchFault::NotifierClosed(text) => "Unable to trigger send "@ + text@,
        DispatchFault::NoReply => "Couldn't receive response"@,
    }
}

/// Turns what the inbox yielded into the result of the tool call: a reply
/// is a success, a reported failure is a tool error, and an inbox that was
/// dropped is an internal failure.
pub fn conclude(received: Option<Reply>) -> (outcome: Result<ToolReply, DispatchFault>)
    ensures
        outcome == tool_outcome(received),
{
    match received {
        Some(Ok(text)) => Ok(ToolReply::Success(text)),
        Some(Err(message)) => Ok(ToolReply::ToolError(message)),
        None => Err(DispatchFault::NoReply),
    }
}

/// Turns what pulsing the notifier returned into the result of the
/// announcement.
pub fn announced(sent: Result<(), String>) -> (outcome: Result<(), DispatchFault>)
    ensures
        outcome == announce_outcome(sent),
{
    match sent {
        Ok(_) => Ok(()),
        Err(text) => Err(DispatchFault::NotifierClosed(text)),
    }
}

impl DispatchFault {
    /// The message that the MCP client sees.
    pub fn message(&self) -> (text: String)
        ensures
            text@ == fault_text(*self),
    {
        match self {
            DispatchFault::NotifierClosed(cause) => String::from_str(
                "Unable to trigger send ",
            ).concat(cause.as_str()),
            DispatchFault::NoReply => String::from_str("Couldn't receive response"),
        }
    }
}

impl ToolReply {
    /// Whether the client sees a tool-error result.
    pub fn is_error(&self) -> (error: bool)
        ensures
            error == (*self is ToolError),
    {
        match self {
            ToolReply::Success(_) => false,
            ToolReply::ToolError(_) => true,
        }
    }

    /// The text of the result.
    pub fn text(&self) -> (text: &String)
        ensures
            *self matches ToolReply::Success(t) ==> *text == t,
            *self matches ToolReply::ToolError(t) ==> *text == t,
    {
        match self {
            ToolReply::Success(text) => text,
            ToolReply::ToolError(text) => text,
        }
    }
}

impl Ticket {
    /// Pulses the notifier, so that a parked poller or forwarder looks at
    /// the queue again. Whether the pulse finds a receiver is not decided
    /// here: the result is that of `announced` on what the notifier
    /// returned.
    pub fn announce(&self) -> (outcome: Result<(), DispatchFault>)
        ensures
            outcome matches Err(fault) ==> fault is NotifierClosed,
    {
        announced(pulse(&self.trigger))
    }
}

impl<P> AppState<P> {
    /// Registers `inbox` under `id` and queues `args` stamped with `id`.
    pub fn enqueue(&mut self, args: P, id: u128, inbox: Inbox)
        requires
            old(self).wf(),
        ensures
            final(self).wf(),
            final(self)@ == old(self)@.enqueue(args, id, inbox),
    {
        self.register_inbox(id, inbox);
        let _ = self.push(ToolArguments { args, id: Some(id) });
    }

    /// The first half of a tool run, under the lock: mints a fresh id,
    /// opens an inbox, queues the invocation and hands back what the
    /// dispatcher needs once the lock is released.
    pub fn begin_tool_run(&mut self, args: P) -> (ticket: Ticket)
        requires
            old(self).wf(),
        ensures
            final(self).wf(),
            is_random_id(ticket.id),
            final(self)@.is_registered(ticket.id),
            final(self)@ == old(self)@.enqueue(args, ticket.id, final(self)@.inboxes[ticket.id]),
            ticket.trigger == old(self)@.trigger,
    {
        let id = fresh_id();
        let (inbox, replies) = open_inbox();
        self.enqueue(args, id, inbox);
        Ticket { id, replies, trigger: self.clone_trigger() }
    }

    /// Gives a tool run up before any reply was awaited, under the lock:
    /// the entry under `id` is removed and the fault becomes the result.
    /// This is the way out when the announcement failed.
    pub fn abandon_tool_run(&mut self, id: u128, fault: DispatchFault) -> (outcome: Result<
        ToolReply,
        DispatchFault,
    >)
        requires
            old(self).wf(),
        ensures
            final(self).wf(),
            final(self)@ == old(self)@.unregister(id),
            !final(self)@.is_registered(id),
            outcome == Err::<ToolReply, DispatchFault>(fault),
    {
        let _ = self.take_inbox(id);
        Err(fault)
    }

    /// The second half of a tool run, under the lock again: the entry under
    /// `id` is removed, whether or not the reply path removed it before,
    /// and what the inbox yielded becomes the result.
    pub fn finish_tool_run(&mut self, id: u128, received: Option<Reply>) -> (outcome: Result<
        ToolReply,
        DispatchFault,
    >)
        requires
            old(self).wf(),
        ensures
            final(self).wf(),
            final(self)@ == old(self)@.unregister(id),
            !final(self)@.is_registered(id),
            outcome == tool_outcome(received),
    {
        let _ = self.take_inbox(id);
        conclude(received)
    }
}

} // verus!
