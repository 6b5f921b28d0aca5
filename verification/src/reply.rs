//! The response endpoint: a reply from the plugin is routed to the
//! dispatcher that waits under its correlation id.

use crate::invocation::RunCommandResponse;
use crate::model::DispatchView;
use crate::state::AppState;
use crate::trusted::{send_reply, Inbox, Reply};
use vstd::prelude::*;
use vstd::string::StringExecFns;

verus! {

/// Why a reply was not delivered.
#[derive(Clone, Copy, Debug, PartialEq, Eq)]
pub enum ReplyError {
    /// No dispatch waits under the id of the reply.
    UnknownId,
    /// The dispatcher that waited has gone: its inbox is closed.
    ReceiverGone,
}

/// The result of the response endpoint, given whether an inbox waited under
/// the id and whether sending into it succeeded.
pub open spec fn reply_outcome(found: bool, sent: bool) -> Result<(), ReplyError> {
    if !found {
        Err(ReplyError::UnknownId)
    } else if sent {
        Ok(())
    } else {
        Err(ReplyError::ReceiverGone)
    }
}

/// Where a reply goes and what is sent there: into the inbox that waits
/// under the id of the reply goes `Ok` of its response, unchanged. A reply
/// under an id that is not registered goes nowhere.
pub open spec fn routed<P>(state: DispatchView<P>, payload: RunCommandResponse) -> Option<
    (Inbox, Reply),
> {
    match state.inbox(payload.id) {
        Some(inbox) => Some((inbox, Ok(payload.response))),
        None => None,
    }
}

/// The text of a reply error.
pub open spec fn reply_error_text(error: ReplyError) -> Seq<char> {
    match error {
        ReplyError::UnknownId => "Unknown ID"@,
        ReplyError::ReceiverGone => "channel closed"@,
    }
}

/// Turns what the correlation map and the inbox returned into the result of
/// the response endpoint.
pub fn reply_status(found: bool, sent: bool) -> (outcome: Result<(), ReplyError>)
    ensures
        outcome == reply_outcome(found, sent),
{
    if !found {
        Err(ReplyError::UnknownId)
    } else if sent {
        Ok(())
    } else {
        Err(ReplyError::ReceiverGone)
    }
}

impl ReplyError {
    /// The message that the HTTP caller sees.
    pub fn message(&self) -> (text: String)
        ensures
            text@ == reply_error_text(*self),
    {
        match self {
            ReplyError::UnknownId => String::from_str("Unknown ID"),
            ReplyError::ReceiverGone => String::from_str("channel closed"),
        }
    }
}

impl<P> AppState<P> {
    /// Takes the inbox that a reply is for out of the correlation map and
    /// pairs it with what is to be sent into it.
    pub fn route_response(&mut self, payload: RunCommandResponse) -> (route: Option<
        (Inbox, Reply),
    >)
        requires
            old(self).wf(),
        ensures
            final(self).wf(),
            final(self)@ == old(self)@.unregister(payload.id),
            route == routed(old(self)@, payload),
    {
        match self.take_inbox(payload.id) {
            Some(inbox) => Some((inbox, Ok(payload.response))),
            None => None,
        }
    }

    /// The response endpoint, under the lock. A reply whose id is not
    /// registered is refused and nothing changes. Otherwise the inbox is
    /// removed from the correlation map and what `route_response` pairs
    /// with it is sent into it; the send fails only when the dispatcher
    /// has gone.
    pub fn deliver_response(&mut self, payload: RunCommandResponse) -> (outcome: Result<
        (),
        ReplyError,
    >)
        requires
            old(self).wf(),
        ensures
            final(self).wf(),
            final(self)@ == old(self)@.unregister(payload.id),
            !old(self)@.is_registered(payload.id) ==> final(self)@ == old(self)@ && outcome == Err::<
                (),
                ReplyError,
            >(ReplyError::UnknownId),
            old(self)@.is_registered(payload.id) ==> outcome != Err::<(), ReplyError>(
                ReplyError::UnknownId,
            ),
    {
        let ghost id = payload.id;
        match self.route_response(payload) {
            Some((inbox, reply)) => {
                let sent = send_reply(&inbox, reply);
                reply_status(true, sent)
            },
            None => {
                assert(old(self)@.inboxes.remove(id) =~= old(self)@.inboxes);
                reply_status(false, false)
            },
        }
    }
}

} // verus!
