//! The proxy forwarder of a secondary instance: the decisions of its loop,
//! which the caller drives with the outcome of each HTTP exchange.

use crate::invocation::{RunCommandResponse, ToolArguments};
use crate::model::DispatchView;
use crate::state::AppState;
use crate::trusted::{latch_is_empty, send_reply, Inbox, Reply};
use vstd::prelude::*;
use vstd::string::StringExecFns;

verus! {

/// What the forwarder does at the top of its loop.
#[derive(Debug, PartialEq, Eq)]
pub enum ForwardAction<P> {
    /// The shutdown latch has fired: leave the loop.
    Stop,
    /// Post this invocation to the primary and remember its id.
    Post { id: u128, invocation: ToolArguments<P> },
    /// The queue is empty: await one edge of the notifier.
    Park,
}

/// How the HTTP exchange with the primary ended.
#[derive(Clone, Debug, PartialEq, Eq)]
pub enum ProxyExchange {
    /// The primary answered and the body parsed as a reply.
    Reply(RunCommandResponse),
    /// The request could not be sent or no answer came.
    TransportFailed,
    /// An answer came that does not parse as a reply.
    Unparsable,
}

/// What became of a forwarded invocation.
#[derive(Clone, Copy, Debug, PartialEq, Eq)]
pub enum ForwardReport {
    /// The response was sent into the waiting inbox.
    Delivered,
    /// No dispatch waits under the id any more.
    UnknownId,
    /// The dispatcher that waited has gone.
    ReceiverGone,
    /// The exchange failed: nothing was delivered and the inbox is left
    /// where it is.
    Dropped,
}

/// What the forwarder decides at the top of its loop.
pub open spec fn forward_decision<P>(state: DispatchView<P>, stop: bool) -> ForwardAction<P> {
    if stop {
        ForwardAction::Stop
    } else {
        match state.front() {
            Some(invocation) => ForwardAction::Post { id: invocation.id->0, invocation },
            None => ForwardAction::Park,
        }
    }
}

/// The state that the decision leaves behind.
pub open spec fn forward_state<P>(state: DispatchView<P>, stop: bool) -> DispatchView<P> {
    if stop {
        state
    } else {
        state.pop()
    }
}

/// The state after an exchange for the invocation under `id`.
pub open spec fn settled_state<P>(
    state: DispatchView<P>,
    id: u128,
    exchange: ProxyExchange,
) -> DispatchView<P> {
    if exchange is Reply {
        state.unregister(id)
    } else {
        state
    }
}

/// Where the outcome of an exchange goes and what is sent there: after a
/// reply from the primary, `Ok` of its response goes into the inbox that
/// waits under `id`. A failed exchange sends nothing, nor does a reply for
/// an id under which nobody waits.
pub open spec fn forwarded<P>(
    state: DispatchView<P>,
    id: u128,
    exchange: ProxyExchange,
) -> Option<(Inbox, Reply)> {
    match exchange {
        ProxyExchange::Reply(reply) => match state.inbox(id) {
            Some(inbox) => Some((inbox, Ok(reply.response))),
            None => None,
        },
        _ => None,
    }
}

/// What became of the invocation, given whether the exchange brought a
/// reply, whether an inbox waited under the id and whether sending into it
/// succeeded.
pub open spec fn settled_report(replied: bool, found: bool, sent: bool) -> ForwardReport {
    if !replied {
        ForwardReport::Dropped
    } else if !found {
        ForwardReport::UnknownId
    } else if sent {
        ForwardReport::Delivered
    } else {
        ForwardReport::ReceiverGone
    }
}

/// Turns what the exchange, the correlation map and the inbox returned into
/// the report on one forwarding.
pub fn forward_report(replied: bool, found: bool, sent: bool) -> (report: ForwardReport)
    ensures
        report == settled_report(replied, found, sent),
{
    if !replied {
        ForwardReport::Dropped
    } else if !found {
        ForwardReport::UnknownId
    } else if sent {
        ForwardReport::Delivered
    } else {
        ForwardReport::ReceiverGone
    }
}

impl ProxyExchange {
    /// Whether the exchange brought a reply.
    pub fn is_reply(&self) -> (replied: bool)
        ensures
            replied == (*self is Reply),
    {
        match self {
            ProxyExchange::Reply(_) => true,
            _ => false,
        }
    }
}

/// The address of the primary's proxy endpoint.
pub fn proxy_url() -> (url: String)
    ensures
        url@ == "http://127.0.0.1:44755/proxy"@,
{
    String::from_str("http://127.0.0.1:44755/proxy")
}

impl<P> AppState<P> {
    /// The top of the forwarder loop, under the lock, once it is known
    /// whether shutdown was requested: stop, or take the front of the queue
    /// for posting, or park when the queue is empty.
    pub fn forward_step(&mut self, stop: bool) -> (action: ForwardAction<P>)
        requires
            old(self).wf(),
        ensures
            final(self).wf(),
            action == forward_decision(old(self)@, stop),
            final(self)@ == forward_state(old(self)@, stop),
            action matches ForwardAction::Post { id, invocation } ==> invocation.id == Some(id),
    {
        if stop {
            ForwardAction::Stop
        } else {
            match self.pop() {
                Some(invocation) => match invocation.id {
                    Some(id) => ForwardAction::Post { id, invocation },
                    None => ForwardAction::Park,
                },
                None => ForwardAction::Park,
            }
        }
    }

    /// The top of the forwarder loop: looks at the shutdown latch, then
    /// decides as `forward_step` does. Whether the latch has fired is not
    /// decided here, so the contract covers both answers.
    pub fn forward_next(&mut self, exit: &tokio::sync::oneshot::Receiver<()>) -> (action:
        ForwardAction<P>)
        requires
            old(self).wf(),
        ensures
            final(self).wf(),
            action is Stop ==> final(self)@ == old(self)@,
            !(action is Stop) ==> action == forward_decision(old(self)@, false) && final(self)@
                == old(self)@.pop(),
            action matches ForwardAction::Post { id, invocation } ==> invocation.id == Some(id),
    {
        let stop = !latch_is_empty(exit);
        self.forward_step(stop)
    }

    /// After a reply from the primary, takes the inbox under `id` out of
    /// the correlation map and pairs it with what is to be sent into it.
    /// After a failed exchange the state stays as it was.
    pub fn route_exchange(&mut self, id: u128, exchange: ProxyExchange) -> (route: Option<
        (Inbox, Reply),
    >)
        requires
            old(self).wf(),
        ensures
            final(self).wf(),
            final(self)@ == settled_state(old(self)@, id, exchange),
            route == forwarded(old(self)@, id, exchange),
    {
        match exchange {
            ProxyExchange::Reply(reply) => match self.take_inbox(id) {
                Some(inbox) => Some((inbox, Ok(reply.response))),
                None => None,
            },
            _ => None,
        }
    }

    /// The end of one forwarding, under the lock. After a reply from the
    /// primary the inbox under `id`, the id that was remembered when the
    /// invocation was taken, is removed and what `route_exchange` pairs
    /// with it is sent into it. After a failed exchange nothing is
    /// delivered and the state stays as it was.
    pub fn forward_settle(&mut self, id: u128, exchange: ProxyExchange) -> (report: ForwardReport)
        requires
            old(self).wf(),
        ensures
            final(self).wf(),
            final(self)@ == settled_state(old(self)@, id, exchange),
            !(exchange is Reply) ==> report == ForwardReport::Dropped,
            exchange is Reply && !old(self)@.is_registered(id) ==> report
                == ForwardReport::UnknownId,
            exchange is Reply && old(self)@.is_registered(id) ==> report
                == ForwardReport::Delivered || report == ForwardReport::ReceiverGone,
    {
        let replied = exchange.is_reply();
        match self.route_exchange(id, exchange) {
            Some((inbox, reply)) => {
                let sent = send_reply(&inbox, reply);
                forward_report(true, true, sent)
            },
            None => forward_report(replied, false, false),
        }
    }
}

} // verus!
