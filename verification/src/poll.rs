//! The long-poll request endpoint: the decisions of one poller, which the
//! caller drives with the events it observes outside the lock.

use crate::invocation::ToolArguments;
use crate::model::DispatchView;
use crate::state::AppState;
use crate::trusted::Waiter;
use vstd::prelude::*;

verus! {

/// The bound on one long poll, in seconds.
pub const LONG_POLL_SECONDS: u64 = 15;

/// HTTP status of a poll that hands out an invocation.
pub const STATUS_OK: u16 = 200;

/// HTTP status of a poll whose window elapsed with the queue empty:
/// "try again", not a client fault.
pub const STATUS_LOCKED: u16 = 423;

/// What a poller observes.
#[derive(Clone, Copy, Debug, PartialEq, Eq)]
pub enum PollEvent {
    /// The request has just arrived.
    Arrived,
    /// The notifier showed an edge.
    Notified,
    /// The notifier was closed: its sending half is gone.
    NotifierClosed,
    /// The deadline of the poll fired.
    DeadlineElapsed,
}

/// What the poller does next.
pub enum PollAction<P> {
    /// Answer with this invocation.
    Respond(ToolArguments<P>),
    /// Release the lock and await an edge on this observer, or the
    /// deadline.
    Park(Waiter),
    /// Answer "locked" with an empty body.
    Locked,
    /// Answer with an error: the poll cannot be served.
    Fail,
}

/// What a poller decides, without the handles that the action carries.
pub enum PollDecision<P> {
    /// Answer with this invocation.
    Respond(ToolArguments<P>),
    /// Wait for an edge or the deadline.
    Park,
    /// Answer "locked".
    Locked,
    /// Answer with an error.
    Fail,
}

/// Whether the event makes the poller look at the queue.
pub open spec fn looks_at_queue(event: PollEvent) -> bool {
    event == PollEvent::Arrived || event == PollEvent::Notified
}

/// The decision of a poller that observes `event` in state `state`.
pub open spec fn poll_decision<P>(state: DispatchView<P>, event: PollEvent) -> PollDecision<P> {
    match event {
        PollEvent::DeadlineElapsed => PollDecision::Locked,
        PollEvent::NotifierClosed => PollDecision::Fail,
        _ => match state.front() {
            Some(invocation) => PollDecision::Respond(invocation),
            None => PollDecision::Park,
        },
    }
}

/// The state that the poller leaves behind.
pub open spec fn poll_state<P>(state: DispatchView<P>, event: PollEvent) -> DispatchView<P> {
    if looks_at_queue(event) {
        state.pop()
    } else {
        state
    }
}

impl<P> PollAction<P> {
    /// The decision that the action carries out.
    pub open spec fn decision(self) -> PollDecision<P> {
        match self {
            PollAction::Respond(invocation) => PollDecision::Respond(invocation),
            PollAction::Park(_) => PollDecision::Park,
            PollAction::Locked => PollDecision::Locked,
            PollAction::Fail => PollDecision::Fail,
        }
    }

    /// The HTTP status of the answer, where the action is an answer whose
    /// status this endpoint fixes: 200 with an invocation, 423 when the
    /// window elapsed.
    pub fn status(&self) -> (status: Option<u16>)
        ensures
            *self is Respond ==> status == Some(STATUS_OK),
            *self is Locked ==> status == Some(STATUS_LOCKED),
            *self is Park || *self is Fail ==> status is None,
    {
        match self {
            PollAction::Respond(_) => Some(STATUS_OK),
            PollAction::Locked => Some(STATUS_LOCKED),
            _ => None,
        }
    }
}

impl<P> AppState<P> {
    /// One step of a long poll, under the lock. On arrival and after every
    /// edge the poller takes the front of the queue if there is one, and
    /// parks on a fresh observer of the notifier otherwise, one that no
    /// earlier pulse wakes. When the
    /// deadline fires it answers "locked", and when the notifier is closed
    /// it fails; neither touches the state.
    pub fn poll(&mut self, event: PollEvent) -> (action: PollAction<P>)
        requires
            old(self).wf(),
        ensures
            final(self).wf(),
            action.decision() == poll_decision(old(self)@, event),
            final(self)@ == poll_state(old(self)@, event),
            action matches PollAction::Respond(invocation) ==> invocation.id is Some,
    {
        match event {
            PollEvent::DeadlineElapsed => PollAction::Locked,
            PollEvent::NotifierClosed => PollAction::Fail,
            _ => match self.pop() {
                Some(invocation) => PollAction::Respond(invocation),
                None => PollAction::Park(self.clone_notifier()),
            },
        }
    }
}

} // verus!
