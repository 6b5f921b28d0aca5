//! The mathematical model of the dispatch state: the queue as a sequence,
//! the correlation map as a map from id to inbox, and the two halves of the
//! change notifier.

use crate::invocation::ToolArguments;
use crate::trusted::{Inbox, Trigger, Waiter};
use vstd::prelude::*;

verus! {

/// What the dispatch state holds, seen as mathematics.
#[verifier::ext_equal]
pub struct DispatchView<P> {
    /// Invocations awaiting pickup, the oldest first.
    pub queue: Seq<ToolArguments<P>>,
    /// The reply inbox of each dispatch that is still waiting, by id.
    pub inboxes: Map<u128, Inbox>,
    /// The sending half of the change notifier, of which every dispatcher
    /// gets a handle.
    pub trigger: Trigger,
    /// The state's own observer of the change notifier. It keeps the
    /// channel open, so that a pulse finds a receiver even while no poller
    /// is parked. No operation on the queue or the correlation map touches
    /// either half.
    pub waiter: Waiter,
}

impl<P> DispatchView<P> {
    /// Nothing queued, nobody waiting, around the given notifier.
    pub open spec fn empty(trigger: Trigger, waiter: Waiter) -> Self {
        DispatchView { queue: Seq::empty(), inboxes: Map::empty(), trigger, waiter }
    }

    /// Every queued invocation carries a correlation id.
    pub open spec fn well_formed(self) -> bool {
        forall|i: int| 0 <= i < self.queue.len() ==> (#[trigger] self.queue[i]).id is Some
    }

    /// The state after `invocation` joined the back of the queue.
    pub open spec fn push(self, invocation: ToolArguments<P>) -> Self {
        DispatchView { queue: self.queue.push(invocation), ..self }
    }

    /// The invocation that the next poller receives, if there is one.
    pub open spec fn front(self) -> Option<ToolArguments<P>> {
        if self.queue.len() > 0 {
            Some(self.queue[0])
        } else {
            None
        }
    }

    /// The state after the next poller took the front of the queue; the same
    /// state where the queue is empty.
    pub open spec fn pop(self) -> Self {
        if self.queue.len() > 0 {
            DispatchView { queue: self.queue.subrange(1, self.queue.len() as int), ..self }
        } else {
            self
        }
    }

    /// Whether a dispatch waits under `id`.
    pub open spec fn is_registered(self, id: u128) -> bool {
        self.inboxes.contains_key(id)
    }

    /// The inbox that waits under `id`, if any.
    pub open spec fn inbox(self, id: u128) -> Option<Inbox> {
        if self.inboxes.contains_key(id) {
            Some(self.inboxes[id])
        } else {
            None
        }
    }

    /// The state after `inbox` was registered under `id`, in place of any
    /// inbox that waited there before.
    pub open spec fn register(self, id: u128, inbox: Inbox) -> Self {
        DispatchView { inboxes: self.inboxes.insert(id, inbox), ..self }
    }

    /// The state after the entry under `id` was removed; the same state
    /// where there was none.
    pub open spec fn unregister(self, id: u128) -> Self {
        DispatchView { inboxes: self.inboxes.remove(id), ..self }
    }

    /// The state after a dispatch under `id`: its inbox is registered, then
    /// its invocation, stamped with `id`, joins the queue.
    pub open spec fn enqueue(self, args: P, id: u128, inbox: Inbox) -> Self {
        self.register(id, inbox).push(ToolArguments { args, id: Some(id) })
    }
}

} // verus!
