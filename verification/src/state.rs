//! The shared dispatch state: the rendezvous point between the tool
//! dispatcher, the long-poll endpoint and the proxy forwarder.

use crate::invocation::ToolArguments;
use crate::model::DispatchView;
use crate::trusted::{clone_trigger, new_notifier, subscribe, Inbox, Trigger, Waiter};
use std::collections::{HashMap, VecDeque};
use vstd::prelude::*;

verus! {

broadcast use vstd::std_specs::hash::group_hash_axioms;

/// Queue, correlation map and change notifier. The caller holds it behind
/// one lock and calls a method only while it holds that lock.
pub struct AppState<P> {
    process_queue: VecDeque<ToolArguments<P>>,
    output_map: HashMap<u128, Inbox>,
    waiter: Waiter,
    trigger: Trigger,
}

/// Why an invocation was not queued.
#[derive(Clone, Copy, Debug, PartialEq, Eq)]
pub enum QueueError {
    /// The invocation carries no correlation id.
    MissingId,
}

impl<P> View for AppState<P> {
    type V = DispatchView<P>;

    closed spec fn view(&self) -> DispatchView<P> {
        DispatchView {
            queue: self.process_queue@,
            inboxes: self.output_map@,
            trigger: self.trigger,
            waiter: self.waiter,
        }
    }
}

impl<P> AppState<P> {
    /// The invariant of the state: every queued invocation carries a
    /// correlation id. `new` establishes it and every method keeps it.
    pub open spec fn wf(&self) -> bool {
        self@.well_formed()
    }

    /// An empty state with a notifier of its own.
    pub fn new() -> (state: Self)
        ensures
            state.wf(),
            state@ == DispatchView::<P>::empty(state@.trigger, state@.waiter),
    {
        let (trigger, waiter) = new_notifier();
        AppState { process_queue: VecDeque::new(), output_map: HashMap::new(), waiter, trigger }
    }

    /// Puts `invocation` at the back of the queue. One without a
    /// correlation id is refused and the state stays as it was.
    pub fn push(&mut self, invocation: ToolArguments<P>) -> (queued: Result<(), QueueError>)
        requires
            old(self).wf(),
        ensures
            final(self).wf(),
            invocation.id is Some ==> queued is Ok && final(self)@ == old(self)@.push(invocation),
            invocation.id is None ==> queued == Err::<(), QueueError>(QueueError::MissingId)
                && final(self)@ == old(self)@,
    {
        if invocation.id.is_some() {
            self.process_queue.push_back(invocation);
            Ok(())
        } else {
            Err(QueueError::MissingId)
        }
    }

    /// Takes the oldest queued invocation, if there is one.
    pub fn pop(&mut self) -> (next: Option<ToolArguments<P>>)
        requires
            old(self).wf(),
        ensures
            final(self).wf(),
            next == old(self)@.front(),
            final(self)@ == old(self)@.pop(),
            next matches Some(invocation) ==> invocation.id is Some,
    {
        self.process_queue.pop_front()
    }

    /// Registers `inbox` under `id`. An inbox that waited under the same id
    /// is dropped.
    pub fn register_inbox(&mut self, id: u128, inbox: Inbox)
        requires
            old(self).wf(),
        ensures
            final(self).wf(),
            final(self)@ == old(self)@.register(id, inbox),
    {
        let _ = self.output_map.insert(id, inbox);
    }

    /// Removes and returns the inbox that waits under `id`, if any.
    pub fn take_inbox(&mut self, id: u128) -> (inbox: Option<Inbox>)
        requires
            old(self).wf(),
        ensures
            final(self).wf(),
            inbox == old(self)@.inbox(id),
            final(self)@ == old(self)@.unregister(id),
    {
        self.output_map.remove(&id)
    }

    /// A new observer of the change notifier. It counts every pulse so far
    /// as seen: only an enqueue that is announced after this call wakes it,
    /// which is why a poller looks at the queue before it parks. What the
    /// observer has seen depends on the pulses sent so far, so the contract
    /// says nothing of it.
    pub fn clone_notifier(&self) -> (observer: Waiter) {
        subscribe(&self.trigger)
    }

    /// A new handle on the sending half of the change notifier: a clone of
    /// the state's own, so that a pulse through it reaches the observers of
    /// this state.
    pub(crate) fn clone_trigger(&self) -> (handle: Trigger)
        ensures
            handle == self@.trigger,
    {
        clone_trigger(&self.trigger)
    }

    /// The number of invocations awaiting pickup.
    pub fn pending(&self) -> (count: usize)
        ensures
            count == self@.queue.len(),
    {
        self.process_queue.len()
    }

    /// Whether a dispatch waits under `id`.
    pub fn is_registered(&self, id: u128) -> (registered: bool)
        ensures
            registered == self@.is_registered(id),
    {
        self.output_map.contains_key(&id)
    }
}

} // verus!
