//! What holds of the dispatch model over whole histories: order of
//! delivery, correlation of replies, and the absence of leaked inboxes.

use crate::forward::{
    forward_decision, forward_state, forwarded, settled_state, ForwardAction, ProxyExchange,
};
use crate::invocation::{RunCommandResponse, ToolArguments};
use crate::model::DispatchView;
use crate::poll::{poll_decision, poll_state, PollDecision, PollEvent};
use crate::proxy::proxy_outcome;
use crate::reply::routed;
use crate::trusted::Inbox;
use vstd::prelude::*;

verus! {

/// One operation on the queue.
pub enum QueueOp<P> {
    /// An invocation joins the back.
    Push(ToolArguments<P>),
    /// A poller takes the front, if there is one.
    Pop,
}

/// The state after one queue operation.
pub open spec fn apply<P>(state: DispatchView<P>, op: QueueOp<P>) -> DispatchView<P> {
    match op {
        QueueOp::Push(invocation) => state.push(invocation),
        QueueOp::Pop => state.pop(),
    }
}

/// The state after a history of queue operations.
pub open spec fn replay<P>(state: DispatchView<P>, ops: Seq<QueueOp<P>>) -> DispatchView<P>
    decreases ops.len(),
{
    if ops.len() == 0 {
        state
    } else {
        apply(replay(state, ops.drop_last()), ops.last())
    }
}

/// The invocations that a history pushed, in the order of the pushes.
pub open spec fn pushed<P>(ops: Seq<QueueOp<P>>) -> Seq<ToolArguments<P>>
    decreases ops.len(),
{
    if ops.len() == 0 {
        Seq::empty()
    } else {
        match ops.last() {
            QueueOp::Push(invocation) => pushed(ops.drop_last()).push(invocation),
            QueueOp::Pop => pushed(ops.drop_last()),
        }
    }
}

/// The invocations that the pollers of a history received, in the order of
/// the pops. A pop on an empty queue receives nothing.
pub open spec fn popped<P>(state: DispatchView<P>, ops: Seq<QueueOp<P>>) -> Seq<ToolArguments<P>>
    decreases ops.len(),
{
    if ops.len() == 0 {
        Seq::empty()
    } else {
        let earlier = popped(state, ops.drop_last());
        match (ops.last(), replay(state, ops.drop_last()).front()) {
            (QueueOp::Pop, Some(invocation)) => earlier.push(invocation),
            _ => earlier,
        }
    }
}

/// First in, first out. Over any history of pushes and pops, what the
/// pollers received followed by what is still queued is what was queued at
/// the start followed by what was pushed: the k-th invocation handed out is
/// the k-th that entered.
pub proof fn law_fifo<P>(state: DispatchView<P>, ops: Seq<QueueOp<P>>)
    ensures
        popped(state, ops) + replay(state, ops).queue == state.queue + pushed(ops),
        popped(state, ops).len() <= state.queue.len() + pushed(ops).len(),
        forall|k: int|
            0 <= k < popped(state, ops).len() ==> #[trigger] popped(state, ops)[k] == (state.queue
                + pushed(ops))[k],
        replay(state, ops).inboxes == state.inboxes,
    decreases ops.len(),
{
    if ops.len() == 0 {
        assert(popped(state, ops) + replay(state, ops).queue =~= state.queue + pushed(ops));
    } else {
        let earlier = ops.drop_last();
        law_fifo(state, earlier);
        let before = replay(state, earlier);
        let all = state.queue + pushed(earlier);
        assert(popped(state, earlier) + before.queue == all);
        match ops.last() {
            QueueOp::Push(invocation) => {
                assert(popped(state, ops) + replay(state, ops).queue =~= (popped(state, earlier)
                    + before.queue).push(invocation));
                assert(state.queue + pushed(ops) =~= all.push(invocation));
            },
            QueueOp::Pop => {
                if before.queue.len() > 0 {
                    assert(popped(state, ops) + replay(state, ops).queue =~= popped(state, earlier)
                        + before.queue);
                }
            },
        }
        let total = popped(state, ops) + replay(state, ops).queue;
        assert(total == state.queue + pushed(ops));
        assert forall|k: int| 0 <= k < popped(state, ops).len() implies #[trigger] popped(
            state,
            ops,
        )[k] == (state.queue + pushed(ops))[k] by {
            assert(total[k] == popped(state, ops)[k]);
        }
        assert(total.len() == popped(state, ops).len() + replay(state, ops).queue.len());
    }
}

/// Pushes keep the invariant of the queue as long as what they push
/// carries an id, and pops keep it always.
pub proof fn law_history_keeps_ids<P>(state: DispatchView<P>, ops: Seq<QueueOp<P>>)
    requires
        state.well_formed(),
        forall|i: int|
            0 <= i < ops.len() ==> (#[trigger] ops[i] matches QueueOp::Push(invocation)
                ==> invocation.id is Some),
    ensures
        replay(state, ops).well_formed(),
    decreases ops.len(),
{
    if ops.len() > 0 {
        law_history_keeps_ids(state, ops.drop_last());
        let before = replay(state, ops.drop_last());
        assert(ops.last() == ops[ops.len() - 1]);
        let after = replay(state, ops);
        assert forall|i: int| 0 <= i < after.queue.len() implies (#[trigger] after.queue[i]).id is Some by {
            match ops.last() {
                QueueOp::Push(invocation) => {
                    if i < before.queue.len() {
                        assert(after.queue[i] == before.queue[i]);
                    }
                },
                QueueOp::Pop => {
                    if before.queue.len() > 0 {
                        assert(after.queue[i] == before.queue[i + 1]);
                    }
                },
            }
        }
    }
}

/// The id that the poller receives is the id under which the dispatcher
/// waits, and only a reply under exactly that id resolves its inbox: such a
/// reply is routed into that inbox as `Ok` of its response, while a reply
/// under any other id is routed as it was before the dispatch, leaves the
/// inbox registered and takes away nothing but the entry of that other id.
pub proof fn law_reply_correlation<P>(
    state: DispatchView<P>,
    args: P,
    id: u128,
    inbox: Inbox,
    other: u128,
    response: String,
)
    ensures
        ({
            let after = state.enqueue(args, id, inbox);
            &&& after.queue.len() == state.queue.len() + 1
            &&& after.queue[state.queue.len() as int] == (ToolArguments { args, id: Some(id) })
            &&& after.inbox(id) == Some(inbox)
            &&& routed(after, RunCommandResponse { response, id }) == Some(
                (inbox, Ok::<String, String>(response)),
            )
            &&& other != id ==> after.inbox(other) == state.inbox(other)
            &&& other != id ==> routed(after, RunCommandResponse { response, id: other })
                == routed(state, RunCommandResponse { response, id: other })
            &&& other != id ==> after.unregister(other).inbox(id) == Some(inbox)
        }),
{
}

/// No leak. Once a dispatch is complete its id is absent from the
/// correlation map, whether or not the reply path removed the entry first,
/// and every other entry is as it was before the dispatch.
pub proof fn law_no_leak<P>(state: DispatchView<P>, args: P, id: u128, inbox: Inbox)
    ensures
        ({
            let waiting = state.enqueue(args, id, inbox);
            &&& !waiting.unregister(id).is_registered(id)
            &&& waiting.unregister(id).inboxes == state.inboxes.remove(id)
            &&& waiting.unregister(id).unregister(id) == waiting.unregister(id)
            &&& !state.is_registered(id) ==> waiting.unregister(id).inboxes == state.inboxes
        }),
{
    let waiting = state.enqueue(args, id, inbox);
    assert(waiting.unregister(id).inboxes =~= state.inboxes.remove(id));
    assert(waiting.unregister(id).unregister(id) =~= waiting.unregister(id));
    if !state.is_registered(id) {
        assert(state.inboxes.remove(id) =~= state.inboxes);
    }
}

/// A reply under an id that is not registered finds no inbox and changes
/// nothing.
pub proof fn law_unknown_id_changes_nothing<P>(state: DispatchView<P>, id: u128)
    requires
        !state.is_registered(id),
    ensures
        state.inbox(id) is None,
        forall|response: String| routed(state, RunCommandResponse { response, id }) is None,
        state.unregister(id) == state,
{
    assert(state.unregister(id) =~= state);
}

/// A poll answers "locked" exactly when its deadline fires, and then it
/// leaves the state alone. While the queue is empty every other look at it
/// parks the poller again.
pub proof fn law_locked_only_at_deadline<P>(state: DispatchView<P>, event: PollEvent)
    ensures
        poll_decision(state, event) is Locked <==> event == PollEvent::DeadlineElapsed,
        poll_state(state, PollEvent::DeadlineElapsed) == state,
        state.queue.len() == 0 && (event == PollEvent::Arrived || event == PollEvent::Notified)
            ==> poll_decision(state, event) is Park && poll_state(state, event) == state,
{
}

/// An enqueue unblocks the poll. A poller that parked on an empty queue
/// and is woken after a dispatch receives exactly that invocation, and the
/// queue is empty again.
pub proof fn law_enqueue_unblocks_poll<P>(state: DispatchView<P>, args: P, id: u128, inbox: Inbox)
    requires
        state.queue.len() == 0,
    ensures
        poll_decision(state, PollEvent::Arrived) is Park,
        poll_decision(state.enqueue(args, id, inbox), PollEvent::Notified) == PollDecision::Respond(
            ToolArguments { args, id: Some(id) },
        ),
        poll_state(state.enqueue(args, id, inbox), PollEvent::Notified).queue.len() == 0,
{
}

/// The state after the pollers took `count` invocations off the queue.
pub open spec fn after_pops<P>(state: DispatchView<P>, count: nat) -> DispatchView<P>
    decreases count,
{
    if count == 0 {
        state
    } else {
        after_pops(state, (count - 1) as nat).pop()
    }
}

/// Taking invocations off the queue removes them from its front and touches
/// nothing else.
pub proof fn lemma_after_pops<P>(state: DispatchView<P>, count: nat)
    requires
        count <= state.queue.len(),
    ensures
        after_pops(state, count) == (DispatchView {
            queue: state.queue.subrange(count as int, state.queue.len() as int),
            ..state
        }),
    decreases count,
{
    if count == 0 {
        assert(state.queue.subrange(0, state.queue.len() as int) =~= state.queue);
    } else {
        lemma_after_pops(state, (count - 1) as nat);
        let before = after_pops(state, (count - 1) as nat);
        assert(before.queue.subrange(1, before.queue.len() as int) =~= state.queue.subrange(
            count as int,
            state.queue.len() as int,
        ));
    }
}

/// A failed exchange with the primary sends nothing and changes nothing: the
/// inbox of the invocation stays registered, the invocation is not queued
/// again, and what is queued behind it is forwarded next.
pub proof fn law_failed_exchange_changes_nothing<P>(
    state: DispatchView<P>,
    id: u128,
    failure: ProxyExchange,
)
    requires
        !(failure is Reply),
    ensures
        forwarded(state, id, failure) is None,
        settled_state(state, id, failure) == state,
        forward_decision(settled_state(state, id, failure), false) == forward_decision(
            state,
            false,
        ),
{
}

/// Two instances cooperate, whatever else is queued at either. An
/// invocation dispatched at a secondary is posted under its id once the
/// invocations queued before it have been forwarded; the primary hands it
/// to the plugin under the same id once those queued before it there have
/// been handed out, routes the plugin's reply into the inbox of the relay
/// and answers the secondary under the same id; and the secondary then
/// routes that response into the inbox of the dispatcher that waits under
/// that id.
pub proof fn law_proxy_keeps_the_id<P>(
    secondary: DispatchView<P>,
    primary: DispatchView<P>,
    args: P,
    id: u128,
    waiting: Inbox,
    relay: Inbox,
    response: String,
)
    ensures
        ({
            let invocation = ToolArguments { args, id: Some(id) };
            let due = after_pops(secondary.enqueue(args, id, waiting), secondary.queue.len());
            let posted = forward_state(due, false);
            let served = after_pops(primary.enqueue(args, id, relay), primary.queue.len());
            let handed_out = poll_state(served, PollEvent::Arrived);
            let answer = RunCommandResponse { response, id };
            &&& forward_decision(due, false) == (ForwardAction::Post { id, invocation })
            &&& poll_decision(served, PollEvent::Arrived) == PollDecision::Respond(invocation)
            &&& routed(handed_out, answer) == Some((relay, Ok::<String, String>(response)))
            &&& proxy_outcome(id, Some(Ok(response))) == Ok::<
                RunCommandResponse,
                crate::proxy::ProxyError,
            >(answer)
            &&& forwarded(posted, id, ProxyExchange::Reply(answer)) == Some(
                (waiting, Ok::<String, String>(response)),
            )
            &&& !settled_state(posted, id, ProxyExchange::Reply(answer)).is_registered(id)
        }),
{
    lemma_after_pops(secondary.enqueue(args, id, waiting), secondary.queue.len());
    lemma_after_pops(primary.enqueue(args, id, relay), primary.queue.len());
}

} // verus!
