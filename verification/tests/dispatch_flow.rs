use rbx_studio_mcp::dispatch::{announced, conclude, DispatchFault, ToolReply};
use rbx_studio_mcp::forward::{forward_report, proxy_url, ForwardAction, ForwardReport, ProxyExchange};
use rbx_studio_mcp::invocation::{RunCommandResponse, ToolArguments};
use rbx_studio_mcp::lifecycle::STUDIO_PLUGIN_PORT;
use rbx_studio_mcp::poll::{PollAction, PollEvent, LONG_POLL_SECONDS, STATUS_LOCKED, STATUS_OK};
use rbx_studio_mcp::proxy::{proxy_reply, ProxyError};
use rbx_studio_mcp::reply::{reply_status, ReplyError};
use rbx_studio_mcp::state::{AppState, QueueError};
use std::time::Duration;

fn payload(command: &str) -> String {
    format!("{{\"tool\":\"RunCode\",\"params\":{{\"command\":\"{command}\"}}}}")
}

fn expect_respond(action: PollAction<String>) -> ToolArguments<String> {
    match action {
        PollAction::Respond(invocation) => invocation,
        PollAction::Park(_) => panic!("expected an invocation, got Park"),
        PollAction::Locked => panic!("expected an invocation, got Locked"),
        PollAction::Fail => panic!("expected an invocation, got Fail"),
    }
}

#[test]
fn new_state_is_empty() {
    let mut state: AppState<String> = AppState::new();
    assert_eq!(state.pending(), 0);
    assert!(!state.is_registered(0));
    assert_eq!(state.pop(), None);
}

#[test]
fn primary_round_trip() {
    let mut state: AppState<String> = AppState::new();
    let mut ticket = state.begin_tool_run(payload("return 1"));
    assert_eq!(ticket.announce(), Ok(()));
    assert_eq!(state.pending(), 1);
    assert!(state.is_registered(ticket.id));

    let action = state.poll(PollEvent::Arrived);
    assert_eq!(action.status(), Some(200));
    let invocation = expect_respond(action);
    assert_eq!(invocation.args, payload("return 1"));
    assert_eq!(invocation.id, Some(ticket.id));
    assert_eq!(state.pending(), 0);

    let reply = RunCommandResponse { response: "1".to_string(), id: invocation.id.unwrap() };
    assert_eq!(state.deliver_response(reply), Ok(()));
    assert!(!state.is_registered(ticket.id));

    let received = ticket.replies.try_recv().ok();
    assert_eq!(received, Some(Ok("1".to_string())));
    let outcome = state.finish_tool_run(ticket.id, received);
    assert_eq!(outcome, Ok(ToolReply::Success("1".to_string())));
    assert!(!state.is_registered(ticket.id));
}

#[test]
fn pops_come_in_enqueue_order() {
    let mut state: AppState<u32> = AppState::new();
    let first = state.begin_tool_run(10);
    let second = state.begin_tool_run(20);
    assert_eq!(state.pop(), Some(ToolArguments { args: 10, id: Some(first.id) }));
    let third = state.begin_tool_run(30);
    assert_eq!(state.pop(), Some(ToolArguments { args: 20, id: Some(second.id) }));
    assert_eq!(state.pop(), Some(ToolArguments { args: 30, id: Some(third.id) }));
    assert_eq!(state.pop(), None);
    assert_eq!(state.pop(), None);
}

#[test]
fn push_refuses_an_invocation_without_id() {
    let mut state: AppState<u32> = AppState::new();
    assert_eq!(state.push(ToolArguments::unstamped(1)), Err(QueueError::MissingId));
    assert_eq!(state.pending(), 0);
    assert_eq!(state.push(ToolArguments::unstamped(1).stamped(77)), Ok(()));
    assert_eq!(state.pending(), 1);
    assert_eq!(state.pop(), Some(ToolArguments { args: 1, id: Some(77) }));
}

#[test]
fn fresh_ids_are_version_four_and_distinct() {
    let (first, first_id) = ToolArguments::new(1u8);
    let (second, second_id) = ToolArguments::new(2u8).0.with_id();
    assert_eq!(first.id, Some(first_id));
    assert_eq!(second.id, Some(second_id));
    assert_eq!(second.args, 2);
    for id in [first_id, second_id] {
        assert_eq!((id >> 76) & 0xf, 4);
        assert_eq!((id >> 62) & 0x3, 2);
        assert_eq!(uuid::Uuid::from_u128(id).get_version_num(), 4);
    }
    assert_ne!(first_id, second_id);
    assert_ne!(first_id, 0);
}

#[test]
fn stamping_replaces_the_id() {
    let invocation = ToolArguments { args: "x", id: Some(1) };
    assert_eq!(invocation.stamped(2), ToolArguments { args: "x", id: Some(2) });
    assert_eq!(ToolArguments::unstamped("y"), ToolArguments { args: "y", id: None });
}

#[test]
fn replies_are_routed_by_id_in_any_order() {
    let mut state: AppState<u32> = AppState::new();
    let mut first = state.begin_tool_run(1);
    let mut second = state.begin_tool_run(2);
    let reply = RunCommandResponse { response: "second".to_string(), id: second.id };
    assert_eq!(state.deliver_response(reply), Ok(()));
    assert!(first.replies.try_recv().is_err());
    assert_eq!(second.replies.try_recv().ok(), Some(Ok("second".to_string())));
    assert!(state.is_registered(first.id));
    let reply = RunCommandResponse { response: "first".to_string(), id: first.id };
    assert_eq!(state.deliver_response(reply), Ok(()));
    assert_eq!(first.replies.try_recv().ok(), Some(Ok("first".to_string())));
}

#[test]
fn unknown_id_is_refused_and_changes_nothing() {
    let mut state: AppState<u32> = AppState::new();
    let mut ticket = state.begin_tool_run(5);
    let nil = uuid::Uuid::nil().as_u128();
    assert_eq!(nil, 0);
    let stray = RunCommandResponse { response: "?".to_string(), id: nil };
    assert_eq!(state.deliver_response(stray), Err(ReplyError::UnknownId));
    assert_eq!(state.pending(), 1);
    assert!(state.is_registered(ticket.id));
    assert!(ticket.replies.try_recv().is_err());

    let reply = RunCommandResponse { response: "ok".to_string(), id: ticket.id };
    assert_eq!(state.deliver_response(reply), Ok(()));
    let received = ticket.replies.try_recv().ok();
    assert_eq!(
        state.finish_tool_run(ticket.id, received),
        Ok(ToolReply::Success("ok".to_string()))
    );
}

#[test]
fn a_second_reply_under_the_same_id_is_unknown() {
    let mut state: AppState<u32> = AppState::new();
    let ticket = state.begin_tool_run(5);
    let reply = RunCommandResponse { response: "a".to_string(), id: ticket.id };
    assert_eq!(state.deliver_response(reply.clone()), Ok(()));
    assert_eq!(state.deliver_response(reply), Err(ReplyError::UnknownId));
}

#[test]
fn reply_to_a_cancelled_dispatcher_reports_receiver_gone() {
    let mut state: AppState<u32> = AppState::new();
    let ticket = state.begin_tool_run(5);
    let id = ticket.id;
    drop(ticket);
    let reply = RunCommandResponse { response: "late".to_string(), id };
    assert_eq!(state.deliver_response(reply), Err(ReplyError::ReceiverGone));
    assert!(!state.is_registered(id));
}

#[test]
fn reply_status_covers_every_case() {
    assert_eq!(reply_status(false, false), Err(ReplyError::UnknownId));
    assert_eq!(reply_status(false, true), Err(ReplyError::UnknownId));
    assert_eq!(reply_status(true, true), Ok(()));
    assert_eq!(reply_status(true, false), Err(ReplyError::ReceiverGone));
    assert_eq!(ReplyError::UnknownId.message(), "Unknown ID");
    assert_eq!(ReplyError::ReceiverGone.message(), "channel closed");
}

#[test]
fn plugin_error_is_a_tool_error_result() {
    let mut state: AppState<u32> = AppState::new();
    let ticket = state.begin_tool_run(5);
    let outcome = state.finish_tool_run(ticket.id, Some(Err("script failed".to_string())));
    let reply = outcome.expect("a plugin failure is not an internal fault");
    assert!(reply.is_error());
    assert_eq!(reply.text(), "script failed");
    assert_eq!(reply, ToolReply::ToolError("script failed".to_string()));
    assert!(!state.is_registered(ticket.id));
    let healthy = state.begin_tool_run(6);
    assert!(state.is_registered(healthy.id));
}

#[test]
fn conclude_maps_each_inbox_outcome() {
    assert_eq!(conclude(Some(Ok("1".to_string()))), Ok(ToolReply::Success("1".to_string())));
    assert!(!ToolReply::Success("1".to_string()).is_error());
    assert_eq!(ToolReply::Success("1".to_string()).text(), "1");
    assert_eq!(conclude(Some(Err("e".to_string()))), Ok(ToolReply::ToolError("e".to_string())));
    assert_eq!(conclude(None), Err(DispatchFault::NoReply));
    assert_eq!(DispatchFault::NoReply.message(), "Couldn't receive response");
}

#[test]
fn a_closed_notifier_is_an_internal_fault() {
    assert_eq!(announced(Ok(())), Ok(()));
    let fault = announced(Err("channel closed".to_string())).unwrap_err();
    assert_eq!(fault, DispatchFault::NotifierClosed("channel closed".to_string()));
    assert_eq!(fault.message(), "Unable to trigger send channel closed");
}

#[test]
fn dropped_inbox_still_clears_the_entry() {
    let mut state: AppState<u32> = AppState::new();
    let ticket = state.begin_tool_run(5);
    assert_eq!(state.finish_tool_run(ticket.id, None), Err(DispatchFault::NoReply));
    assert!(!state.is_registered(ticket.id));
    assert_eq!(state.finish_tool_run(ticket.id, None), Err(DispatchFault::NoReply));
}

#[test]
fn long_poll_parks_then_locks_then_resumes() {
    let mut state: AppState<u32> = AppState::new();
    assert_eq!(LONG_POLL_SECONDS, 15);
    assert_eq!((STATUS_OK, STATUS_LOCKED), (200, 423));

    let parked = state.poll(PollEvent::Arrived);
    assert_eq!(parked.status(), None);
    assert!(matches!(parked, PollAction::Park(_)));
    let locked = state.poll(PollEvent::DeadlineElapsed);
    assert!(matches!(locked, PollAction::Locked));
    assert_eq!(locked.status(), Some(423));

    let again = state.poll(PollEvent::Arrived);
    assert!(matches!(again, PollAction::Park(_)));
    let ticket = state.begin_tool_run(9);
    assert_eq!(ticket.announce(), Ok(()));
    let invocation = expect_respond_u32(state.poll(PollEvent::Notified));
    assert_eq!(invocation, ToolArguments { args: 9, id: Some(ticket.id) });
}

fn expect_respond_u32(action: PollAction<u32>) -> ToolArguments<u32> {
    match action {
        PollAction::Respond(invocation) => invocation,
        _ => panic!("expected an invocation"),
    }
}

#[test]
fn deadline_leaves_a_queued_invocation_in_place() {
    let mut state: AppState<u32> = AppState::new();
    let ticket = state.begin_tool_run(9);
    assert!(matches!(state.poll(PollEvent::DeadlineElapsed), PollAction::Locked));
    assert_eq!(state.pending(), 1);
    let failed = state.poll(PollEvent::NotifierClosed);
    assert!(matches!(failed, PollAction::Fail));
    assert_eq!(failed.status(), None);
    assert_eq!(state.pending(), 1);
    assert_eq!(state.pop(), Some(ToolArguments { args: 9, id: Some(ticket.id) }));
}

#[test]
fn an_enqueue_wakes_a_parked_observer() {
    let runtime = tokio::runtime::Builder::new_current_thread().enable_all().build().unwrap();
    let mut state: AppState<u32> = AppState::new();
    let mut waiter = match state.poll(PollEvent::Arrived) {
        PollAction::Park(waiter) => waiter,
        _ => panic!("an empty queue parks the poller"),
    };
    let quiet = runtime
        .block_on(async { tokio::time::timeout(Duration::from_millis(50), waiter.changed()).await });
    assert!(quiet.is_err(), "no edge before any enqueue");

    let ticket = state.begin_tool_run(9);
    assert_eq!(ticket.announce(), Ok(()));
    let woken = runtime
        .block_on(async { tokio::time::timeout(Duration::from_secs(1), waiter.changed()).await });
    assert_eq!(woken.expect("the edge arrives within the window").ok(), Some(()));
    assert!(matches!(state.poll(PollEvent::Notified), PollAction::Respond(_)));
}

#[test]
fn notifier_handles_share_one_channel() {
    let runtime = tokio::runtime::Builder::new_current_thread().enable_all().build().unwrap();
    let mut state: AppState<u32> = AppState::new();
    let mut waiter = state.clone_notifier();
    let ticket = state.begin_tool_run(1);
    assert!(ticket.trigger.send(()).is_ok());
    let woken = runtime
        .block_on(async { tokio::time::timeout(Duration::from_secs(1), waiter.changed()).await });
    assert!(woken.is_ok());
}

#[test]
fn an_observer_made_after_a_pulse_does_not_see_it() {
    let mut state: AppState<u32> = AppState::new();
    let before = state.clone_notifier();
    assert_eq!(before.has_changed().ok(), Some(false));

    let first = state.begin_tool_run(1);
    let second = state.begin_tool_run(2);
    assert!(first.trigger.same_channel(&second.trigger));
    assert_eq!(first.announce(), Ok(()));

    let after = state.clone_notifier();
    assert!(before.same_channel(&after));
    assert_eq!(before.has_changed().ok(), Some(true));
    assert_eq!(after.has_changed().ok(), Some(false));
    assert_eq!(second.announce(), Ok(()));
    assert_eq!(after.has_changed().ok(), Some(true));

    let other: AppState<u32> = AppState::new();
    assert!(!other.clone_notifier().same_channel(&after));
    assert_eq!(other.clone_notifier().has_changed().ok(), Some(false));
}

#[test]
fn an_idle_poll_stays_parked_after_earlier_pulses() {
    let runtime = tokio::runtime::Builder::new_current_thread().enable_all().build().unwrap();
    let mut state: AppState<u32> = AppState::new();
    let ticket = state.begin_tool_run(1);
    assert_eq!(ticket.announce(), Ok(()));
    assert!(matches!(state.poll(PollEvent::Arrived), PollAction::Respond(_)));

    let mut waiter = match state.poll(PollEvent::Arrived) {
        PollAction::Park(waiter) => waiter,
        _ => panic!("an empty queue parks the poller"),
    };
    let quiet = runtime
        .block_on(async { tokio::time::timeout(Duration::from_millis(50), waiter.changed()).await });
    assert!(quiet.is_err(), "the pulse of the first enqueue is not seen again");

    let next = state.begin_tool_run(2);
    assert_eq!(next.announce(), Ok(()));
    let woken = runtime
        .block_on(async { tokio::time::timeout(Duration::from_secs(1), waiter.changed()).await });
    assert!(woken.is_ok());
}

#[test]
fn a_reply_is_routed_with_its_response_unchanged() {
    let mut state: AppState<u32> = AppState::new();
    let mut first = state.begin_tool_run(1);
    let mut second = state.begin_tool_run(2);

    let stray = RunCommandResponse { response: "?".to_string(), id: 0 };
    assert!(state.route_response(stray).is_none());
    assert!(state.is_registered(first.id) && state.is_registered(second.id));

    let reply = RunCommandResponse { response: "for the second".to_string(), id: second.id };
    let (inbox, sent) = state.route_response(reply).expect("registered under the second id");
    assert_eq!(sent, Ok("for the second".to_string()));
    assert!(!state.is_registered(second.id));
    assert!(state.is_registered(first.id));
    inbox.send(sent).unwrap();
    assert_eq!(second.replies.try_recv().ok(), Some(Ok("for the second".to_string())));
    assert!(second.replies.try_recv().is_err());
    assert!(first.replies.try_recv().is_err());
}

#[test]
fn an_exchange_is_routed_to_the_remembered_id() {
    let mut secondary: AppState<u32> = AppState::new();
    let mut first = secondary.begin_tool_run(1);
    let mut second = secondary.begin_tool_run(2);
    let first_id = match secondary.forward_step(false) {
        ForwardAction::Post { id, .. } => id,
        other => panic!("expected a post, got {other:?}"),
    };
    assert_eq!(first_id, first.id);
    assert!(!ProxyExchange::TransportFailed.is_reply());
    assert!(!ProxyExchange::Unparsable.is_reply());
    assert!(secondary.route_exchange(first_id, ProxyExchange::TransportFailed).is_none());
    assert!(secondary.is_registered(first_id));
    assert_eq!(secondary.pending(), 1);

    let second_id = match secondary.forward_step(false) {
        ForwardAction::Post { id, .. } => id,
        other => panic!("expected a post, got {other:?}"),
    };
    assert_eq!(second_id, second.id);
    let answer = RunCommandResponse { response: "r".to_string(), id: second_id };
    assert!(ProxyExchange::Reply(answer.clone()).is_reply());
    let (inbox, sent) = secondary
        .route_exchange(second_id, ProxyExchange::Reply(answer.clone()))
        .expect("the second dispatcher waits");
    assert_eq!(sent, Ok("r".to_string()));
    inbox.send(sent).unwrap();
    assert_eq!(second.replies.try_recv().ok(), Some(Ok("r".to_string())));
    assert!(first.replies.try_recv().is_err());
    assert!(secondary.is_registered(first_id));
    assert!(secondary.route_exchange(second_id, ProxyExchange::Reply(answer)).is_none());
}

#[test]
fn a_failed_exchange_does_not_hold_up_the_next() {
    let mut secondary: AppState<u32> = AppState::new();
    let mut first = secondary.begin_tool_run(1);
    let mut second = secondary.begin_tool_run(2);
    assert!(matches!(secondary.forward_step(false), ForwardAction::Post { .. }));
    assert_eq!(
        secondary.forward_settle(first.id, ProxyExchange::TransportFailed),
        ForwardReport::Dropped
    );
    assert_eq!(
        secondary.forward_step(false),
        ForwardAction::Post {
            id: second.id,
            invocation: ToolArguments { args: 2, id: Some(second.id) }
        }
    );
    let answer = RunCommandResponse { response: "r".to_string(), id: second.id };
    assert_eq!(
        secondary.forward_settle(second.id, ProxyExchange::Reply(answer)),
        ForwardReport::Delivered
    );
    assert_eq!(second.replies.try_recv().ok(), Some(Ok("r".to_string())));
    assert!(first.replies.try_recv().is_err());
    assert!(secondary.is_registered(first.id));
    assert_eq!(secondary.forward_step(false), ForwardAction::Park);
}

#[test]
fn an_abandoned_tool_run_leaves_no_inbox() {
    let mut state: AppState<u32> = AppState::new();
    let ticket = state.begin_tool_run(1);
    let fault = DispatchFault::NotifierClosed("channel closed".to_string());
    assert_eq!(state.abandon_tool_run(ticket.id, fault.clone()), Err(fault));
    assert!(!state.is_registered(ticket.id));
    assert_eq!(state.pending(), 1);
}

#[test]
fn proxy_without_id_is_refused() {
    let mut state: AppState<u32> = AppState::new();
    let refused = state.begin_proxy(ToolArguments::unstamped(3));
    assert_eq!(refused.err(), Some(ProxyError::MissingId));
    assert_eq!(state.pending(), 0);
    assert_eq!(ProxyError::MissingId.message(), "Got proxy command with no id");
}

#[test]
fn proxy_reply_maps_each_inbox_outcome() {
    assert_eq!(
        proxy_reply(7, Some(Ok("r".to_string()))),
        Ok(RunCommandResponse { response: "r".to_string(), id: 7 })
    );
    assert_eq!(
        proxy_reply(7, Some(Err("bad".to_string()))),
        Err(ProxyError::Plugin("bad".to_string()))
    );
    assert_eq!(proxy_reply(7, None), Err(ProxyError::NoReply));
    assert_eq!(ProxyError::NoReply.message(), "Couldn't receive response");
    assert_eq!(ProxyError::Plugin("bad".to_string()).message(), "bad");
}

#[test]
fn secondary_dispatch_completes_through_the_primary() {
    let mut primary: AppState<String> = AppState::new();
    let mut secondary: AppState<String> = AppState::new();
    let (_latch, exit) = tokio::sync::oneshot::channel::<()>();

    let mut dispatcher = secondary.begin_tool_run(payload("return 2"));
    assert_eq!(dispatcher.announce(), Ok(()));

    let (id, invocation) = match secondary.forward_next(&exit) {
        ForwardAction::Post { id, invocation } => (id, invocation),
        other => panic!("expected a post, got {other:?}"),
    };
    assert_eq!(id, dispatcher.id);
    assert_eq!(invocation.id, Some(id));
    assert!(secondary.is_registered(id));
    assert_eq!(secondary.forward_next(&exit), ForwardAction::Park);

    let mut relay = primary.begin_proxy(invocation).ok().expect("the invocation has an id");
    assert_eq!(relay.id, id);
    assert_eq!(relay.announce(), Ok(()));

    let seen = expect_respond(primary.poll(PollEvent::Arrived));
    assert_eq!(seen.id, Some(id));
    assert_eq!(seen.args, payload("return 2"));
    let reply = RunCommandResponse { response: "2".to_string(), id };
    assert_eq!(primary.deliver_response(reply), Ok(()));
    let relayed = relay.replies.try_recv().ok();
    let answer = primary.finish_proxy(id, relayed).expect("the plugin answered");
    assert_eq!(answer, RunCommandResponse { response: "2".to_string(), id });
    assert!(!primary.is_registered(id));

    let report = secondary.forward_settle(id, ProxyExchange::Reply(answer));
    assert_eq!(report, ForwardReport::Delivered);
    assert!(!secondary.is_registered(id));
    let received = dispatcher.replies.try_recv().ok();
    assert_eq!(
        secondary.finish_tool_run(id, received),
        Ok(ToolReply::Success("2".to_string()))
    );
}

#[test]
fn failed_exchange_leaves_the_inbox_waiting() {
    let mut secondary: AppState<u32> = AppState::new();
    let mut dispatcher = secondary.begin_tool_run(4);
    let id = dispatcher.id;
    assert!(matches!(secondary.forward_step(false), ForwardAction::Post { .. }));
    assert_eq!(secondary.forward_settle(id, ProxyExchange::TransportFailed), ForwardReport::Dropped);
    assert_eq!(secondary.forward_settle(id, ProxyExchange::Unparsable), ForwardReport::Dropped);
    assert!(secondary.is_registered(id));
    assert!(dispatcher.replies.try_recv().is_err());

    let reply = RunCommandResponse { response: "x".to_string(), id: 1 };
    assert_eq!(
        secondary.forward_settle(id.wrapping_add(1), ProxyExchange::Reply(reply.clone())),
        ForwardReport::UnknownId
    );
    drop(dispatcher);
    assert_eq!(
        secondary.forward_settle(id, ProxyExchange::Reply(reply)),
        ForwardReport::ReceiverGone
    );
    assert!(!secondary.is_registered(id));
}

#[test]
fn forward_report_covers_every_case() {
    assert_eq!(forward_report(false, true, true), ForwardReport::Dropped);
    assert_eq!(forward_report(true, false, true), ForwardReport::UnknownId);
    assert_eq!(forward_report(true, true, true), ForwardReport::Delivered);
    assert_eq!(forward_report(true, true, false), ForwardReport::ReceiverGone);
}

#[test]
fn forwarder_stops_once_the_latch_has_fired() {
    let mut secondary: AppState<u32> = AppState::new();
    let ticket = secondary.begin_tool_run(4);
    let (latch, exit) = tokio::sync::oneshot::channel::<()>();
    assert_eq!(secondary.forward_step(true), ForwardAction::Stop);
    assert_eq!(secondary.pending(), 1);
    latch.send(()).unwrap();
    assert_eq!(secondary.forward_next(&exit), ForwardAction::Stop);
    assert_eq!(secondary.pending(), 1);
    assert_eq!(
        secondary.forward_step(false),
        ForwardAction::Post { id: ticket.id, invocation: ToolArguments { args: 4, id: Some(ticket.id) } }
    );
}

#[test]
fn proxy_url_points_at_the_well_known_port() {
    assert_eq!(STUDIO_PLUGIN_PORT, 44755);
    assert_eq!(proxy_url(), format!("http://127.0.0.1:{STUDIO_PLUGIN_PORT}/proxy"));
}

#[test]
fn inboxes_can_be_registered_and_taken_by_hand() {
    let mut state: AppState<u32> = AppState::new();
    let (inbox, mut replies) = tokio::sync::mpsc::unbounded_channel();
    state.register_inbox(42, inbox);
    assert!(state.is_registered(42));
    assert!(state.take_inbox(41).is_none());
    let taken = state.take_inbox(42).expect("registered under 42");
    assert!(state.take_inbox(42).is_none());
    taken.send(Ok("by hand".to_string())).unwrap();
    assert_eq!(replies.try_recv().ok(), Some(Ok("by hand".to_string())));

    let (inbox, _replies) = tokio::sync::mpsc::unbounded_channel();
    state.enqueue(8, 43, inbox);
    assert!(state.is_registered(43));
    assert_eq!(state.pop(), Some(ToolArguments { args: 8, id: Some(43) }));
}
