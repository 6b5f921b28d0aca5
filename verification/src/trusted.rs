//! The outside types that the dispatch state carries and the calls made on
//! them. Nothing in this file is proved: each item says what is taken on
//! trust from `tokio::sync` and `uuid`.

use vstd::prelude::*;

verus! {

/// `tokio::sync::watch::Sender`, the sending half of the change notifier.
#[verifier::external_type_specification]
#[verifier::external_body]
#[verifier::reject_recursive_types(T)]
pub struct ExWatchSender<T>(tokio::sync::watch::Sender<T>);

/// `tokio::sync::watch::Receiver`, one observer of the change notifier.
#[verifier::external_type_specification]
#[verifier::external_body]
#[verifier::reject_recursive_types(T)]
pub struct ExWatchReceiver<T>(tokio::sync::watch::Receiver<T>);

/// `tokio::sync::mpsc::UnboundedSender`, the sending half of a reply inbox.
#[verifier::external_type_specification]
#[verifier::external_body]
#[verifier::reject_recursive_types(T)]
pub struct ExUnboundedSender<T>(tokio::sync::mpsc::UnboundedSender<T>);

/// `tokio::sync::mpsc::UnboundedReceiver`, the receiving half of a reply
/// inbox.
#[verifier::external_type_specification]
#[verifier::external_body]
#[verifier::reject_recursive_types(T)]
pub struct ExUnboundedReceiver<T>(tokio::sync::mpsc::UnboundedReceiver<T>);

/// `tokio::sync::oneshot::Sender`, the sending half of the shutdown latch.
#[verifier::external_type_specification]
#[verifier::external_body]
#[verifier::reject_recursive_types(T)]
pub struct ExOneshotSender<T>(tokio::sync::oneshot::Sender<T>);

/// `tokio::sync::oneshot::Receiver`, the receiving half of the shutdown
/// latch.
#[verifier::external_type_specification]
#[verifier::external_body]
#[verifier::reject_recursive_types(T)]
pub struct ExOneshotReceiver<T>(tokio::sync::oneshot::Receiver<T>);

/// `tokio::sync::oneshot::error::RecvError`, which awaiting the latch's
/// receiving half can yield. The library never holds one; Verus asks for the
/// declaration because the receiver's `Future` impl names it.
#[verifier::external_type_specification]
#[verifier::external_body]
pub struct ExOneshotRecvError(tokio::sync::oneshot::error::RecvError);

/// What a plugin reply carries to the waiting dispatcher: the opaque text,
/// or the message of a failure.
pub type Reply = Result<String, String>;

/// The sending half of a dispatcher's single-use reply channel.
pub type Inbox = tokio::sync::mpsc::UnboundedSender<Reply>;

/// The receiving half of a dispatcher's single-use reply channel.
pub type ReplyReceiver = tokio::sync::mpsc::UnboundedReceiver<Reply>;

/// The sending half of the change notifier.
pub type Trigger = tokio::sync::watch::Sender<()>;

/// One observer of the change notifier.
pub type Waiter = tokio::sync::watch::Receiver<()>;

/// The bits that every version 4 identifier has in common: the version
/// nibble is 4 and the variant bits are `10`.
pub open spec fn is_random_id(id: u128) -> bool {
    id & 0x0000_0000_0000_f000_c000_0000_0000_0000u128 == 0x0000_0000_0000_4000_8000_0000_0000_0000u128
}

/// Calls `uuid::Uuid::new_v4` and hands the identifier out as its 128-bit
/// value (`Uuid::as_u128`). The value is random; what is claimed is only the
/// version and variant bits that `new_v4` sets on every identifier.
#[verifier::external_body]
pub(crate) fn fresh_id() -> (id: u128)
    ensures
        is_random_id(id),
{
    uuid::Uuid::new_v4().as_u128()
}

/// Calls `tokio::sync::watch::channel` with the unit value. Nothing is
/// claimed of the two halves.
#[verifier::external_body]
pub(crate) fn new_notifier() -> (pair: (Trigger, Waiter)) {
    tokio::sync::watch::channel(())
}

/// Calls `Clone::clone` of `tokio::sync::watch::Sender`. The clone is built
/// from the same shared channel and holds nothing else, so the new handle is
/// claimed to equal the one it was cloned from.
#[verifier::external_body]
pub(crate) fn clone_trigger(trigger: &Trigger) -> (handle: Trigger)
    ensures
        handle == *trigger,
{
    trigger.clone()
}

/// Calls `tokio::sync::watch::Sender::subscribe`: a new observer of the
/// channel, which counts every value sent so far as seen. The version it
/// starts from is read from the channel at the moment of the call, so
/// nothing is claimed of the result.
#[verifier::external_body]
pub(crate) fn subscribe(trigger: &Trigger) -> (observer: Waiter) {
    trigger.subscribe()
}

/// Calls `tokio::sync::watch::Sender::send` with the unit value. The call
/// fails when no receiver is left, which the argument does not determine:
/// the result is `Ok`, or the text of the send error, and nothing more is
/// claimed.
#[verifier::external_body]
pub(crate) fn pulse(trigger: &Trigger) -> (sent: Result<(), String>) {
    match trigger.send(()) {
        Ok(()) => Ok(()),
        Err(error) => Err(error.to_string()),
    }
}

/// Calls `tokio::sync::mpsc::unbounded_channel`. Nothing is claimed of the
/// two halves.
#[verifier::external_body]
pub(crate) fn open_inbox() -> (pair: (Inbox, ReplyReceiver)) {
    tokio::sync::mpsc::unbounded_channel()
}

/// Calls `tokio::sync::mpsc::UnboundedSender::send` and reports whether it
/// returned `Ok`. The call fails when the receiving half is closed, which
/// the arguments do not determine, so nothing is claimed of the result.
#[verifier::external_body]
pub(crate) fn send_reply(inbox: &Inbox, reply: Reply) -> (sent: bool) {
    inbox.send(reply).is_ok()
}

/// Calls `tokio::sync::oneshot::Sender::send` with the unit value and
/// reports whether it returned `Ok`. The call fails when the receiver has
/// hung up, which the argument does not determine, so nothing is claimed of
/// the result.
#[verifier::external_body]
pub(crate) fn fire(latch: tokio::sync::oneshot::Sender<()>) -> (sent: bool) {
    latch.send(()).is_ok()
}

/// Calls `tokio::sync::oneshot::Receiver::is_empty`: whether the channel
/// holds no value at this moment. That depends on what the sending half has
/// done, so nothing is claimed of the result.
#[verifier::external_body]
pub(crate) fn latch_is_empty(exit: &tokio::sync::oneshot::Receiver<()>) -> (empty: bool) {
    exit.is_empty()
}

} // verus!
