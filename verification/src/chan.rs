//! The key-notification channels between registry, bar and panel.
//!
//! The two widgets never hold mutable references into each other; the
//! registry publishes "this key is now active" and the bar publishes
//! "the user picked this key" over unbounded crossbeam channels. Every
//! send is best-effort, every receive is a non-blocking poll, so nothing
//! here promises which message (if any) a poll yields.

use vstd::prelude::*;

verus! {

/// Declares crossbeam's `Sender` so it can stand in fields and
/// signatures; its values are opaque here.
#[verifier::external_type_specification]
#[verifier::external_body]
#[verifier::reject_recursive_types(T)]
pub struct ExSender<T>(crossbeam::channel::Sender<T>);

/// Declares crossbeam's `Receiver` so it can stand in fields and
/// signatures; its values are opaque here.
#[verifier::external_type_specification]
#[verifier::external_body]
#[verifier::reject_recursive_types(T)]
pub struct ExReceiver<T>(crossbeam::channel::Receiver<T>);

/// Relies on crossbeam's `channel::unbounded`: returns a connected
/// sender/receiver pair over an unbounded queue.
#[verifier::external_body]
pub(crate) fn key_channel() -> (crossbeam::channel::Sender<String>, crossbeam::channel::Receiver<
    String,
>) {
    crossbeam::channel::unbounded()
}

/// Relies on crossbeam's `Sender::send`: on an unbounded channel it
/// never blocks, and it fails only when every receiver was dropped. The
/// result reports that success; nothing can be promised about it, since
/// it depends on the peer's lifetime.
#[verifier::external_body]
pub(crate) fn send_key(tx: &crossbeam::channel::Sender<String>, key: String) -> bool {
    tx.send(key).is_ok()
}

/// Relies on crossbeam's `Sender::clone` (senders are multi-producer):
/// the clone feeds the same queue as the original.
#[verifier::external_body]
pub(crate) fn clone_sender(tx: &crossbeam::channel::Sender<String>) -> crossbeam::channel::Sender<
    String,
> {
    tx.clone()
}

/// Relies on crossbeam's `Receiver::try_recv`: a non-blocking poll that
/// yields a pending message if one exists. Which message (if any) comes
/// back depends on the channel's state, so nothing is promised of it.
#[verifier::external_body]
pub(crate) fn try_recv_key(rx: &crossbeam::channel::Receiver<String>) -> Option<String> {
    rx.try_recv().ok()
}

/// Relies on crossbeam's `Receiver::len`: the number of messages queued
/// at the moment of the call. The value is a snapshot, so nothing is
/// promised of it.
#[verifier::external_body]
pub(crate) fn pending_keys(rx: &crossbeam::channel::Receiver<String>) -> usize {
    rx.len()
}

} // verus!
