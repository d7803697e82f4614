use vstd::prelude::*;
use tokio::sync::broadcast::{Receiver, Sender};

verus! {

// The broadcast hub is a tokio broadcast channel: one sender shared by every
// session, one receiver per subscriber, bounded buffering per receiver with
// drop-oldest overflow. Delivery is a liveness matter of the runtime, so the
// wrappers promise nothing of it; the envelopes a session hands to the hub
// are pinned by the contracts of the functions that build them.

#[verifier::external_type_specification]
#[verifier::external_body]
#[verifier::reject_recursive_types(T)]
pub struct ExBroadcastSender<T>(Sender<T>);

#[verifier::external_type_specification]
#[verifier::external_body]
#[verifier::reject_recursive_types(T)]
pub struct ExBroadcastReceiver<T>(Receiver<T>);

/// Relies on tokio::sync::broadcast::channel: creates the hub's shared
/// sender. The call panics on a capacity of zero or above half of
/// usize::MAX, which the precondition rules out.
#[verifier::external_body]
pub(crate) fn hub_channel(capacity: usize) -> (tx: Sender<String>)
    requires
        0 < capacity <= usize::MAX / 2,
{
    let (tx, _rx) = tokio::sync::broadcast::channel(capacity);
    tx
}

/// Relies on tokio::sync::broadcast::Sender::subscribe: a fresh receiver
/// that sees only messages sent after this call, in publish order, losing
/// the oldest buffered ones if it falls behind its bounded buffer.
#[verifier::external_body]
pub(crate) fn hub_subscribe(tx: &Sender<String>) -> (rx: Receiver<String>) {
    tx.subscribe()
}

/// Relies on tokio::sync::broadcast::Sender::send: hands one message to
/// every receiver subscribed at this moment, without ever blocking on a slow
/// one. With no receivers the call reports an error and drops the message;
/// broadcasting into an empty room is valid here, so that outcome is ignored.
#[verifier::external_body]
pub(crate) fn hub_send(tx: &Sender<String>, msg: &String) {
    let _ = tx.send(msg.clone());
}

} // verus!
