//! Trusted boundary to the completion channel.
//!
//! Each submitted job sends one unit on this channel when it finishes;
//! teardown receives exactly as many units as there are outstanding jobs.
//! The channel is `std::sync::mpsc`, which vstd gives no specification,
//! so its three operations stand behind the wrappers below.

use vstd::prelude::*;

verus! {

#[verifier::external_type_specification]
#[verifier::external_body]
#[verifier::reject_recursive_types(T)]
pub struct ExSender<T>(std::sync::mpsc::Sender<T>);

#[verifier::external_type_specification]
#[verifier::external_body]
#[verifier::reject_recursive_types(T)]
pub struct ExReceiver<T>(std::sync::mpsc::Receiver<T>);

/// Relies on `std::sync::mpsc::channel`: the returned sender and receiver
/// are the two halves of one unbounded queue.
#[verifier::external_body]
pub(crate) fn completion_channel() -> (r: (
    std::sync::mpsc::Sender<()>,
    std::sync::mpsc::Receiver<()>,
)) {
    std::sync::mpsc::channel()
}

/// Relies on `Clone for std::sync::mpsc::Sender`: the clone feeds the same
/// queue as `s`.
#[verifier::external_body]
pub(crate) fn clone_sender(s: &std::sync::mpsc::Sender<()>) -> (r: std::sync::mpsc::Sender<()>) {
    s.clone()
}

/// Relies on `std::sync::mpsc::Sender::send`: enqueues one unit, never
/// blocking; the error case (receiver already gone) is discarded, since a
/// completion signal nobody waits for carries no information.
#[verifier::external_body]
pub(crate) fn send_done(s: &std::sync::mpsc::Sender<()>) {
    let _ = s.send(());
}

/// Relies on `std::sync::mpsc::Receiver::recv`: blocks until one unit has
/// been received, or until every sender is gone.  Each call consumes at most
/// one unit, so `n` calls never consume more than `n` completion signals.
#[verifier::external_body]
pub(crate) fn recv_done(r: &std::sync::mpsc::Receiver<()>)
    opens_invariants none
    no_unwind
{
    let _ = r.recv();
}

} // verus!
