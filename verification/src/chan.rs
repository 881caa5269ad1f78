use vstd::prelude::*;

verus! {

#[verifier::external_type_specification]
#[verifier::external_body]
#[verifier::reject_recursive_types(T)]
pub struct ExSender<T>(tokio::sync::mpsc::Sender<T>);

#[verifier::external_type_specification]
#[verifier::external_body]
#[verifier::reject_recursive_types(T)]
pub struct ExReceiver<T>(tokio::sync::mpsc::Receiver<T>);

/// Relies on tokio's `mpsc::Sender::blocking_send`: delivers `value` into
/// the channel, waiting while the channel is full (this wait is the
/// capture engine's backpressure), and returns `Ok` exactly when the
/// receiver half is still open. Must run on a thread that may block, never
/// on an asynchronous executor.
#[verifier::external_body]
pub(crate) fn send_blocking<T>(s: &tokio::sync::mpsc::Sender<T>, value: T) -> (r: bool) {
    s.blocking_send(value).is_ok()
}

} // verus!
