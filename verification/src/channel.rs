use vstd::prelude::*;

verus! {

#[verifier::external_type_specification]
#[verifier::external_body]
#[verifier::reject_recursive_types(T)]
pub struct ExSender<T>(std::sync::mpsc::Sender<T>);

#[verifier::external_type_specification]
#[verifier::external_body]
#[verifier::reject_recursive_types(T)]
pub struct ExReceiver<T>(std::sync::mpsc::Receiver<T>);

/// Relies on std::sync::mpsc::Sender::send: enqueues the value for the
/// receiving end and reports `true`, or reports `false` when no receiver
/// remains, in which case the value is dropped. Whether a receiver remains
/// depends on the environment, so nothing more is promised of the result.
#[verifier::external_body]
pub(crate) fn send_value<C>(tx: &std::sync::mpsc::Sender<C>, value: C) -> (delivered: bool) {
    tx.send(value).is_ok()
}

} // verus!
