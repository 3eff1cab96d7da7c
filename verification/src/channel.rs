use vstd::prelude::*;

verus! {

/// The sending half of a crossbeam channel. A value of this type is opaque
/// to the core: everything it does goes through `Sender::send` below.
#[verifier::external_type_specification]
#[verifier::external_body]
#[verifier::reject_recursive_types(T)]
pub struct ExSender<T>(crossbeam_channel::Sender<T>);

/// The error a failed channel send returns, carrying the unsent message.
#[verifier::external_type_specification]
#[verifier::external_body]
#[verifier::reject_recursive_types(T)]
pub struct ExSendError<T>(crossbeam_channel::SendError<T>);

/// Relies on crossbeam_channel::Sender::send: it blocks until the message is
/// delivered into the channel and returns `Ok`, or returns `Err` with the
/// message when the receiving side has disconnected. Whether the receiver is
/// still there is outside state, so nothing more is promised of the result.
pub assume_specification<T>[ crossbeam_channel::Sender::<T>::send ](
    s: &crossbeam_channel::Sender<T>,
    msg: T,
) -> Result<(), crossbeam_channel::SendError<T>>;

} // verus!
