//! The hand-off channel that carries new sample sources from the control
//! side to the output callback. Only its declarations live here: the
//! channel is crossbeam's, and nothing is promised of what a receive finds,
//! since the other side may send at any moment.
use crossbeam_channel::{Receiver, Sender, TryRecvError};
use vstd::prelude::*;

verus! {

#[verifier::external_type_specification]
#[verifier::external_body]
#[verifier::reject_recursive_types(T)]
pub struct ExSender<T>(Sender<T>);

#[verifier::external_type_specification]
#[verifier::external_body]
#[verifier::reject_recursive_types(T)]
pub struct ExReceiver<T>(Receiver<T>);

#[verifier::external_type_specification]
#[verifier::external_body]
pub struct ExTryRecvError(TryRecvError);

/// Relies on crossbeam_channel::unbounded: a connected sender and receiver
/// of a channel without a capacity bound, so a send never waits.
pub assume_specification<T>[ crossbeam_channel::unbounded::<T> ]() -> (Sender<T>, Receiver<T>);

/// Relies on crossbeam_channel::Receiver::try_recv: takes the oldest queued
/// message if there is one, never waiting.
pub assume_specification<T>[ Receiver::<T>::try_recv ](r: &Receiver<T>) -> Result<
    T,
    TryRecvError,
>;

/// Relies on crossbeam_channel::Receiver's Clone: another receiver of the
/// same channel.
pub assume_specification<T>[ <Receiver<T> as Clone>::clone ](r: &Receiver<T>) -> Receiver<T>;

} // verus!
