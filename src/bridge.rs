//! Completion of work handed to a worker pool: the worker's side delivers one
//! value over a one-shot channel, and the waiting side turns what the channel
//! hands back into the operation's result.

use vstd::prelude::*;

use futures::channel::oneshot::{Canceled, Sender};

use crate::error::Error;

verus! {

#[verifier::external_type_specification]
#[verifier::external_body]
pub struct ExCanceled(Canceled);

#[verifier::external_type_specification]
#[verifier::external_body]
#[verifier::reject_recursive_types(T)]
pub struct ExSender<T>(Sender<T>);

/// Relies on `oneshot::Sender::send`: when the receiving end is gone, the value
/// comes back unsent.
pub assume_specification<T>[ Sender::<T>::send ](tx: Sender<T>, t: T) -> (r: Result<(), T>)
    ensures
        r matches Err(v) ==> v == t,
;

/// What became of a value that a worker delivered.
#[derive(Clone, Copy, Debug, PartialEq, Eq, Structural)]
pub enum Delivery {
    /// The waiting side can receive it.
    Delivered,
    /// The waiting side had been dropped: the value was let go.
    Discarded,
}

/// Hands `value` to the waiting side. A waiting side that is gone makes this
/// a silent no-op: the value is dropped, nothing fails.
pub fn deliver<T>(tx: Sender<T>, value: T) -> (r: Delivery) {
    match tx.send(value) {
        Ok(()) => Delivery::Delivered,
        Err(_) => Delivery::Discarded,
    }
}

/// The result of offloaded work, from what its channel handed back: the
/// delivered value, or the abandonment error when the worker dropped its end
/// without delivering (it panicked, or the task was dropped).
pub fn settle<T>(received: Result<T, Canceled>) -> (r: Result<T, Error>)
    ensures
        match received {
            Ok(v) => r matches Ok(w) && w == v,
            Err(_) => r matches Err(Error::Abandoned),
        },
{
    match received {
        Ok(v) => Ok(v),
        Err(_) => Err(Error::Abandoned),
    }
}

} // verus!
