//! The two tokio channels through which the engine answers: the bounded
//! update queue and the single-use reply channel of a subscription.
//!
//! The channels are opaque here. What they do with a message depends on the
//! other side, so the contracts below only say what holds either way.

use vstd::prelude::*;

use tokio::sync::mpsc::error::TrySendError;

use crate::types::AccountUpdate;

verus! {

/// Opaque declaration of `tokio::sync::mpsc::Sender`, the sending half of
/// tokio's bounded queue.
#[verifier::external_type_specification]
#[verifier::external_body]
#[verifier::reject_recursive_types(T)]
pub struct ExSender<T>(tokio::sync::mpsc::Sender<T>);

/// Declaration of `tokio::sync::mpsc::error::TrySendError`, the error of
/// `try_send`, with its two variants.
#[verifier::external_type_specification]
#[verifier::reject_recursive_types(T)]
pub struct ExTrySendError<T>(tokio::sync::mpsc::error::TrySendError<T>);

/// Opaque declaration of `tokio::sync::oneshot::Sender`, the sending half
/// of tokio's single-use channel.
#[verifier::external_type_specification]
#[verifier::external_body]
#[verifier::reject_recursive_types(T)]
pub struct ExReplySender<T>(tokio::sync::oneshot::Sender<T>);

/// `tokio::sync::mpsc::Sender::try_send` returns at once. Whether the
/// message is queued depends on the queue; when it is not, the error hands
/// the message back unchanged.
pub assume_specification<T>[ tokio::sync::mpsc::Sender::<T>::try_send ](
    sender: &tokio::sync::mpsc::Sender<T>,
    message: T,
) -> (sent: Result<(), tokio::sync::mpsc::error::TrySendError<T>>)
    ensures
        match sent {
            Ok(_) => true,
            Err(tokio::sync::mpsc::error::TrySendError::Full(back)) => back == message,
            Err(tokio::sync::mpsc::error::TrySendError::Closed(back)) => back == message,
        },
;

/// `tokio::sync::oneshot::Sender::send` consumes the sender and returns at
/// once. Whether the value is stored depends on the receiver; when it is
/// not, the value comes back unchanged.
pub assume_specification<T>[ tokio::sync::oneshot::Sender::<T>::send ](
    sender: tokio::sync::oneshot::Sender<T>,
    t: T,
) -> (sent: Result<(), T>)
    ensures
        sent matches Err(back) ==> back == t,
;

/// What became of an update offered to the update queue.
#[derive(Debug, Clone, Copy, PartialEq, Eq)]
pub enum Delivery {
    /// The update was queued.
    Sent,
    /// The queue was full; the update was dropped.
    Full,
    /// The receiving side is gone; the update was dropped.
    Closed,
}

impl Delivery {
    /// Reads what `try_send` returned: queued, or dropped for one of the two
    /// reasons.
    pub fn from_try_send(sent: Result<(), TrySendError<AccountUpdate>>) -> (delivery: Delivery)
        ensures
            sent is Ok <==> delivery == Delivery::Sent,
            sent matches Err(TrySendError::Full(_)) <==> delivery == Delivery::Full,
            sent matches Err(TrySendError::Closed(_)) <==> delivery == Delivery::Closed,
    {
        match sent {
            Ok(_) => Delivery::Sent,
            Err(TrySendError::Full(_)) => Delivery::Full,
            Err(TrySendError::Closed(_)) => Delivery::Closed,
        }
    }

    /// Whether the update was dropped.
    pub fn is_dropped(&self) -> (dropped: bool)
        ensures
            dropped == (*self != Delivery::Sent),
    {
        match self {
            Delivery::Sent => false,
            Delivery::Full => true,
            Delivery::Closed => true,
        }
    }
}

} // verus!
