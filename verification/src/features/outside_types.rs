//! Declarations of the channel types of the outside crates that the senders wrap.
use async_broadcast::Receiver as BroadcastReceiver;
use async_broadcast::Sender as BroadcastSender;
use async_priority_channel::Receiver as PrioReceiver;
use async_priority_channel::Sender as PrioSender;
use ::oneshot::Receiver as OneshotReceiver;
use ::oneshot::RecvError as OneshotRecvError;
use ::oneshot::Sender as OneshotSender;
use tokio::sync::watch::Receiver as WatchReceiver;
use tokio::sync::watch::Sender as WatchSender;
use vstd::prelude::*;

verus! {

/// The declaration of `async_priority_channel::Sender`.
#[verifier::external_type_specification]
#[verifier::external_body]
#[verifier::reject_recursive_types(I)]
#[verifier::reject_recursive_types(P)]
pub struct ExPrioSender<I, P: Ord>(PrioSender<I, P>);

/// The declaration of `async_priority_channel::Receiver`.
#[verifier::external_type_specification]
#[verifier::external_body]
#[verifier::reject_recursive_types(I)]
#[verifier::reject_recursive_types(P)]
pub struct ExPrioReceiver<I, P: Ord>(PrioReceiver<I, P>);

/// The declaration of `async_broadcast::Sender`.
#[verifier::external_type_specification]
#[verifier::external_body]
#[verifier::reject_recursive_types(T)]
pub struct ExBroadcastSender<T>(BroadcastSender<T>);

/// The declaration of `async_broadcast::Receiver`.
#[verifier::external_type_specification]
#[verifier::external_body]
#[verifier::reject_recursive_types(T)]
pub struct ExBroadcastReceiver<T>(BroadcastReceiver<T>);

/// The declaration of `tokio::sync::watch::Sender`.
#[verifier::external_type_specification]
#[verifier::external_body]
#[verifier::reject_recursive_types(T)]
pub struct ExWatchSender<T>(WatchSender<T>);

/// The declaration of `tokio::sync::watch::Receiver`.
#[verifier::external_type_specification]
#[verifier::external_body]
#[verifier::reject_recursive_types(T)]
pub struct ExWatchReceiver<T>(WatchReceiver<T>);

/// The declaration of `oneshot::Sender`, the sending half of a oneshot channel.
#[verifier::external_type_specification]
#[verifier::external_body]
#[verifier::reject_recursive_types(T)]
pub struct ExOneshotSender<T>(OneshotSender<T>);

/// The declaration of `oneshot::Receiver`, the receiving half of a oneshot channel.
#[verifier::external_type_specification]
#[verifier::external_body]
#[verifier::reject_recursive_types(T)]
pub struct ExOneshotReceiver<T>(OneshotReceiver<T>);

/// The declaration of `oneshot::RecvError`, the error of a receiver whose sender was dropped:
/// the reply of a request is a `oneshot::Receiver`, a future that resolves to it.
#[verifier::external_type_specification]
#[verifier::external_body]
pub struct ExOneshotRecvError(OneshotRecvError);

} // verus!
