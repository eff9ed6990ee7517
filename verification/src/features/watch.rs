//! A watch channel using `tokio::sync::watch`.
//!
//! A watch channel holds a single value, which every send replaces.
use crate::errors::{SendError, TrySendError};
use crate::sending::{IsSender, IsStaticSender};
use std::sync::Arc;
use tokio::sync::watch;
use vstd::prelude::*;

verus! {

/// `tokio::sync::watch::Sender::is_closed`; nothing is claimed of the result, which depends on
/// the receivers.
#[verifier::external_body]
fn watch_is_closed<T>(sender: &watch::Sender<T>) -> bool {
    sender.is_closed()
}

/// `tokio::sync::watch::Sender::receiver_count`; nothing is claimed of the result.
#[verifier::external_body]
fn watch_receiver_count<T>(sender: &watch::Sender<T>) -> usize {
    sender.receiver_count()
}

/// `tokio::sync::watch::Sender::send`.
///
/// Claimed: a failed send hands back the value it was given; it fails only when every receiver
/// has been dropped.
#[verifier::external_body]
fn watch_send<T>(sender: &watch::Sender<T>, value: T) -> (r: Result<(), SendError<T>>)
    ensures
        r matches Err(e) ==> e.0 == value,
{
    match sender.send(value) {
        Ok(()) => Ok(()),
        Err(watch::error::SendError(v)) => Err(SendError(v)),
    }
}

/// `tokio::sync::watch::channel`.
#[verifier::external_body]
fn watch_channel<T>(init: T) -> (watch::Sender<T>, watch::Receiver<T>) {
    watch::channel::<T>(init)
}

/// `Arc::clone`: another handle to the same watch sender.
#[verifier::external_body]
fn clone_shared<T>(sender: &Arc<watch::Sender<T>>) -> (r: Arc<watch::Sender<T>>)
    ensures
        *r == **sender,
{
    Arc::clone(sender)
}

/// `r` is what `sender` reports when asked whether every receiver has been dropped.
pub closed spec fn channel_closed<T>(sender: watch::Sender<T>, r: bool) -> bool {
    call_ensures(watch_is_closed::<T>, (&sender,), r)
}

/// `r` is what `sender` reports as the number of receivers of its channel.
pub closed spec fn channel_receivers<T>(sender: watch::Sender<T>, r: usize) -> bool {
    call_ensures(watch_receiver_count::<T>, (&sender,), r)
}

/// `r` is a result of sending `value` into the channel of `sender`.
pub closed spec fn sent_on<T>(sender: watch::Sender<T>, value: T, r: Result<(), SendError<T>>) -> bool {
    call_ensures(watch_send::<T>, (&sender, value), r)
}

/// `r` is a channel that `tokio::sync::watch::channel(init)` makes.
pub closed spec fn made_holding<T>(init: T, r: (watch::Sender<T>, watch::Receiver<T>)) -> bool {
    call_ensures(watch_channel::<T>, (init,), r)
}

/// Wrapper around [`tokio::sync::watch::Sender`].
#[derive(Debug)]
#[verifier::reject_recursive_types(P)]
pub struct Sender<P> {
    sender: Arc<watch::Sender<P>>,
}

impl<P> Sender<P> {
    /// The wrapped sender.
    pub closed spec fn channel(&self) -> Arc<watch::Sender<P>> {
        self.sender
    }

    /// Returns a reference to the wrapped sender.
    pub fn inner(&self) -> (r: &Arc<watch::Sender<P>>)
        ensures
            *r == self.channel(),
    {
        &self.sender
    }

    /// Returns a mutable reference to the wrapped sender.
    pub fn inner_mut(&mut self) -> (r: &mut Arc<watch::Sender<P>>)
        ensures
            *r == old(self).channel(),
            final(self).channel() == *final(r),
    {
        &mut self.sender
    }

    /// Returns the wrapped sender.
    pub fn into_inner(self) -> (r: Arc<watch::Sender<P>>)
        ensures
            r == self.channel(),
    {
        self.sender
    }

    /// Wraps `sender`.
    pub fn from_inner(sender: Arc<watch::Sender<P>>) -> (r: Self)
        ensures
            r.channel() == sender,
    {
        Self { sender }
    }
}

impl<P> IsSender for Sender<P> {
    type With = ();

    fn is_closed(&self) -> (r: bool)
        ensures
            channel_closed(*self.channel(), r),
    {
        watch_is_closed(&self.sender)
    }

    /// A watch channel has no bound.
    fn capacity(&self) -> (r: Option<usize>)
        ensures
            r is None,
    {
        None
    }

    /// A watch channel always holds one value.
    fn len(&self) -> (r: usize)
        ensures
            r == 1,
    {
        1
    }

    fn receiver_count(&self) -> (r: usize)
        ensures
            channel_receivers(*self.channel(), r),
    {
        watch_receiver_count(&self.sender)
    }

    /// A watch channel has one sender.
    fn sender_count(&self) -> (r: usize)
        ensures
            r == 1,
    {
        1
    }
}

impl<P: Clone + Send + Sync> IsStaticSender for Sender<P> {
    type Protocol = P;

    fn try_send_protocol_with(this: &Self, protocol: P, with: ()) -> (r: Result<
        (),
        TrySendError<(P, ())>,
    >)
        ensures
            r matches Err(e) ==> e is Closed && e.payload() == (protocol, with),
            exists|s: Result<(), SendError<P>>|
                #![trigger sent_on(*this.channel(), protocol, s)]
                sent_on(*this.channel(), protocol, s) && (r is Ok <==> s is Ok),
    {
        let ghost value = protocol;
        let sent = watch_send(&this.sender, protocol);
        assert(sent_on(*this.channel(), value, sent));
        match sent {
            Ok(()) => Ok(()),
            Err(SendError(p)) => Err(TrySendError::Closed((p, ()))),
        }
    }

    fn send_protocol_blocking_with(this: &Self, protocol: P, with: ()) -> (r: Result<
        (),
        SendError<(P, ())>,
    >)
        ensures
            r matches Err(e) ==> e.0 == (protocol, with),
            exists|s: Result<(), SendError<P>>|
                #![trigger sent_on(*this.channel(), protocol, s)]
                sent_on(*this.channel(), protocol, s) && (r is Ok <==> s is Ok),
    {
        let ghost value = protocol;
        let sent = watch_send(&this.sender, protocol);
        assert(sent_on(*this.channel(), value, sent));
        match sent {
            Ok(()) => Ok(()),
            Err(SendError(p)) => Err(SendError((p, ()))),
        }
    }
}

impl<P> Clone for Sender<P> {
    /// The clone shares the same watch sender.
    fn clone(&self) -> (r: Self)
        ensures
            *r.channel() == *self.channel(),
    {
        Self { sender: clone_shared(&self.sender) }
    }
}

/// Creates a watch channel holding `init`.
pub fn channel<P>(init: P) -> (r: (Sender<P>, watch::Receiver<P>))
    ensures
        made_holding(init, (*r.0.channel(), r.1)),
{
    let (sender, receiver) = watch_channel::<P>(init);
    (Sender { sender: Arc::new(sender) }, receiver)
}

} // verus!
