//! A broadcast channel using `async_broadcast`.
use crate::errors::{SendError, TrySendError};
use crate::sending::{IsSender, IsStaticSender};
use vstd::prelude::*;

verus! {

/// `async_broadcast::Sender::is_closed`; nothing is claimed of the result, which depends on
/// the receivers.
#[verifier::external_body]
fn broadcast_is_closed<T>(sender: &async_broadcast::Sender<T>) -> bool {
    sender.is_closed()
}

/// `async_broadcast::Sender::capacity`; nothing is claimed of the result, which can be changed
/// through other senders.
#[verifier::external_body]
fn broadcast_capacity<T>(sender: &async_broadcast::Sender<T>) -> usize {
    sender.capacity()
}

/// `async_broadcast::Sender::len`; nothing is claimed of the result.
#[verifier::external_body]
fn broadcast_len<T>(sender: &async_broadcast::Sender<T>) -> usize {
    sender.len()
}

/// `async_broadcast::Sender::receiver_count`; nothing is claimed of the result.
#[verifier::external_body]
fn broadcast_receiver_count<T>(sender: &async_broadcast::Sender<T>) -> usize {
    sender.receiver_count()
}

/// `async_broadcast::Sender::sender_count`.
///
/// Claimed: the count includes `sender` itself, as the channel counts every live sender.
#[verifier::external_body]
fn broadcast_sender_count<T>(sender: &async_broadcast::Sender<T>) -> (r: usize)
    ensures
        r >= 1,
{
    sender.sender_count()
}

/// `async_broadcast::Sender::clone`: another sender on the same channel.
#[verifier::external_body]
fn broadcast_clone<T>(sender: &async_broadcast::Sender<T>) -> async_broadcast::Sender<T> {
    sender.clone()
}

/// `async_broadcast::Sender::try_broadcast`, its error converted variant by variant; a channel
/// without active receivers counts as closed. A message that overflow mode pushed out of the
/// channel is dropped.
///
/// Claimed: a failed send hands back the message it was given; whether it fails depends on the
/// state of the channel.
#[verifier::external_body]
fn broadcast_try_send<T: Clone>(sender: &async_broadcast::Sender<T>, msg: T) -> (r: Result<
    (),
    TrySendError<(T, ())>,
>)
    ensures
        r matches Err(e) ==> e.payload() == (msg, ()),
{
    match sender.try_broadcast(msg) {
        Ok(_) => Ok(()),
        Err(async_broadcast::TrySendError::Full(m)) => Err(TrySendError::Full((m, ()))),
        Err(async_broadcast::TrySendError::Closed(m)) => Err(TrySendError::Closed((m, ()))),
        Err(async_broadcast::TrySendError::Inactive(m)) => Err(TrySendError::Closed((m, ()))),
    }
}

/// `async_broadcast::Sender::broadcast_blocking`. A message that overflow mode pushed out of
/// the channel is dropped.
///
/// Claimed: a failed send hands back the message it was given; it fails when the channel is
/// closed, or has only inactive receivers and is set not to wait for them.
#[verifier::external_body]
fn broadcast_send_blocking<T: Clone>(sender: &async_broadcast::Sender<T>, msg: T) -> (r: Result<
    (),
    SendError<(T, ())>,
>)
    ensures
        r matches Err(e) ==> e.0 == (msg, ()),
{
    match sender.broadcast_blocking(msg) {
        Ok(_) => Ok(()),
        Err(async_broadcast::SendError(m)) => Err(SendError((m, ()))),
    }
}

/// `async_broadcast::broadcast`, which panics on a capacity of zero.
#[verifier::external_body]
fn broadcast_channel<T>(cap: usize) -> (async_broadcast::Sender<T>, async_broadcast::Receiver<T>)
    requires
        cap > 0,
{
    async_broadcast::broadcast(cap)
}

/// `r` is what `sender` reports when asked whether its channel is closed.
pub closed spec fn channel_closed<T>(sender: async_broadcast::Sender<T>, r: bool) -> bool {
    call_ensures(broadcast_is_closed::<T>, (&sender,), r)
}

/// `r` is what `sender` reports as the capacity of its channel.
pub closed spec fn channel_capacity<T>(sender: async_broadcast::Sender<T>, r: usize) -> bool {
    call_ensures(broadcast_capacity::<T>, (&sender,), r)
}

/// `r` is what `sender` reports as the number of messages in its channel.
pub closed spec fn channel_len<T>(sender: async_broadcast::Sender<T>, r: usize) -> bool {
    call_ensures(broadcast_len::<T>, (&sender,), r)
}

/// `r` is what `sender` reports as the number of receivers of its channel.
pub closed spec fn channel_receivers<T>(sender: async_broadcast::Sender<T>, r: usize) -> bool {
    call_ensures(broadcast_receiver_count::<T>, (&sender,), r)
}

/// `r` is what `sender` reports as the number of senders of its channel.
pub closed spec fn channel_senders<T>(sender: async_broadcast::Sender<T>, r: usize) -> bool {
    call_ensures(broadcast_sender_count::<T>, (&sender,), r)
}

/// `r` is a sender that cloning `sender` gives: another sender on the same channel.
pub closed spec fn cloned_sender<T>(sender: async_broadcast::Sender<T>, r: async_broadcast::Sender<T>) -> bool {
    call_ensures(broadcast_clone::<T>, (&sender,), r)
}

/// `r` is a result of trying to send `msg` into the channel of `sender`.
pub closed spec fn tried_on<T: Clone>(
    sender: async_broadcast::Sender<T>,
    msg: T,
    r: Result<(), TrySendError<(T, ())>>,
) -> bool {
    call_ensures(broadcast_try_send::<T>, (&sender, msg), r)
}

/// `r` is a result of sending `msg` into the channel of `sender`, waiting for space.
pub closed spec fn sent_on<T: Clone>(
    sender: async_broadcast::Sender<T>,
    msg: T,
    r: Result<(), SendError<(T, ())>>,
) -> bool {
    call_ensures(broadcast_send_blocking::<T>, (&sender, msg), r)
}

/// `r` is a channel that `async_broadcast::broadcast(cap)` makes.
pub closed spec fn made_with_capacity<T>(
    cap: usize,
    r: (async_broadcast::Sender<T>, async_broadcast::Receiver<T>),
) -> bool {
    call_ensures(broadcast_channel::<T>, (cap,), r)
}

/// A wrapper around [`async_broadcast::Sender`].
#[derive(Debug)]
#[verifier::reject_recursive_types(P)]
pub struct Sender<P> {
    sender: async_broadcast::Sender<P>,
}

impl<P> Sender<P> {
    /// The wrapped sender.
    pub closed spec fn channel(&self) -> async_broadcast::Sender<P> {
        self.sender
    }

    /// Returns a reference to the wrapped sender.
    pub fn inner(&self) -> (r: &async_broadcast::Sender<P>)
        ensures
            *r == self.channel(),
    {
        &self.sender
    }

    /// Returns a mutable reference to the wrapped sender.
    pub fn inner_mut(&mut self) -> (r: &mut async_broadcast::Sender<P>)
        ensures
            *r == old(self).channel(),
            final(self).channel() == *final(r),
    {
        &mut self.sender
    }

    /// Returns the wrapped sender.
    pub fn into_inner(self) -> (r: async_broadcast::Sender<P>)
        ensures
            r == self.channel(),
    {
        self.sender
    }

    /// Wraps `sender`.
    pub fn from_inner(sender: async_broadcast::Sender<P>) -> (r: Self)
        ensures
            r.channel() == sender,
    {
        Self { sender }
    }
}

impl<P> IsSender for Sender<P> {
    type With = ();

    fn is_closed(&self) -> (r: bool)
        ensures
            channel_closed(self.channel(), r),
    {
        broadcast_is_closed(&self.sender)
    }

    /// A broadcast channel is always bounded.
    fn capacity(&self) -> (r: Option<usize>)
        ensures
            r matches Some(c) && channel_capacity(self.channel(), c),
    {
        Some(broadcast_capacity(&self.sender))
    }

    fn len(&self) -> (r: usize)
        ensures
            channel_len(self.channel(), r),
    {
        broadcast_len(&self.sender)
    }

    fn receiver_count(&self) -> (r: usize)
        ensures
            channel_receivers(self.channel(), r),
    {
        broadcast_receiver_count(&self.sender)
    }

    /// The count includes this sender.
    fn sender_count(&self) -> (r: usize)
        ensures
            r >= 1,
            channel_senders(self.channel(), r),
    {
        broadcast_sender_count(&self.sender)
    }
}

impl<P: Clone + Send + Sync> IsStaticSender for Sender<P> {
    type Protocol = P;

    fn try_send_protocol_with(this: &Self, protocol: P, with: ()) -> (r: Result<
        (),
        TrySendError<(P, ())>,
    >)
        ensures
            r matches Err(e) ==> e.payload() == (protocol, with),
            tried_on(this.channel(), protocol, r),
    {
        broadcast_try_send(&this.sender, protocol)
    }

    fn send_protocol_blocking_with(this: &Self, protocol: P, with: ()) -> (r: Result<
        (),
        SendError<(P, ())>,
    >)
        ensures
            r matches Err(e) ==> e.0 == (protocol, with),
            sent_on(this.channel(), protocol, r),
    {
        broadcast_send_blocking(&this.sender, protocol)
    }
}

impl<P> Clone for Sender<P> {
    fn clone(&self) -> (r: Self)
        ensures
            cloned_sender(self.channel(), r.channel()),
    {
        Self { sender: broadcast_clone(&self.sender) }
    }
}

/// Creates a broadcast channel that holds at most `buffer` messages.
///
/// A buffer of zero is refused by the channel.
pub fn channel<P: Clone>(buffer: usize) -> (r: (Sender<P>, async_broadcast::Receiver<P>))
    requires
        buffer > 0,
    ensures
        made_with_capacity(buffer, (r.0.channel(), r.1)),
{
    let (sender, receiver) = broadcast_channel(buffer);
    (Sender { sender }, receiver)
}

} // verus!
