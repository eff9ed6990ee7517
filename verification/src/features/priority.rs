//! A priority channel using `async_priority_channel`.
//!
//! Every message is sent with a priority, which is the sender's `with` value.
use crate::errors::{SendError, TrySendError};
use crate::sending::{IsSender, IsStaticSender};
use async_priority_channel as prio;
use vstd::prelude::*;

verus! {

/// `async_priority_channel::Sender::is_closed`; nothing is claimed of the result, which depends
/// on the receivers.
#[verifier::external_body]
fn prio_is_closed<I, P: Ord>(sender: &prio::Sender<I, P>) -> bool {
    sender.is_closed()
}

/// `async_priority_channel::Sender::capacity`.
///
/// Claimed: a bounded channel reports a capacity above zero, as `bounded` refuses zero and
/// `unbounded` stores `u64::MAX`, which is reported as `None`. Which capacity the channel was
/// made with is not claimed.
#[verifier::external_body]
fn prio_capacity<I, P: Ord>(sender: &prio::Sender<I, P>) -> (r: Option<u64>)
    ensures
        r matches Some(c) ==> 0 < c < u64::MAX,
{
    sender.capacity()
}

/// `async_priority_channel::Sender::len`; nothing is claimed of the result, which depends on
/// the other senders and receivers.
#[verifier::external_body]
fn prio_len<I, P: Ord>(sender: &prio::Sender<I, P>) -> u64 {
    sender.len()
}

/// `async_priority_channel::Sender::receiver_count`; nothing is claimed of the result.
#[verifier::external_body]
fn prio_receiver_count<I, P: Ord>(sender: &prio::Sender<I, P>) -> usize {
    sender.receiver_count()
}

/// `async_priority_channel::Sender::sender_count`; nothing is claimed of the result.
#[verifier::external_body]
fn prio_sender_count<I, P: Ord>(sender: &prio::Sender<I, P>) -> usize {
    sender.sender_count()
}

/// `async_priority_channel::Sender::clone`: another sender on the same channel.
#[verifier::external_body]
fn prio_clone<I, P: Ord>(sender: &prio::Sender<I, P>) -> prio::Sender<I, P> {
    sender.clone()
}

/// `async_priority_channel::Sender::try_send`, its error converted variant by variant.
///
/// Claimed: a failed send hands back the message and the priority it was given; whether it
/// fails depends on the state of the channel.
#[verifier::external_body]
fn prio_try_send<I, P: Ord>(sender: &prio::Sender<I, P>, msg: I, priority: P) -> (r: Result<
    (),
    TrySendError<(I, P)>,
>)
    ensures
        r matches Err(e) ==> e.payload() == (msg, priority),
{
    match sender.try_send(msg, priority) {
        Ok(()) => Ok(()),
        Err(prio::TrySendError::Full(e)) => Err(TrySendError::Full(e)),
        Err(prio::TrySendError::Closed(e)) => Err(TrySendError::Closed(e)),
    }
}

/// `async_priority_channel::Sender::send`, driven to completion with
/// `futures::executor::block_on`, which panics when the calling thread is already running a
/// `futures` executor (a condition of the thread, not of the arguments).
///
/// Claimed: a failed send hands back the message and the priority it was given; it fails only
/// when the channel is closed, which depends on the receivers.
#[verifier::external_body]
fn prio_send_blocking<I, P: Ord>(sender: &prio::Sender<I, P>, msg: I, priority: P) -> (r: Result<
    (),
    SendError<(I, P)>,
>)
    ensures
        r matches Err(e) ==> e.0 == (msg, priority),
{
    match futures::executor::block_on(sender.send(msg, priority)) {
        Ok(()) => Ok(()),
        Err(prio::SendError(e)) => Err(SendError(e)),
    }
}

/// `async_priority_channel::bounded`, which panics on a capacity of zero.
///
/// Claimed: the channel keeps `cap` as its capacity, which nothing changes afterwards, and its
/// sender reports it as `Some(cap)`, or as `None` where `cap` is `u64::MAX`, the mark of an
/// unbounded channel.
#[verifier::external_body]
fn prio_bounded<I, P: Ord>(cap: u64) -> (r: (prio::Sender<I, P>, prio::Receiver<I, P>))
    requires
        cap > 0,
    ensures
        forall|c: Option<u64>|
            #[trigger] call_ensures(prio_capacity::<I, P>, (&r.0,), c) ==> c == (if cap == u64::MAX {
                None
            } else {
                Some(cap)
            }),
{
    prio::bounded(cap)
}

/// `async_priority_channel::unbounded`.
///
/// Claimed: its sender reports no capacity, as the channel is made with the capacity
/// `u64::MAX`, which nothing changes afterwards.
#[verifier::external_body]
fn prio_unbounded<I, P: Ord>() -> (r: (prio::Sender<I, P>, prio::Receiver<I, P>))
    ensures
        forall|c: Option<u64>| #[trigger] call_ensures(prio_capacity::<I, P>, (&r.0,), c) ==> c is None,
{
    prio::unbounded()
}

/// `r` is what `sender` reports when asked whether its channel is closed.
pub closed spec fn channel_closed<I, P: Ord>(sender: prio::Sender<I, P>, r: bool) -> bool {
    call_ensures(prio_is_closed::<I, P>, (&sender,), r)
}

/// `r` is what `sender` reports as the capacity of its channel.
pub closed spec fn channel_capacity<I, P: Ord>(sender: prio::Sender<I, P>, r: Option<u64>) -> bool {
    call_ensures(prio_capacity::<I, P>, (&sender,), r)
}

/// `r` is what `sender` reports as the number of messages in its channel.
pub closed spec fn channel_len<I, P: Ord>(sender: prio::Sender<I, P>, r: u64) -> bool {
    call_ensures(prio_len::<I, P>, (&sender,), r)
}

/// `r` is what `sender` reports as the number of receivers of its channel.
pub closed spec fn channel_receivers<I, P: Ord>(sender: prio::Sender<I, P>, r: usize) -> bool {
    call_ensures(prio_receiver_count::<I, P>, (&sender,), r)
}

/// `r` is what `sender` reports as the number of senders of its channel.
pub closed spec fn channel_senders<I, P: Ord>(sender: prio::Sender<I, P>, r: usize) -> bool {
    call_ensures(prio_sender_count::<I, P>, (&sender,), r)
}

/// `r` is a sender that cloning `sender` gives: another sender on the same channel.
pub closed spec fn cloned_sender<I, P: Ord>(sender: prio::Sender<I, P>, r: prio::Sender<I, P>) -> bool {
    call_ensures(prio_clone::<I, P>, (&sender,), r)
}

/// `r` is a result of trying to send `msg` with `priority` into the channel of `sender`.
pub closed spec fn tried_on<I, P: Ord>(
    sender: prio::Sender<I, P>,
    msg: I,
    priority: P,
    r: Result<(), TrySendError<(I, P)>>,
) -> bool {
    call_ensures(prio_try_send::<I, P>, (&sender, msg, priority), r)
}

/// `r` is a result of sending `msg` with `priority` into the channel of `sender`, waiting for
/// space.
pub closed spec fn sent_on<I, P: Ord>(
    sender: prio::Sender<I, P>,
    msg: I,
    priority: P,
    r: Result<(), SendError<(I, P)>>,
) -> bool {
    call_ensures(prio_send_blocking::<I, P>, (&sender, msg, priority), r)
}

/// `r` is a channel that `async_priority_channel::bounded(cap)` makes.
pub closed spec fn made_bounded<I, P: Ord>(cap: u64, r: (prio::Sender<I, P>, prio::Receiver<I, P>)) -> bool {
    call_ensures(prio_bounded::<I, P>, (cap,), r)
}

/// `r` is a channel that `async_priority_channel::unbounded()` makes.
pub closed spec fn made_unbounded<I, P: Ord>(r: (prio::Sender<I, P>, prio::Receiver<I, P>)) -> bool {
    call_ensures(prio_unbounded::<I, P>, (), r)
}

/// A capacity reported as a `u64`, as this target's `usize` holds it: one that does not fit is
/// no bound.
pub open spec fn capacity_in_usize(c: Option<u64>) -> Option<usize> {
    match c {
        Some(c) => if c <= usize::MAX {
            Some(c as usize)
        } else {
            None
        },
        None => None,
    }
}

/// A length reported as a `u64`, as this target's `usize` holds it: one that does not fit is
/// `usize::MAX`.
pub open spec fn len_in_usize(len: u64) -> usize {
    if len <= usize::MAX {
        len as usize
    } else {
        usize::MAX
    }
}

/// Wrapper around [`async_priority_channel::Sender`].
#[derive(Debug)]
#[verifier::reject_recursive_types(P)]
#[verifier::reject_recursive_types(O)]
pub struct Sender<P, O: Ord> {
    sender: prio::Sender<P, O>,
}

impl<P, O: Ord> Sender<P, O> {
    /// The wrapped sender.
    pub closed spec fn channel(&self) -> prio::Sender<P, O> {
        self.sender
    }

    /// Returns a reference to the wrapped sender.
    pub fn inner(&self) -> (r: &prio::Sender<P, O>)
        ensures
            *r == self.channel(),
    {
        &self.sender
    }

    /// Returns the wrapped sender.
    pub fn into_inner(self) -> (r: prio::Sender<P, O>)
        ensures
            r == self.channel(),
    {
        self.sender
    }

    /// Returns a mutable reference to the wrapped sender.
    pub fn inner_mut(&mut self) -> (r: &mut prio::Sender<P, O>)
        ensures
            *r == old(self).channel(),
            final(self).channel() == *final(r),
    {
        &mut self.sender
    }

    /// Wraps `sender`.
    pub fn from_inner(sender: prio::Sender<P, O>) -> (r: Self)
        ensures
            r.channel() == sender,
    {
        Self { sender }
    }
}

impl<P, O: Ord> IsSender for Sender<P, O> {
    type With = O;

    fn is_closed(&self) -> (r: bool)
        ensures
            channel_closed(self.channel(), r),
    {
        prio_is_closed(&self.sender)
    }

    /// A capacity that no `usize` can hold is no bound on this target.
    fn capacity(&self) -> (r: Option<usize>)
        ensures
            r matches Some(c) ==> c > 0,
            exists|c: Option<u64>|
                #![trigger channel_capacity(self.channel(), c)]
                channel_capacity(self.channel(), c) && r == capacity_in_usize(c),
    {
        let reported = prio_capacity(&self.sender);
        assert(channel_capacity(self.channel(), reported));
        match reported {
            Some(c) => if c <= usize::MAX as u64 {
                Some(c as usize)
            } else {
                None
            },
            None => None,
        }
    }

    /// A length that no `usize` can hold is reported as `usize::MAX`.
    fn len(&self) -> (r: usize)
        ensures
            exists|len: u64|
                #![trigger channel_len(self.channel(), len)]
                channel_len(self.channel(), len) && r == len_in_usize(len),
    {
        let len = prio_len(&self.sender);
        assert(channel_len(self.channel(), len));
        if len <= usize::MAX as u64 {
            len as usize
        } else {
            usize::MAX
        }
    }

    fn receiver_count(&self) -> (r: usize)
        ensures
            channel_receivers(self.channel(), r),
    {
        prio_receiver_count(&self.sender)
    }

    fn sender_count(&self) -> (r: usize)
        ensures
            channel_senders(self.channel(), r),
    {
        prio_sender_count(&self.sender)
    }
}

impl<P: Send, O: Ord + Send> IsStaticSender for Sender<P, O> {
    type Protocol = P;

    fn try_send_protocol_with(this: &Self, protocol: P, with: O) -> (r: Result<
        (),
        TrySendError<(P, O)>,
    >)
        ensures
            r matches Err(e) ==> e.payload() == (protocol, with),
            tried_on(this.channel(), protocol, with, r),
    {
        prio_try_send(&this.sender, protocol, with)
    }

    fn send_protocol_blocking_with(this: &Self, protocol: P, with: O) -> (r: Result<
        (),
        SendError<(P, O)>,
    >)
        ensures
            r matches Err(e) ==> e.0 == (protocol, with),
            sent_on(this.channel(), protocol, with, r),
    {
        prio_send_blocking(&this.sender, protocol, with)
    }
}

impl<P, O: Ord> Clone for Sender<P, O> {
    fn clone(&self) -> (r: Self)
        ensures
            cloned_sender(self.channel(), r.channel()),
    {
        Self { sender: prio_clone(&self.sender) }
    }
}

/// Creates a bounded priority channel, which holds at most `size` messages.
///
/// A size of zero is refused by the channel.
pub fn bounded<P, O: Ord>(size: usize) -> (r: (Sender<P, O>, prio::Receiver<P, O>))
    requires
        size > 0,
    ensures
        made_bounded(size as u64, (r.0.channel(), r.1)),
        forall|c: Option<u64>|
            #[trigger] channel_capacity(r.0.channel(), c) ==> c == (if size as u64 == u64::MAX {
                None
            } else {
                Some(size as u64)
            }),
{
    let (sender, receiver) = prio_bounded(size as u64);
    (Sender { sender }, receiver)
}

/// Creates an unbounded priority channel.
pub fn unbounded<P, O: Ord>() -> (r: (Sender<P, O>, prio::Receiver<P, O>))
    ensures
        made_unbounded((r.0.channel(), r.1)),
        forall|c: Option<u64>| #[trigger] channel_capacity(r.0.channel(), c) ==> c is None,
{
    let (sender, receiver) = prio_unbounded();
    (Sender { sender }, receiver)
}

/// `capacity` reports the channel's bound unchanged: a bound of `n` messages as `Some(n)`, where
/// a `usize` holds `n`, and no bound as `None`.
pub proof fn law_capacity_is_the_channels<P, O: Ord>(s: Sender<P, O>, r: Option<usize>)
    requires
        call_ensures(<Sender<P, O> as IsSender>::capacity, (&s,), r),
    ensures
        exists|c: Option<u64>|
            #![trigger channel_capacity(s.channel(), c)]
            channel_capacity(s.channel(), c) && match c {
                Some(n) => (n <= usize::MAX ==> r == Some(n as usize)) && (n > usize::MAX ==> r is None),
                None => r is None,
            },
{
}

/// A channel made with `bounded(size)` reports the capacity `size`.
pub proof fn law_bounded_reports_its_size<P, O: Ord>(
    size: usize,
    made: (Sender<P, O>, prio::Receiver<P, O>),
    r: Option<usize>,
)
    requires
        call_ensures(bounded::<P, O>, (size,), made),
        call_ensures(<Sender<P, O> as IsSender>::capacity, (&made.0,), r),
        size < u64::MAX,
    ensures
        r == Some(size),
{
    let c = choose|c: Option<u64>| channel_capacity(made.0.channel(), c) && r == capacity_in_usize(c);
    assert(channel_capacity(made.0.channel(), c));
}

/// A channel made with `unbounded()` reports no capacity.
pub proof fn law_unbounded_reports_no_capacity<P, O: Ord>(
    made: (Sender<P, O>, prio::Receiver<P, O>),
    r: Option<usize>,
)
    requires
        call_ensures(unbounded::<P, O>, (), made),
        call_ensures(<Sender<P, O> as IsSender>::capacity, (&made.0,), r),
    ensures
        r is None,
{
    let c = choose|c: Option<u64>| channel_capacity(made.0.channel(), c) && r == capacity_in_usize(c);
    assert(channel_capacity(made.0.channel(), c));
}

/// `len` reports the number of messages in the channel unchanged, where a `usize` holds it,
/// and `usize::MAX` where it does not.
pub proof fn law_len_is_the_channels<P, O: Ord>(s: Sender<P, O>, r: usize)
    requires
        call_ensures(<Sender<P, O> as IsSender>::len, (&s,), r),
    ensures
        exists|n: u64|
            #![trigger channel_len(s.channel(), n)]
            channel_len(s.channel(), n) && (n <= usize::MAX ==> r == n) && (n > usize::MAX ==> r
                == usize::MAX),
{
}

} // verus!
