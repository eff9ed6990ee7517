//! Sending boxed messages to a statically typed sender.
//!
//! A dynamic sender hands a sender a boxed message: a message of a type that is only known at
//! runtime, together with a `with` value. The protocol of the sender tries to convert the box
//! into itself; a box that it does not accept is refused as `NotAccepted` and handed back
//! unchanged. A converted message is sent, and when the send fails the protocol is boxed again,
//! so that the caller gets back a box of the same kind as the one it gave.
use crate::errors::{DynSendError, DynSendNowError, SendError, TrySendError};
use crate::sending::IsStaticSender;
use crate::type_sets::Members;
use vstd::prelude::*;

verus! {

/// Trait that allows usage of dynamic senders for a protocol.
///
/// `W` is the `with` value that travels in the box, and [`DynFromInto::Boxed`] the box itself.
pub trait DynFromInto<W>: Members + Sized {
    /// The boxed message.
    type Boxed;

    /// Attempt to convert a boxed message into the full protocol (enum), failing, with the box
    /// handed back unchanged, if the message is not accepted.
    fn try_from_boxed_msg(msg: Self::Boxed) -> (r: Result<(Self, W), Self::Boxed>)
        ensures
            r matches Err(b) ==> b == msg,
    ;

    /// Convert the full protocol (enum) into a boxed message, which converts back into the
    /// same protocol and `with` value.
    fn into_boxed_msg(self, with: W) -> (r: Self::Boxed)
        ensures
            forall|q: Result<(Self, W), Self::Boxed>|
                #[trigger] call_ensures(Self::try_from_boxed_msg, (r,), q) ==> q == Ok::<
                    (Self, W),
                    Self::Boxed,
                >((self, with)),
    ;
}

/// `r` is what converting the box `msg` into the protocol `P` gives.
pub open spec fn unboxes<P: DynFromInto<W>, W>(msg: P::Boxed, r: Result<(P, W), P::Boxed>) -> bool {
    call_ensures(P::try_from_boxed_msg, (msg,), r)
}

/// `b` is what boxing the protocol `p` with `w` gives.
pub open spec fn boxes<P: DynFromInto<W>, W>(p: P, w: W, b: P::Boxed) -> bool {
    call_ensures(P::into_boxed_msg, (p, w), b)
}

/// A box that a protocol was boxed into unboxes to that protocol and `with` value: so the box
/// that a failed dynamic send hands back holds what could not be sent.
pub proof fn lemma_boxed_unboxes<P: DynFromInto<W>, W>(p: P, w: W, b: P::Boxed, q: Result<(P, W), P::Boxed>)
    requires
        boxes(p, w, b),
        unboxes(b, q),
    ensures
        q == Ok::<(P, W), P::Boxed>((p, w)),
{
}

/// Converts a boxed message for sending: the protocol and `with` value it holds, or the box
/// itself, refused as `NotAccepted`.
pub fn unboxed_for_send<P: DynFromInto<W>, W>(msg: P::Boxed) -> (r: Result<(P, W), DynSendError<P::Boxed>>)
    ensures
        r matches Err(e) ==> e == DynSendError::NotAccepted(msg),
        exists|c: Result<(P, W), P::Boxed>|
            #![trigger unboxes::<P, W>(msg, c)]
            unboxes::<P, W>(msg, c) && match c {
                Ok(pw) => r == Ok::<(P, W), DynSendError<P::Boxed>>(pw),
                Err(b) => r == Err::<(P, W), DynSendError<P::Boxed>>(DynSendError::NotAccepted(b)),
            },
{
    let ghost boxed = msg;
    let converted = P::try_from_boxed_msg(msg);
    assert(unboxes::<P, W>(boxed, converted));
    match converted {
        Ok(pw) => Ok(pw),
        Err(b) => Err(DynSendError::NotAccepted(b)),
    }
}

/// Turns the result of sending a protocol into the result of a dynamic send: a protocol that
/// could not be sent is boxed again, with its `with` value, as `Closed`.
pub fn boxed_send_result<P: DynFromInto<W>, W>(s: Result<(), SendError<(P, W)>>) -> (r: Result<
    (),
    DynSendError<P::Boxed>,
>)
    ensures
        (r is Ok) == (s is Ok),
        match (s, r) {
            (Err(SendError((p, w))), Err(e)) => e is Closed && boxes(p, w, e.payload()),
            _ => true,
        },
{
    match s {
        Ok(()) => Ok(()),
        Err(SendError((p, w))) => Err(DynSendError::Closed(p.into_boxed_msg(w))),
    }
}

/// Turns the result of trying to send a protocol into the result of a dynamic try-send: a
/// protocol that could not be sent is boxed again, with its `with` value, keeping the kind of
/// error.
pub fn boxed_try_send_result<P: DynFromInto<W>, W>(s: Result<(), TrySendError<(P, W)>>) -> (r:
    Result<(), DynSendNowError<P::Boxed>>)
    ensures
        (r is Ok) == (s is Ok),
        match (s, r) {
            (Err(TrySendError::Closed((p, w))), Err(e)) => e is Closed && boxes(p, w, e.payload()),
            (Err(TrySendError::Full((p, w))), Err(e)) => e is Full && boxes(p, w, e.payload()),
            _ => true,
        },
{
    match s {
        Ok(()) => Ok(()),
        Err(TrySendError::Closed((p, w))) => Err(DynSendNowError::Closed(p.into_boxed_msg(w))),
        Err(TrySendError::Full((p, w))) => Err(DynSendNowError::Full(p.into_boxed_msg(w))),
    }
}

/// Sends a boxed message to `this`, blocking until there is space.
///
/// A box that the protocol does not accept is handed back as `NotAccepted`; otherwise the
/// converted protocol is sent, and the outcome is that of the send.
pub fn dyn_send_boxed_msg_blocking_with<T>(
    this: &T,
    msg: <T::Protocol as DynFromInto<T::With>>::Boxed,
) -> (r: Result<(), DynSendError<<T::Protocol as DynFromInto<T::With>>::Boxed>>) where
    T: IsStaticSender,
    T::Protocol: DynFromInto<T::With>,

    ensures
        r matches Err(DynSendError::NotAccepted(b)) ==> b == msg,
        exists|c: Result<(T::Protocol, T::With), <T::Protocol as DynFromInto<T::With>>::Boxed>|
            #![trigger unboxes::<T::Protocol, T::With>(msg, c)]
            unboxes::<T::Protocol, T::With>(msg, c) && match c {
                Err(b) => r == Err::<(), _>(DynSendError::NotAccepted(b)),
                Ok((p, w)) => sent_boxed(this, p, w, r),
            },
{
    let ghost boxed = msg;
    let converted = <T::Protocol as DynFromInto<T::With>>::try_from_boxed_msg(msg);
    assert(unboxes::<T::Protocol, T::With>(boxed, converted));
    match converted {
        Err(b) => Err(DynSendError::NotAccepted(b)),
        Ok((p, w)) => {
            let ghost (pp, ww) = (p, w);
            let s = T::send_protocol_blocking_with(this, p, w);
            let r = boxed_send_result(s);
            assert(sent_boxed(this, pp, ww, r));
            r
        },
    }
}

/// `r` is the outcome of sending `p` with `w` to `this`, blocking, with a failed protocol boxed
/// again: never `NotAccepted`, `Ok` exactly when the send succeeded.
pub open spec fn sent_boxed<T>(
    this: &T,
    p: T::Protocol,
    w: T::With,
    r: Result<(), DynSendError<<T::Protocol as DynFromInto<T::With>>::Boxed>>,
) -> bool where T: IsStaticSender, T::Protocol: DynFromInto<T::With> {
    exists|s: Result<(), SendError<(T::Protocol, T::With)>>|
        #[trigger] call_ensures(T::send_protocol_blocking_with, (this, p, w), s)
            && (r is Ok) == (s is Ok)
            && match (s, r) {
                (Err(SendError((p2, w2))), Err(e)) => e is Closed && boxes(p2, w2, e.payload()),
                _ => true,
            }
}

/// `r` is the outcome of trying to send `p` with `w` to `this`, with a failed protocol boxed
/// again: never `NotAccepted`, `Ok` exactly when the send succeeded, and of the same kind of
/// error otherwise.
pub open spec fn tried_boxed<T>(
    this: &T,
    p: T::Protocol,
    w: T::With,
    r: Result<(), DynSendNowError<<T::Protocol as DynFromInto<T::With>>::Boxed>>,
) -> bool where T: IsStaticSender, T::Protocol: DynFromInto<T::With> {
    exists|s: Result<(), TrySendError<(T::Protocol, T::With)>>|
        #[trigger] call_ensures(T::try_send_protocol_with, (this, p, w), s)
            && (r is Ok) == (s is Ok)
            && match (s, r) {
                (Err(TrySendError::Closed((p2, w2))), Err(e)) => e is Closed && boxes(p2, w2, e.payload()),
                (Err(TrySendError::Full((p2, w2))), Err(e)) => e is Full && boxes(p2, w2, e.payload()),
                _ => true,
            }
}

/// Sends a boxed message to `this` if there is space now.
///
/// A box that the protocol does not accept is handed back as `NotAccepted`; otherwise the
/// converted protocol is tried, and the outcome is that of the try, of the same kind.
pub fn dyn_try_send_boxed_msg_with<T>(
    this: &T,
    msg: <T::Protocol as DynFromInto<T::With>>::Boxed,
) -> (r: Result<(), DynSendNowError<<T::Protocol as DynFromInto<T::With>>::Boxed>>) where
    T: IsStaticSender,
    T::Protocol: DynFromInto<T::With>,

    ensures
        r matches Err(DynSendNowError::NotAccepted(b)) ==> b == msg,
        exists|c: Result<(T::Protocol, T::With), <T::Protocol as DynFromInto<T::With>>::Boxed>|
            #![trigger unboxes::<T::Protocol, T::With>(msg, c)]
            unboxes::<T::Protocol, T::With>(msg, c) && match c {
                Err(b) => r == Err::<(), _>(DynSendNowError::NotAccepted(b)),
                Ok((p, w)) => tried_boxed(this, p, w, r),
            },
{
    let ghost boxed = msg;
    let converted = <T::Protocol as DynFromInto<T::With>>::try_from_boxed_msg(msg);
    assert(unboxes::<T::Protocol, T::With>(boxed, converted));
    match converted {
        Err(b) => Err(DynSendNowError::NotAccepted(b)),
        Ok((p, w)) => {
            let ghost (pp, ww) = (p, w);
            let s = T::try_send_protocol_with(this, p, w);
            let r = boxed_try_send_result(s);
            assert(tried_boxed(this, pp, ww, r));
            r
        },
    }
}

/// Turns the result of a dynamic send of a message that the sender's set of messages contains
/// into the result of a static send. Such a message is never refused as `NotAccepted`.
pub fn accepted_send_result<M, W>(r: Result<(), DynSendError<(M, W)>>) -> (o: Result<
    (),
    SendError<(M, W)>,
>)
    requires
        !(r matches Err(DynSendError::NotAccepted(_))),
    ensures
        match r {
            Ok(()) => o == Ok::<(), SendError<(M, W)>>(()),
            Err(e) => o == Err::<(), SendError<(M, W)>>(SendError(e.payload())),
        },
{
    match r {
        Ok(()) => Ok(()),
        Err(DynSendError::Closed(x)) => Err(SendError(x)),
        Err(DynSendError::NotAccepted(_)) => vstd::pervasive::unreached(),
    }
}

/// Turns the result of a dynamic try-send of a message that the sender's set of messages
/// contains into the result of a static try-send, keeping the kind of error. Such a message is
/// never refused as `NotAccepted`.
pub fn accepted_try_send_result<M, W>(r: Result<(), DynSendNowError<(M, W)>>) -> (o: Result<
    (),
    TrySendError<(M, W)>,
>)
    requires
        !(r matches Err(DynSendNowError::NotAccepted(_))),
    ensures
        match r {
            Ok(()) => o == Ok::<(), TrySendError<(M, W)>>(()),
            Err(DynSendNowError::Closed(x)) => o == Err::<(), TrySendError<(M, W)>>(TrySendError::Closed(x)),
            Err(DynSendNowError::Full(x)) => o == Err::<(), TrySendError<(M, W)>>(TrySendError::Full(x)),
            Err(DynSendNowError::NotAccepted(_)) => false,
        },
{
    match r {
        Ok(()) => Ok(()),
        Err(DynSendNowError::Closed(x)) => Err(TrySendError::Closed(x)),
        Err(DynSendNowError::Full(x)) => Err(TrySendError::Full(x)),
        Err(DynSendNowError::NotAccepted(_)) => vstd::pervasive::unreached(),
    }
}

} // verus!
