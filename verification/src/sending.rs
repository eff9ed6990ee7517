//! The sender traits.
//!
//! A sender implements [`IsSender`], and [`IsStaticSender`] to define how its protocol is sent.
//! [`Sends<M>`] is then implemented for every message `M` that the protocol accepts, and
//! [`IsSenderExt`] provides the send methods.
//!
//! Every send method that fails hands the message it was given back in its error.
use crate::errors::{SendError, TrySendError};
use crate::message::{Message, Protocol};
use crate::send_futures::{SendFut, SendMsgFut};
use crate::sender_wrappers::{MappedWithSender, WithValueSender};
use vstd::prelude::*;

verus! {

/// Trait that must be implemented by all senders.
#[allow(clippy::len_without_is_empty)]
pub trait IsSender {
    /// The value that must be passed along when sending a message.
    type With;

    /// Returns `true` if the channel is closed.
    fn is_closed(&self) -> bool;

    /// Returns the capacity of the channel, if it is bounded.
    fn capacity(&self) -> Option<usize>;

    /// Returns the number of messages in the channel.
    fn len(&self) -> usize;

    /// Returns the number of receivers in the channel.
    fn receiver_count(&self) -> usize;

    /// Returns the number of senders in the channel.
    fn sender_count(&self) -> usize;
}

/// A supertrait of [`IsSender`], that defines how a protocol is sent to the sender.
///
/// When this trait is implemented, [`Sends<M>`] is implemented as well for every `M` for which
/// the protocol implements [`Protocol<M>`].
///
/// An implementation hands the protocol value back in its error when a send fails.
pub trait IsStaticSender: IsSender {
    /// The protocol that can be sent to this sender.
    type Protocol;

    /// Sends the protocol, failing if the channel is full or closed.
    fn try_send_protocol_with(
        this: &Self,
        protocol: Self::Protocol,
        with: Self::With,
    ) -> (r: Result<(), TrySendError<(Self::Protocol, Self::With)>>)
        ensures
            r matches Err(e) ==> e.payload().0 == protocol,
    ;

    /// Sends the protocol, blocking the current thread until there is space, failing if the
    /// channel is closed.
    fn send_protocol_blocking_with(
        this: &Self,
        protocol: Self::Protocol,
        with: Self::With,
    ) -> (r: Result<(), SendError<(Self::Protocol, Self::With)>>)
        ensures
            r matches Err(e) ==> e.0.0 == protocol,
    ;
}

/// Defines when a message `M` can be sent to the sender.
///
/// Implemented for every [`IsStaticSender`] whose protocol accepts `M`.
pub trait Sends<M>: IsSender {
    /// Sends the message, blocking the current thread until there is space.
    fn send_msg_blocking_with(this: &Self, msg: M, with: Self::With) -> (r: Result<
        (),
        SendError<(M, Self::With)>,
    >)
        ensures
            r matches Err(e) ==> e.0.0 == msg,
    ;

    /// Sends the message, failing if there is no space now.
    fn try_send_msg_with(this: &Self, msg: M, with: Self::With) -> (r: Result<
        (),
        TrySendError<(M, Self::With)>,
    >)
        ensures
            r matches Err(e) ==> e.payload().0 == msg,
    ;
}

impl<M, T> Sends<M> for T where T: IsStaticSender, T::Protocol: Protocol<M> {
    /// Converts the message into the protocol and sends that.
    fn send_msg_blocking_with(this: &Self, msg: M, with: Self::With) -> (r: Result<
        (),
        SendError<(M, Self::With)>,
    >)
        ensures
            exists|p: T::Protocol, s: Result<(), SendError<(T::Protocol, T::With)>>|
                #![trigger call_ensures(<T::Protocol as Protocol<M>>::from_msg, (msg,), p), call_ensures(T::send_protocol_blocking_with, (this, p, with), s)]
                call_ensures(<T::Protocol as Protocol<M>>::from_msg, (msg,), p)
                    && call_ensures(T::send_protocol_blocking_with, (this, p, with), s)
                    && crate::errors::same_outcome(r, s)
                    && (r matches Err(e) ==> s matches Err(x) && e.0.1 == x.0.1),
    {
        let protocol = <T::Protocol as Protocol<M>>::from_msg(msg);
        match T::send_protocol_blocking_with(this, protocol, with) {
            Ok(()) => Ok(()),
            Err(SendError((protocol, with))) => match protocol.try_into_msg() {
                Ok(msg) => Err(SendError((msg, with))),
                Err(_) => vstd::pervasive::unreached(),
            },
        }
    }

    /// Converts the message into the protocol and tries to send that.
    fn try_send_msg_with(this: &Self, msg: M, with: Self::With) -> (r: Result<
        (),
        TrySendError<(M, Self::With)>,
    >)
        ensures
            exists|p: T::Protocol, s: Result<(), TrySendError<(T::Protocol, T::With)>>|
                #![trigger call_ensures(<T::Protocol as Protocol<M>>::from_msg, (msg,), p), call_ensures(T::try_send_protocol_with, (this, p, with), s)]
                call_ensures(<T::Protocol as Protocol<M>>::from_msg, (msg,), p)
                    && call_ensures(T::try_send_protocol_with, (this, p, with), s)
                    && crate::errors::same_try_outcome(r, s)
                    && (r matches Err(e) ==> s matches Err(x) && e.payload().1 == x.payload().1),
    {
        let protocol = <T::Protocol as Protocol<M>>::from_msg(msg);
        match T::try_send_protocol_with(this, protocol, with) {
            Ok(()) => Ok(()),
            Err(TrySendError::Closed((protocol, with))) => match protocol.try_into_msg() {
                Ok(msg) => Err(TrySendError::Closed((msg, with))),
                Err(_) => vstd::pervasive::unreached(),
            },
            Err(TrySendError::Full((protocol, with))) => match protocol.try_into_msg() {
                Ok(msg) => Err(TrySendError::Full((msg, with))),
                Err(_) => vstd::pervasive::unreached(),
            },
        }
    }
}

/// Turns the result of sending a protocol that was made from a message `M` into the result of
/// sending that message: a protocol that could not be sent is converted back into the message.
/// Gives `None` where the protocol that came back holds no `M`.
pub fn message_send_result<P: Protocol<M>, M, W>(s: Result<(), SendError<(P, W)>>) -> (r: Option<
    Result<(), SendError<(M, W)>>,
>)
    ensures
        match s {
            Ok(()) => r == Some(Ok::<(), SendError<(M, W)>>(())),
            Err(SendError((p, w))) => match p.as_msg() {
                Some(m) => r == Some(Err::<(), SendError<(M, W)>>(SendError((m, w)))),
                None => r is None,
            },
        },
{
    match s {
        Ok(()) => Some(Ok(())),
        Err(SendError((p, w))) => match p.try_into_msg() {
            Ok(m) => Some(Err(SendError((m, w)))),
            Err(_) => None,
        },
    }
}

/// Extension methods for [`IsSender`].
pub trait IsSenderExt: IsSender + Sized {
    /// Map the `with` value of the sender to `()`, by providing the `with` value to use.
    fn with(self, with: Self::With) -> (r: WithValueSender<Self>)
        ensures
            r.sender() == self,
            r.with_value() == with,
    {
        WithValueSender::new(self, with)
    }

    /// Map the `with` value of the sender to `W`, by providing conversion functions.
    fn map_with<W, F1, F2>(self, f1: F1, f2: F2) -> (r: MappedWithSender<Self, W, F1, F2>) where
        F1: Fn(W) -> Self::With,
        F2: Fn(Self::With) -> W,

        requires
            forall|w: W| f1.requires((w,)),
            forall|x: Self::With| f2.requires((x,)),
        ensures
            r.sender() == self,
            r.to_inner() == f1,
            r.from_inner() == f2,
    {
        MappedWithSender::new(self, f1, f2)
    }

    /// Start sending a message created from `msg`.
    fn send<M: Message>(&self, msg: impl Into<M::Input>) -> (r: SendFut<'_, Self, M>)
        ensures
            r.target() == self,
            crate::send_futures::converts(msg, r.input()),
    {
        SendFut::new(self, msg.into())
    }

    /// Start sending the message `msg`.
    fn send_msg<M>(&self, msg: M) -> (r: SendMsgFut<'_, Self, M>)
        ensures
            r.target() == self,
            r.message() == msg,
    {
        SendMsgFut::new(self, msg)
    }
}

impl<T> IsSenderExt for T where T: IsSender + Sized {}

/// Extension methods that send by blocking the current thread until there is space, or by
/// trying once.
///
/// Every failed send hands back exactly the message, or the input, that it was given.
pub trait SendsExt: IsSender {
    /// Sends the message with the default value, blocking until there is space.
    fn send_msg_blocking<M: Message>(&self, msg: M) -> (r: Result<(), SendError<M>>) where
        Self: Sends<M>,
        Self::With: Default,

        ensures
            r matches Err(e) ==> e.0 == msg,
            exists|d: Self::With, s: Result<(), SendError<(M, Self::With)>>|
                crate::send_futures::is_default(d)
                    && #[trigger] crate::send_futures::sends_blocking(self, msg, d, s)
                    && crate::errors::same_outcome(r, s),
    {
        let d = Self::With::default();
        let ghost (dd, mm) = (d, msg);
        let res = <Self as Sends<M>>::send_msg_blocking_with(self, msg, d);
        assert(crate::send_futures::is_default(dd));
        assert(crate::send_futures::sends_blocking(self, mm, dd, res));
        match res {
            Ok(()) => Ok(()),
            Err(SendError((msg, _))) => Err(SendError(msg)),
        }
    }

    /// Sends the message with the default value if there is space now.
    fn try_send_msg<M: Message>(&self, msg: M) -> (r: Result<(), TrySendError<M>>) where
        Self: Sends<M>,
        Self::With: Default,

        ensures
            r matches Err(e) ==> e.payload() == msg,
            exists|d: Self::With, s: Result<(), TrySendError<(M, Self::With)>>|
                crate::send_futures::is_default(d)
                    && #[trigger] crate::send_futures::sends_now(self, msg, d, s)
                    && crate::errors::same_try_outcome(r, s),
    {
        let d = Self::With::default();
        let ghost (dd, mm) = (d, msg);
        let res = <Self as Sends<M>>::try_send_msg_with(self, msg, d);
        assert(crate::send_futures::is_default(dd));
        assert(crate::send_futures::sends_now(self, mm, dd, res));
        match res {
            Ok(()) => Ok(()),
            Err(TrySendError::Closed((msg, _))) => Err(TrySendError::Closed(msg)),
            Err(TrySendError::Full((msg, _))) => Err(TrySendError::Full(msg)),
        }
    }

    /// Creates a message from `msg` and sends it with the given value, blocking until there is
    /// space. A failed send cancels the message and hands the input back.
    fn send_blocking_with<M: Message>(&self, msg: impl Into<M::Input>, with: Self::With) -> (r:
        Result<M::Output, SendError<(M::Input, Self::With)>>) where Self: Sends<M>
        ensures
            exists|input: M::Input, m: M, o: M::Output, s: Result<(), SendError<(M, Self::With)>>|
                #![trigger crate::send_futures::creates::<M>(input, m, o), crate::send_futures::sends_blocking(self, m, with, s)]
                crate::send_futures::converts(msg, input)
                    && crate::send_futures::creates::<M>(input, m, o)
                    && crate::send_futures::sends_blocking(self, m, with, s)
                    && crate::errors::same_outcome(r, s)
                    && (r matches Err(e) ==> s matches Err(x) && e.0.1 == x.0.1)
                    && (r matches Ok(out) ==> out == o)
                    && (r matches Err(e) ==> e.0.0 == input),
    {
        let ghost original = msg;
        let input = msg.into();
        let (m, output) = M::create(input);
        let ghost (ii, mm, oo, ww) = (input, m, output, with);
        let res = <Self as Sends<M>>::send_msg_blocking_with(self, m, with);
        assert(crate::send_futures::converts(original, ii));
        assert(crate::send_futures::creates::<M>(ii, mm, oo));
        assert(crate::send_futures::sends_blocking(self, mm, ww, res));
        match res {
            Ok(()) => Ok(output),
            Err(SendError((m, with))) => Err(SendError((m.cancel(output), with))),
        }
    }

    /// Creates a message from `msg` and sends it with the given value if there is space now. A
    /// failed send cancels the message and hands the input back.
    fn try_send_with<M: Message>(&self, msg: impl Into<M::Input>, with: Self::With) -> (r: Result<
        M::Output,
        TrySendError<(M::Input, Self::With)>,
    >) where Self: Sends<M>
        ensures
            exists|input: M::Input, m: M, o: M::Output, s: Result<(), TrySendError<(M, Self::With)>>|
                #![trigger crate::send_futures::creates::<M>(input, m, o), crate::send_futures::sends_now(self, m, with, s)]
                crate::send_futures::converts(msg, input)
                    && crate::send_futures::creates::<M>(input, m, o)
                    && crate::send_futures::sends_now(self, m, with, s)
                    && crate::errors::same_try_outcome(r, s)
                    && (r matches Err(e) ==> s matches Err(x) && e.payload().1 == x.payload().1)
                    && (r matches Ok(out) ==> out == o)
                    && (r matches Err(e) ==> e.payload().0 == input),
    {
        let ghost original = msg;
        let input = msg.into();
        let (m, output) = M::create(input);
        let ghost (ii, mm, oo, ww) = (input, m, output, with);
        let res = <Self as Sends<M>>::try_send_msg_with(self, m, with);
        assert(crate::send_futures::converts(original, ii));
        assert(crate::send_futures::creates::<M>(ii, mm, oo));
        assert(crate::send_futures::sends_now(self, mm, ww, res));
        match res {
            Ok(()) => Ok(output),
            Err(TrySendError::Closed((m, with))) => Err(TrySendError::Closed((m.cancel(output), with))),
            Err(TrySendError::Full((m, with))) => Err(TrySendError::Full((m.cancel(output), with))),
        }
    }

    /// Creates a message from `msg` and sends it with the default value, blocking until there is
    /// space. A failed send cancels the message and hands the input back.
    fn send_blocking<M: Message>(&self, msg: impl Into<M::Input>) -> (r: Result<
        M::Output,
        SendError<M::Input>,
    >) where Self: Sends<M>, Self::With: Default
        ensures
            exists|d: Self::With, input: M::Input, m: M, o: M::Output, s: Result<(), SendError<(M, Self::With)>>|
                #![trigger crate::send_futures::creates::<M>(input, m, o), crate::send_futures::sends_blocking(self, m, d, s)]
                crate::send_futures::is_default(d)
                    && crate::send_futures::converts(msg, input)
                    && crate::send_futures::creates::<M>(input, m, o)
                    && crate::send_futures::sends_blocking(self, m, d, s)
                    && crate::errors::same_outcome(r, s)
                    && (r matches Ok(out) ==> out == o)
                    && (r matches Err(e) ==> e.0 == input),
    {
        let ghost original = msg;
        let input = msg.into();
        let (m, output) = M::create(input);
        let d = Self::With::default();
        let ghost (ii, mm, oo, dd) = (input, m, output, d);
        let res = <Self as Sends<M>>::send_msg_blocking_with(self, m, d);
        assert(crate::send_futures::is_default(dd));
        assert(crate::send_futures::converts(original, ii));
        assert(crate::send_futures::creates::<M>(ii, mm, oo));
        assert(crate::send_futures::sends_blocking(self, mm, dd, res));
        match res {
            Ok(()) => Ok(output),
            Err(SendError((m, _))) => Err(SendError(m.cancel(output))),
        }
    }

    /// Creates a message from `msg` and sends it with the default value if there is space now.
    /// A failed send cancels the message and hands the input back.
    fn try_send<M: Message>(&self, msg: impl Into<M::Input>) -> (r: Result<
        M::Output,
        TrySendError<M::Input>,
    >) where Self: Sends<M>, Self::With: Default
        ensures
            exists|d: Self::With, input: M::Input, m: M, o: M::Output, s: Result<(), TrySendError<(M, Self::With)>>|
                #![trigger crate::send_futures::creates::<M>(input, m, o), crate::send_futures::sends_now(self, m, d, s)]
                crate::send_futures::is_default(d)
                    && crate::send_futures::converts(msg, input)
                    && crate::send_futures::creates::<M>(input, m, o)
                    && crate::send_futures::sends_now(self, m, d, s)
                    && crate::errors::same_try_outcome(r, s)
                    && (r matches Ok(out) ==> out == o)
                    && (r matches Err(e) ==> e.payload() == input),
    {
        let ghost original = msg;
        let input = msg.into();
        let (m, output) = M::create(input);
        let d = Self::With::default();
        let ghost (ii, mm, oo, dd) = (input, m, output, d);
        let res = <Self as Sends<M>>::try_send_msg_with(self, m, d);
        assert(crate::send_futures::is_default(dd));
        assert(crate::send_futures::converts(original, ii));
        assert(crate::send_futures::creates::<M>(ii, mm, oo));
        assert(crate::send_futures::sends_now(self, mm, dd, res));
        match res {
            Ok(()) => Ok(output),
            Err(TrySendError::Closed((m, _))) => Err(TrySendError::Closed(m.cancel(output))),
            Err(TrySendError::Full((m, _))) => Err(TrySendError::Full(m.cancel(output))),
        }
    }
}

impl<T> SendsExt for T where T: IsSender {}

/// A future that resolves to a [`Result`].
pub trait ResultFuture: core::future::Future<
    Output = Result<<Self as ResultFuture>::Ok, <Self as ResultFuture>::Error>,
> {
    /// The error type of the result.
    type Error;

    /// The success type of the result.
    type Ok;
}

impl<T, O, E> ResultFuture for T where T: core::future::Future<Output = Result<O, E>> {
    type Error = E;
    type Ok = O;
}

/// Blocks the current thread until `fut` resolves, with `futures::executor::block_on`, which
/// panics when the calling thread is already running a `futures` executor (a condition of the
/// thread, not of the argument).
///
/// Nothing is claimed of the result, which the other side of the future decides.
#[verifier::external_body]
pub(crate) fn block_on_result<F: ResultFuture>(fut: F) -> Result<F::Ok, F::Error> {
    futures::executor::block_on(fut)
}

} // verus!
