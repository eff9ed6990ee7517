//! Combinators for sending messages.
//!
//! A send combinator is created with [`IsSenderExt::send`](crate::IsSenderExt::send) or
//! [`IsSenderExt::send_msg`](crate::IsSenderExt::send_msg), which return a [`SendFut`] or a
//! [`SendMsgFut`]. It can then be altered with these modifiers:
//! - `with`: Provides a value to send the message with, instead of using the default.
//! - `recv`: After the message is sent, waits for a reply.
//! - `dynamic`: Sends the message dynamically, checking at runtime for acceptance.
//!
//! Once the combinator is ready, it is executed with:
//! - `wait()`: Blocks the current thread until the message is sent.
//! - `now()`: Attempts to send the message without blocking. (Not available for requests.)
//!
//! When sending fails, the error holds exactly the message or input that was given.
use crate::errors::{DynRequestError, DynSendError, DynSendNowError, RequestError, SendError, TrySendError};
use crate::message::Message;
use crate::sending::{block_on_result, IsSender, ResultFuture, Sends};
use vstd::prelude::*;

verus! {

/// `msg` is a message created from `input`, and `output` the output created with it.
pub open spec fn creates<M: Message>(input: M::Input, msg: M, output: M::Output) -> bool {
    call_ensures(M::create, (input,), (msg, output))
}

/// `to` is a value that converting `from` with `Into` returns.
pub open spec fn converts<I: Into<T>, T>(from: I, to: T) -> bool {
    call_ensures(I::into, (from,), to)
}

/// `q` is what blocking the current thread until the future `fut` resolves can give.
pub closed spec fn resolves_to<F: ResultFuture>(fut: F, q: Result<F::Ok, F::Error>) -> bool {
    call_ensures(block_on_result::<F>, (fut,), q)
}

/// `r` is what a request whose reply is the future `reply` gives once it was sent: the value
/// that the reply resolves to, or `NoReply` with the error that it resolves to.
pub open spec fn replied<F: ResultFuture, X>(reply: F, r: Result<F::Ok, RequestError<X, F::Error>>) -> bool {
    exists|q: Result<F::Ok, F::Error>|
        #[trigger] resolves_to(reply, q) && match q {
            Ok(v) => r == Ok::<F::Ok, RequestError<X, F::Error>>(v),
            Err(e) => r == Err::<F::Ok, RequestError<X, F::Error>>(RequestError::NoReply(e)),
        }
}

/// `w` is a value that `W::default` returns.
pub open spec fn is_default<W: Default>(w: W) -> bool {
    call_ensures(W::default, (), w)
}

/// `s` is a result of sending `msg` with `with` to `sender`, blocking until there is space.
pub open spec fn sends_blocking<S: ?Sized + Sends<M>, M>(
    sender: &S,
    msg: M,
    with: S::With,
    s: Result<(), SendError<(M, S::With)>>,
) -> bool {
    call_ensures(<S as Sends<M>>::send_msg_blocking_with, (sender, msg, with), s)
}

/// `s` is a result of sending `msg` with `with` to `sender` if there is space now.
pub open spec fn sends_now<S: ?Sized + Sends<M>, M>(
    sender: &S,
    msg: M,
    with: S::With,
    s: Result<(), TrySendError<(M, S::With)>>,
) -> bool {
    call_ensures(<S as Sends<M>>::try_send_msg_with, (sender, msg, with), s)
}


/// Sends a message with a given value.
pub struct SendMsgWithFut<'a, S: IsSender, M> {
    inner: SendMsgFut<'a, S, M>,
    with: S::With,
}

impl<'a, S: IsSender, M> SendMsgWithFut<'a, S, M> {
    /// The sender that the message is sent to.
    pub closed spec fn target(&self) -> &'a S {
        self.inner.sender
    }

    /// The message that is sent.
    pub closed spec fn message(&self) -> M {
        self.inner.msg
    }

    /// The value that the message is sent with.
    pub closed spec fn with_value(&self) -> S::With {
        self.with
    }

    /// Returns the sender, message and value.
    pub fn into_inner(self) -> (r: (&'a S, M, S::With))
        ensures
            r == (self.target(), self.message(), self.with_value()),
    {
        let (sender, msg) = self.inner.into_inner();
        (sender, msg, self.with)
    }

    /// Block the current thread until the message is sent.
    pub fn wait(self) -> (r: Result<(), SendError<(M, S::With)>>) where S: Sends<M>
        ensures
            r matches Err(e) ==> e.0.0 == self.message(),
            sends_blocking(self.target(), self.message(), self.with_value(), r),
    {
        <S as Sends<M>>::send_msg_blocking_with(self.inner.sender, self.inner.msg, self.with)
    }

    /// Attempt to send the message without blocking.
    pub fn now(self) -> (r: Result<(), TrySendError<(M, S::With)>>) where S: Sends<M>
        ensures
            r matches Err(e) ==> e.payload().0 == self.message(),
            sends_now(self.target(), self.message(), self.with_value(), r),
    {
        <S as Sends<M>>::try_send_msg_with(self.inner.sender, self.inner.msg, self.with)
    }

    /// Send the message dynamically, checking at runtime for acceptance.
    pub fn dynamic(self) -> (r: DynSendMsgWithFut<'a, S, M>)
        ensures
            r.plain() == self,
    {
        DynSendMsgWithFut(self)
    }
}

/// Sends a message with a default value.
pub struct SendMsgFut<'a, S: IsSender, M> {
    sender: &'a S,
    msg: M,
}

impl<'a, S: IsSender, M> SendMsgFut<'a, S, M> {
    /// The sender that the message is sent to.
    pub closed spec fn target(&self) -> &'a S {
        self.sender
    }

    /// The message that is sent.
    pub closed spec fn message(&self) -> M {
        self.msg
    }

    /// Returns the sender and message.
    pub fn into_inner(self) -> (r: (&'a S, M))
        ensures
            r == (self.target(), self.message()),
    {
        (self.sender, self.msg)
    }

    /// Create a new `SendMsgFut`.
    pub fn new(sender: &'a S, msg: M) -> (r: Self)
        ensures
            r.target() == sender,
            r.message() == msg,
    {
        Self { sender, msg }
    }

    /// Provide a value to send the message with, instead of using the default.
    pub fn with(self, with: S::With) -> (r: SendMsgWithFut<'a, S, M>)
        ensures
            r.target() == self.target(),
            r.message() == self.message(),
            r.with_value() == with,
    {
        SendMsgWithFut { inner: self, with }
    }

    /// Block the current thread until the message is sent.
    pub fn wait(self) -> (r: Result<(), SendError<M>>) where S: Sends<M>, S::With: Default
        ensures
            r matches Err(e) ==> e.0 == self.message(),
            exists|d: S::With, s: Result<(), SendError<(M, S::With)>>|
                is_default(d) && #[trigger] sends_blocking(self.target(), self.message(), d, s)
                    && crate::errors::same_outcome(r, s),
    {
        match self.with(S::With::default()).wait() {
            Ok(()) => Ok(()),
            Err(SendError((msg, _))) => Err(SendError(msg)),
        }
    }

    /// Attempt to send the message without blocking.
    pub fn now(self) -> (r: Result<(), TrySendError<M>>) where S: Sends<M>, S::With: Default
        ensures
            r matches Err(e) ==> e.payload() == self.message(),
            exists|d: S::With, s: Result<(), TrySendError<(M, S::With)>>|
                is_default(d) && #[trigger] sends_now(self.target(), self.message(), d, s)
                    && crate::errors::same_try_outcome(r, s),
    {
        match self.with(S::With::default()).now() {
            Ok(()) => Ok(()),
            Err(TrySendError::Closed((msg, _))) => Err(TrySendError::Closed(msg)),
            Err(TrySendError::Full((msg, _))) => Err(TrySendError::Full(msg)),
        }
    }

    /// Send the message dynamically, checking at runtime for acceptance.
    pub fn dynamic(self) -> (r: DynSendMsgFut<'a, S, M>)
        ensures
            r.plain() == self,
    {
        DynSendMsgFut(self)
    }
}

/// Sends a message created from an input, with a given value.
pub struct SendWithFut<'a, S: IsSender, M: Message> {
    inner: SendFut<'a, S, M>,
    with: S::With,
}

impl<'a, S: IsSender, M: Message> SendWithFut<'a, S, M> {
    /// The sender that the message is sent to.
    pub closed spec fn target(&self) -> &'a S {
        self.inner.sender
    }

    /// The input that the message is created from.
    pub closed spec fn input(&self) -> M::Input {
        self.inner.input
    }

    /// The value that the message is sent with.
    pub closed spec fn with_value(&self) -> S::With {
        self.with
    }

    /// Returns the sender, input and value.
    pub fn into_inner(self) -> (r: (&'a S, M::Input, S::With))
        ensures
            r == (self.target(), self.input(), self.with_value()),
    {
        let (sender, input) = self.inner.into_inner();
        (sender, input, self.with)
    }

    /// Creates the message from the input, returning the combinator that sends it and the
    /// output of the message.
    pub fn with_msg(self) -> (r: (SendMsgWithFut<'a, S, M>, M::Output))
        ensures
            r.0.target() == self.target(),
            r.0.message().input() == self.input(),
            r.0.with_value() == self.with_value(),
            creates::<M>(self.input(), r.0.message(), r.1),
    {
        let (msg, output) = M::create(self.inner.input);
        let combinator = SendMsgWithFut {
            inner: SendMsgFut { sender: self.inner.sender, msg },
            with: self.with,
        };
        (combinator, output)
    }

    /// Block the current thread until the message is sent.
    pub fn wait(self) -> (r: Result<M::Output, SendError<(M::Input, S::With)>>) where S: Sends<M>
        ensures
            r matches Err(e) ==> e.0.0 == self.input(),
            exists|m: M, o: M::Output, s: Result<(), SendError<(M, S::With)>>|
                #![trigger creates::<M>(self.input(), m, o), sends_blocking(self.target(), m, self.with_value(), s)]
                creates::<M>(self.input(), m, o) && sends_blocking(self.target(), m, self.with_value(), s)
                    && crate::errors::same_outcome(r, s) && (r matches Ok(out) ==> out == o)
                    && (r matches Err(e) ==> s matches Err(x) && e.0.1 == x.0.1),
    {
        let (combinator, output) = self.with_msg();
        match combinator.wait() {
            Ok(()) => Ok(output),
            Err(SendError((msg, with))) => Err(SendError((msg.cancel(output), with))),
        }
    }

    /// Attempt to send the message without blocking.
    pub fn now(self) -> (r: Result<M::Output, TrySendError<(M::Input, S::With)>>) where
        S: Sends<M>,

        ensures
            r matches Err(e) ==> e.payload().0 == self.input(),
            exists|m: M, o: M::Output, s: Result<(), TrySendError<(M, S::With)>>|
                #![trigger creates::<M>(self.input(), m, o), sends_now(self.target(), m, self.with_value(), s)]
                creates::<M>(self.input(), m, o) && sends_now(self.target(), m, self.with_value(), s)
                    && crate::errors::same_try_outcome(r, s) && (r matches Ok(out) ==> out == o)
                    && (r matches Err(e) ==> s matches Err(x) && e.payload().1 == x.payload().1),
    {
        let (combinator, output) = self.with_msg();
        match combinator.now() {
            Ok(()) => Ok(output),
            Err(TrySendError::Closed((msg, with))) => Err(
                TrySendError::Closed((msg.cancel(output), with)),
            ),
            Err(TrySendError::Full((msg, with))) => Err(
                TrySendError::Full((msg.cancel(output), with)),
            ),
        }
    }

    /// After the message is sent, wait for a reply.
    pub fn recv(self) -> (r: RequestWithFut<'a, S, M>)
        ensures
            r.plain() == self,
    {
        RequestWithFut(self)
    }

    /// Send the message dynamically, checking at runtime for acceptance.
    pub fn dynamic(self) -> (r: DynSendWithFut<'a, S, M>)
        ensures
            r.plain() == self,
    {
        DynSendWithFut(self)
    }
}

/// Sends a message created from an input, with a default value.
pub struct SendFut<'a, S: IsSender, M: Message> {
    sender: &'a S,
    input: M::Input,
}

impl<'a, S: IsSender, M: Message> SendFut<'a, S, M> {
    /// The sender that the message is sent to.
    pub closed spec fn target(&self) -> &'a S {
        self.sender
    }

    /// The input that the message is created from.
    pub closed spec fn input(&self) -> M::Input {
        self.input
    }

    /// Returns the sender and input.
    pub fn into_inner(self) -> (r: (&'a S, M::Input))
        ensures
            r == (self.target(), self.input()),
    {
        (self.sender, self.input)
    }

    /// Create a new `SendFut`.
    pub fn new(sender: &'a S, input: M::Input) -> (r: Self)
        ensures
            r.target() == sender,
            r.input() == input,
    {
        Self { sender, input }
    }

    /// Provide a value to send the message with, instead of using the default.
    pub fn with(self, with: S::With) -> (r: SendWithFut<'a, S, M>)
        ensures
            r.target() == self.target(),
            r.input() == self.input(),
            r.with_value() == with,
    {
        SendWithFut { inner: self, with }
    }

    /// Block the current thread until the message is sent.
    pub fn wait(self) -> (r: Result<M::Output, SendError<M::Input>>) where
        S: Sends<M>,
        S::With: Default,

        ensures
            r matches Err(e) ==> e.0 == self.input(),
            exists|d: S::With, m: M, o: M::Output, s: Result<(), SendError<(M, S::With)>>|
                #![trigger creates::<M>(self.input(), m, o), sends_blocking(self.target(), m, d, s)]
                is_default(d) && creates::<M>(self.input(), m, o)
                    && sends_blocking(self.target(), m, d, s) && crate::errors::same_outcome(r, s)
                    && (r matches Ok(out) ==> out == o),
    {
        match self.with(S::With::default()).wait() {
            Ok(output) => Ok(output),
            Err(SendError((input, _))) => Err(SendError(input)),
        }
    }

    /// Attempt to send the message without blocking.
    pub fn now(self) -> (r: Result<M::Output, TrySendError<M::Input>>) where
        S: Sends<M>,
        S::With: Default,

        ensures
            r matches Err(e) ==> e.payload() == self.input(),
            exists|d: S::With, m: M, o: M::Output, s: Result<(), TrySendError<(M, S::With)>>|
                #![trigger creates::<M>(self.input(), m, o), sends_now(self.target(), m, d, s)]
                is_default(d) && creates::<M>(self.input(), m, o)
                    && sends_now(self.target(), m, d, s) && crate::errors::same_try_outcome(r, s)
                    && (r matches Ok(out) ==> out == o),
    {
        match self.with(S::With::default()).now() {
            Ok(output) => Ok(output),
            Err(TrySendError::Closed((input, _))) => Err(TrySendError::Closed(input)),
            Err(TrySendError::Full((input, _))) => Err(TrySendError::Full(input)),
        }
    }

    /// After the message is sent, wait for a reply.
    pub fn recv(self) -> (r: RequestFut<'a, S, M>)
        ensures
            r.plain() == self,
    {
        RequestFut(self)
    }

    /// Send the message dynamically, checking at runtime for acceptance.
    pub fn dynamic(self) -> (r: DynSendFut<'a, S, M>)
        ensures
            r.plain() == self,
    {
        DynSendFut(self)
    }
}

/// Sends a message with a given value, and waits for a reply.
pub struct RequestWithFut<'a, S: IsSender, M: Message>(SendWithFut<'a, S, M>);

impl<'a, S: IsSender, M: Message> RequestWithFut<'a, S, M> {
    /// The combinator that sends the request.
    pub closed spec fn plain(&self) -> SendWithFut<'a, S, M> {
        self.0
    }

    /// Returns the sender, input and value.
    pub fn into_inner(self) -> (r: (&'a S, M::Input, S::With))
        ensures
            r == (self.plain().target(), self.plain().input(), self.plain().with_value()),
    {
        self.0.into_inner()
    }

    /// Block the current thread until the message is sent and the reply is received.
    pub fn wait(self) -> (r: Result<
        <M::Output as ResultFuture>::Ok,
        RequestError<(M::Input, S::With), <M::Output as ResultFuture>::Error>,
    >) where S: Sends<M>, M::Output: ResultFuture
        ensures
            r matches Err(RequestError::Full(e)) ==> e.0 == self.plain().input(),
            exists|m: M, o: M::Output, s: Result<(), SendError<(M, S::With)>>|
                #![trigger creates::<M>(self.plain().input(), m, o), sends_blocking(self.plain().target(), m, self.plain().with_value(), s)]
                creates::<M>(self.plain().input(), m, o)
                    && sends_blocking(self.plain().target(), m, self.plain().with_value(), s)
                    && (s is Err <==> r matches Err(RequestError::Full(_)))
                    && (r matches Err(RequestError::Full(e)) ==> s matches Err(x) && e.1 == x.0.1)
                    && (s is Ok ==> replied(o, r)),
    {
        assert(self.plain() == self.0);
        match self.0.wait() {
            Ok(reply) => {
                let ghost sent_reply = reply;
                let q = block_on_result(reply);
                assert(resolves_to(sent_reply, q));
                match q {
                    Ok(val) => Ok(val),
                    Err(e) => Err(RequestError::NoReply(e)),
                }
            },
            Err(SendError(unsent)) => Err(RequestError::Full(unsent)),
        }
    }

    /// Send the message dynamically, checking at runtime for acceptance.
    pub fn dynamic(self) -> (r: DynRequestWithFut<'a, S, M>)
        ensures
            r.plain().plain() == self.plain(),
    {
        DynRequestWithFut(DynSendWithFut(self.0))
    }
}

/// Sends a message with a default value, and waits for a reply.
pub struct RequestFut<'a, S: IsSender, M: Message>(SendFut<'a, S, M>);

impl<'a, S: IsSender, M: Message> RequestFut<'a, S, M> {
    /// The combinator that sends the request.
    pub closed spec fn plain(&self) -> SendFut<'a, S, M> {
        self.0
    }

    /// Returns the sender and input.
    pub fn into_inner(self) -> (r: (&'a S, M::Input))
        ensures
            r == (self.plain().target(), self.plain().input()),
    {
        self.0.into_inner()
    }

    /// Provide a value to send the message with, instead of using the default.
    pub fn with(self, with: S::With) -> (r: RequestWithFut<'a, S, M>)
        ensures
            r.plain().target() == self.plain().target(),
            r.plain().input() == self.plain().input(),
            r.plain().with_value() == with,
    {
        RequestWithFut(self.0.with(with))
    }

    /// Block the current thread until the message is sent and the reply is received.
    pub fn wait(self) -> (r: Result<
        <M::Output as ResultFuture>::Ok,
        RequestError<M::Input, <M::Output as ResultFuture>::Error>,
    >) where S: Sends<M>, M::Output: ResultFuture, S::With: Default
        ensures
            r matches Err(RequestError::Full(e)) ==> e == self.plain().input(),
            exists|d: S::With, m: M, o: M::Output, s: Result<(), SendError<(M, S::With)>>|
                #![trigger creates::<M>(self.plain().input(), m, o), sends_blocking(self.plain().target(), m, d, s)]
                is_default(d) && creates::<M>(self.plain().input(), m, o)
                    && sends_blocking(self.plain().target(), m, d, s)
                    && (s is Err <==> r matches Err(RequestError::Full(_)))
                    && (s is Ok ==> replied(o, r)),
    {
        assert(self.plain() == self.0);
        match self.0.wait() {
            Ok(reply) => {
                let ghost sent_reply = reply;
                let q = block_on_result(reply);
                assert(resolves_to(sent_reply, q));
                match q {
                    Ok(val) => Ok(val),
                    Err(e) => Err(RequestError::NoReply(e)),
                }
            },
            Err(SendError(unsent)) => Err(RequestError::Full(unsent)),
        }
    }

    /// Send the message dynamically, checking at runtime for acceptance.
    pub fn dynamic(self) -> (r: DynRequestFut<'a, S, M>)
        ensures
            r.plain().plain() == self.plain(),
    {
        DynRequestFut(DynSendFut(self.0))
    }
}

/// Sends a message with a given value, checking at runtime for acceptance.
pub struct DynSendMsgWithFut<'a, S: IsSender, M>(SendMsgWithFut<'a, S, M>);

impl<'a, S: IsSender, M> DynSendMsgWithFut<'a, S, M> {
    /// The combinator that would send the message statically.
    pub closed spec fn plain(&self) -> SendMsgWithFut<'a, S, M> {
        self.0
    }

    /// Returns the sender, message and value.
    pub fn into_inner(self) -> (r: (&'a S, M, S::With))
        ensures
            r == (self.plain().target(), self.plain().message(), self.plain().with_value()),
    {
        self.0.into_inner()
    }
}

/// Sends a message with a default value, checking at runtime for acceptance.
pub struct DynSendMsgFut<'a, S: IsSender, M>(SendMsgFut<'a, S, M>);

impl<'a, S: IsSender, M> DynSendMsgFut<'a, S, M> {
    /// The combinator that would send the message statically.
    pub closed spec fn plain(&self) -> SendMsgFut<'a, S, M> {
        self.0
    }

    /// Returns the sender and message.
    pub fn into_inner(self) -> (r: (&'a S, M))
        ensures
            r == (self.plain().target(), self.plain().message()),
    {
        self.0.into_inner()
    }

    /// Provide a value to send the message with, instead of using the default.
    pub fn with(self, with: S::With) -> (r: DynSendMsgWithFut<'a, S, M>)
        ensures
            r.plain().target() == self.plain().target(),
            r.plain().message() == self.plain().message(),
            r.plain().with_value() == with,
    {
        DynSendMsgWithFut(SendMsgWithFut { inner: self.0, with })
    }
}

/// Another name for [`DynSendMsgFut`].
pub type SendDynMsgFut<'a, S, M> = DynSendMsgFut<'a, S, M>;

/// Sends a message created from an input, with a given value, checking at runtime for
/// acceptance.
pub struct DynSendWithFut<'a, S: IsSender, M: Message>(SendWithFut<'a, S, M>);

impl<'a, S: IsSender, M: Message> DynSendWithFut<'a, S, M> {
    /// The combinator that would send the message statically.
    pub closed spec fn plain(&self) -> SendWithFut<'a, S, M> {
        self.0
    }

    /// Returns the sender, input and value.
    pub fn into_inner(self) -> (r: (&'a S, M::Input, S::With))
        ensures
            r == (self.plain().target(), self.plain().input(), self.plain().with_value()),
    {
        self.0.into_inner()
    }

    /// Creates the message from the input, returning the combinator that sends it and the
    /// output of the message.
    pub fn with_msg(self) -> (r: (DynSendMsgWithFut<'a, S, M>, M::Output))
        ensures
            r.0.plain().target() == self.plain().target(),
            r.0.plain().message().input() == self.plain().input(),
            r.0.plain().with_value() == self.plain().with_value(),
            creates::<M>(self.plain().input(), r.0.plain().message(), r.1),
    {
        let (send_with_msg, output) = self.0.with_msg();
        (DynSendMsgWithFut(send_with_msg), output)
    }

    /// After the message is sent, wait for a reply.
    pub fn recv(self) -> (r: DynRequestWithFut<'a, S, M>)
        ensures
            r.plain() == self,
    {
        DynRequestWithFut(self)
    }
}

/// Sends a message with a given value, checking at runtime for acceptance, and waits for a
/// reply.
pub struct DynRequestWithFut<'a, S: IsSender, M: Message>(DynSendWithFut<'a, S, M>);

impl<'a, S: IsSender, M: Message> DynRequestWithFut<'a, S, M> {
    /// The combinator that sends the request.
    pub closed spec fn plain(&self) -> DynSendWithFut<'a, S, M> {
        self.0
    }

    /// Returns the sender, input and value.
    pub fn into_inner(self) -> (r: (&'a S, M::Input, S::With))
        ensures
            r == (
                self.plain().plain().target(),
                self.plain().plain().input(),
                self.plain().plain().with_value(),
            ),
    {
        self.0.into_inner()
    }
}

/// Sends a message created from an input, with a default value, checking at runtime for
/// acceptance.
pub struct DynSendFut<'a, S: IsSender, M: Message>(SendFut<'a, S, M>);

impl<'a, S: IsSender, M: Message> DynSendFut<'a, S, M> {
    /// The combinator that would send the message statically.
    pub closed spec fn plain(&self) -> SendFut<'a, S, M> {
        self.0
    }

    /// Returns the sender and input.
    pub fn into_inner(self) -> (r: (&'a S, M::Input))
        ensures
            r == (self.plain().target(), self.plain().input()),
    {
        self.0.into_inner()
    }

    /// Provide a value to send the message with, instead of using the default.
    pub fn with(self, with: S::With) -> (r: DynSendWithFut<'a, S, M>)
        ensures
            r.plain().target() == self.plain().target(),
            r.plain().input() == self.plain().input(),
            r.plain().with_value() == with,
    {
        DynSendWithFut(SendWithFut { inner: self.0, with })
    }

    /// After the message is sent, wait for a reply.
    pub fn recv(self) -> (r: DynRequestFut<'a, S, M>)
        ensures
            r.plain() == self,
    {
        DynRequestFut(self)
    }
}

/// Sends a message with a default value, checking at runtime for acceptance, and waits for a
/// reply.
pub struct DynRequestFut<'a, S: IsSender, M: Message>(DynSendFut<'a, S, M>);

impl<'a, S: IsSender, M: Message> DynRequestFut<'a, S, M> {
    /// The combinator that sends the request.
    pub closed spec fn plain(&self) -> DynSendFut<'a, S, M> {
        self.0
    }

    /// Returns the sender and input.
    pub fn into_inner(self) -> (r: (&'a S, M::Input))
        ensures
            r == (self.plain().plain().target(), self.plain().plain().input()),
    {
        self.0.into_inner()
    }

    /// Provide a value to send the message with, instead of using the default.
    pub fn with(self, with: S::With) -> (r: DynRequestWithFut<'a, S, M>)
        ensures
            r.plain().plain().target() == self.plain().plain().target(),
            r.plain().plain().input() == self.plain().plain().input(),
            r.plain().plain().with_value() == with,
    {
        DynRequestWithFut(self.0.with(with))
    }
}

/// Turns the result of sending a message into the result of sending its input: on success the
/// output created with the message, and on failure the message cancelled back into its input.
pub fn cancelled_send_result<M: Message, W>(s: Result<(), SendError<(M, W)>>, output: M::Output) -> (r:
    Result<M::Output, SendError<(M::Input, W)>>)
    ensures
        match s {
            Ok(()) => r == Ok::<M::Output, SendError<(M::Input, W)>>(output),
            Err(SendError((m, w))) => r == Err::<M::Output, SendError<(M::Input, W)>>(
                SendError((m.input(), w)),
            ),
        },
{
    match s {
        Ok(()) => Ok(output),
        Err(SendError((m, w))) => Err(SendError((m.cancel(output), w))),
    }
}

/// Like [`cancelled_send_result`], for a dynamic send: the kind of error is kept.
pub fn cancelled_dyn_send_result<M: Message, W>(
    s: Result<(), DynSendError<(M, W)>>,
    output: M::Output,
) -> (r: Result<M::Output, DynSendError<(M::Input, W)>>)
    ensures
        match (s, r) {
            (Ok(()), Ok(o)) => o == output,
            (Err(e), Err(e2)) => e.same_kind(e2) && e2.payload() == (e.payload().0.input(), e.payload().1),
            _ => false,
        },
{
    match s {
        Ok(()) => Ok(output),
        Err(DynSendError::NotAccepted((m, w))) => Err(DynSendError::NotAccepted((m.cancel(output), w))),
        Err(DynSendError::Closed((m, w))) => Err(DynSendError::Closed((m.cancel(output), w))),
    }
}

/// Like [`cancelled_send_result`], for a dynamic try-send: the kind of error is kept.
pub fn cancelled_dyn_try_send_result<M: Message, W>(
    s: Result<(), DynSendNowError<(M, W)>>,
    output: M::Output,
) -> (r: Result<M::Output, DynSendNowError<(M::Input, W)>>)
    ensures
        match (s, r) {
            (Ok(()), Ok(o)) => o == output,
            (Err(e), Err(e2)) => e.same_kind(e2) && e2.payload() == (e.payload().0.input(), e.payload().1),
            _ => false,
        },
{
    match s {
        Ok(()) => Ok(output),
        Err(DynSendNowError::NotAccepted((m, w))) => Err(DynSendNowError::NotAccepted((m.cancel(output), w))),
        Err(DynSendNowError::Closed((m, w))) => Err(DynSendNowError::Closed((m.cancel(output), w))),
        Err(DynSendNowError::Full((m, w))) => Err(DynSendNowError::Full((m.cancel(output), w))),
    }
}

/// Turns what the reply of a sent request resolved to into the result of the request.
pub fn reply_result<T, E, X>(q: Result<T, E>) -> (r: Result<T, RequestError<X, E>>)
    ensures
        match q {
            Ok(v) => r == Ok::<T, RequestError<X, E>>(v),
            Err(e) => r == Err::<T, RequestError<X, E>>(RequestError::NoReply(e)),
        },
{
    match q {
        Ok(v) => Ok(v),
        Err(e) => Err(RequestError::NoReply(e)),
    }
}

/// Turns what the reply of a request sent dynamically resolved to into the result of the request.
pub fn dyn_reply_result<T, E, X>(q: Result<T, E>) -> (r: Result<T, DynRequestError<X, E>>)
    ensures
        match q {
            Ok(v) => r == Ok::<T, DynRequestError<X, E>>(v),
            Err(e) => r == Err::<T, DynRequestError<X, E>>(DynRequestError::NoReply(e)),
        },
{
    match q {
        Ok(v) => Ok(v),
        Err(e) => Err(DynRequestError::NoReply(e)),
    }
}

} // verus!
