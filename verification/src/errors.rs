//! Errors returned by the send methods.
//!
//! Every error hands the value that could not be delivered back to the caller, so that
//! nothing is lost when a send fails.
use vstd::prelude::*;
use vstd::std_specs::convert::FromSpecImpl;

verus! {

/// Error that is returned when a channel is closed.
///
/// It holds the value that could not be sent.
#[derive(Debug, Clone, Copy, Hash, PartialEq, Eq)]
pub struct SendError<T>(pub T);

impl<T> SendError<T> {
    /// Returns the value that could not be sent.
    pub fn into_inner(self) -> (r: T)
        ensures
            r == self.0,
    {
        self.0
    }

    /// Applies `fun` to the value that could not be sent.
    pub fn map<T2, F: FnOnce(T) -> T2>(self, fun: F) -> (r: SendError<T2>)
        requires
            fun.requires((self.0,)),
        ensures
            fun.ensures((self.0,), r.0),
    {
        SendError(fun(self.0))
    }
}

/// Error that is returned when a channel is closed or full.
#[derive(Debug, Clone, Copy, Hash, PartialEq, Eq)]
pub enum TrySendError<T> {
    /// The channel is closed.
    Closed(T),
    /// The channel is full.
    Full(T),
}

impl<T> TrySendError<T> {
    /// The value that could not be sent.
    pub open spec fn payload(self) -> T {
        match self {
            TrySendError::Closed(t) => t,
            TrySendError::Full(t) => t,
        }
    }

    /// Returns the value that could not be sent.
    pub fn into_inner(self) -> (r: T)
        ensures
            r == self.payload(),
    {
        match self {
            Self::Closed(t) => t,
            Self::Full(t) => t,
        }
    }

    /// Applies `fun` to the value that could not be sent, keeping the kind of error.
    pub fn map<T2, F: FnOnce(T) -> T2>(self, fun: F) -> (r: TrySendError<T2>)
        requires
            fun.requires((self.payload(),)),
        ensures
            fun.ensures((self.payload(),), r.payload()),
            (r is Closed) == (self is Closed),
            (r is Full) == (self is Full),
    {
        match self {
            Self::Closed(t) => TrySendError::Closed(fun(t)),
            Self::Full(t) => TrySendError::Full(fun(t)),
        }
    }
}

/// Both results succeed, or both fail.
pub open spec fn same_outcome<X, Y, A, B>(r: Result<X, SendError<A>>, s: Result<Y, SendError<B>>) -> bool {
    (r is Ok) == (s is Ok)
}

/// Both results succeed, or both fail with an error of the same kind.
pub open spec fn same_try_outcome<X, Y, A, B>(
    r: Result<X, TrySendError<A>>,
    s: Result<Y, TrySendError<B>>,
) -> bool {
    match (r, s) {
        (Ok(_), Ok(_)) => true,
        (Err(TrySendError::Closed(_)), Err(TrySendError::Closed(_))) => true,
        (Err(TrySendError::Full(_)), Err(TrySendError::Full(_))) => true,
        _ => false,
    }
}

/// Error that is returned when a request could not be sent, or did not receive a reply.
#[derive(Debug, Clone, Copy, Hash, PartialEq, Eq)]
pub enum RequestError<M, E> {
    /// The channel is closed: the message could not be sent.
    Full(M),
    /// The message was sent, but no reply was received.
    NoReply(E),
}

impl<T, E> From<SendError<T>> for RequestError<T, E> {
    fn from(e: SendError<T>) -> (r: Self) {
        Self::Full(e.0)
    }
}

impl<T, E> FromSpecImpl<SendError<T>> for RequestError<T, E> {
    open spec fn obeys_from_spec() -> bool {
        true
    }

    open spec fn from_spec(e: SendError<T>) -> Self {
        RequestError::Full(e.0)
    }
}

/// Error that is returned when a channel is closed, or the message was not accepted.
#[derive(Debug, Clone, Copy, Hash, PartialEq, Eq)]
pub enum DynSendError<T> {
    /// The receiving protocol does not accept the message.
    NotAccepted(T),
    /// The channel is closed.
    Closed(T),
}

impl<T> DynSendError<T> {
    /// The value that could not be sent.
    pub open spec fn payload(self) -> T {
        match self {
            DynSendError::NotAccepted(t) => t,
            DynSendError::Closed(t) => t,
        }
    }

    /// The two errors are of the same kind.
    pub open spec fn same_kind<U>(self, other: DynSendError<U>) -> bool {
        &&& (self is NotAccepted) == (other is NotAccepted)
        &&& (self is Closed) == (other is Closed)
    }

    /// Returns the value that could not be sent.
    pub fn into_inner(self) -> (r: T)
        ensures
            r == self.payload(),
    {
        match self {
            Self::NotAccepted(t) => t,
            Self::Closed(t) => t,
        }
    }

    /// Applies `f` to the value that could not be sent, keeping the kind of error.
    pub fn map<U, F: FnOnce(T) -> U>(self, f: F) -> (r: DynSendError<U>)
        requires
            f.requires((self.payload(),)),
        ensures
            f.ensures((self.payload(),), r.payload()),
            self.same_kind(r),
    {
        match self {
            Self::NotAccepted(t) => DynSendError::NotAccepted(f(t)),
            Self::Closed(t) => DynSendError::Closed(f(t)),
        }
    }

    /// Attempts to recover the typed value with `f`, which either succeeds or hands the
    /// value back unchanged. The kind of error is kept in both cases.
    pub fn downcast<U, F: FnOnce(T) -> Result<U, T>>(self, f: F) -> (r: Result<
        DynSendError<U>,
        Self,
    >)
        requires
            f.requires((self.payload(),)),
        ensures
            match r {
                Ok(e) => self.same_kind(e) && f.ensures((self.payload(),), Ok(e.payload())),
                Err(e) => self.same_kind(e) && f.ensures((self.payload(),), Err(e.payload())),
            },
    {
        match self {
            Self::NotAccepted(t) => match f(t) {
                Ok(t) => Ok(DynSendError::NotAccepted(t)),
                Err(t) => Err(DynSendError::NotAccepted(t)),
            },
            Self::Closed(t) => match f(t) {
                Ok(t) => Ok(DynSendError::Closed(t)),
                Err(t) => Err(DynSendError::Closed(t)),
            },
        }
    }
}

impl<T> From<SendError<T>> for DynSendError<T> {
    fn from(e: SendError<T>) -> (r: Self) {
        Self::Closed(e.0)
    }
}

impl<T> FromSpecImpl<SendError<T>> for DynSendError<T> {
    open spec fn obeys_from_spec() -> bool {
        true
    }

    open spec fn from_spec(e: SendError<T>) -> Self {
        DynSendError::Closed(e.0)
    }
}

/// Error that is returned when a channel is closed, full, or the message was not accepted.
#[derive(Debug, Clone, Copy, Hash, PartialEq, Eq)]
pub enum DynSendNowError<T> {
    /// The receiving protocol does not accept the message.
    NotAccepted(T),
    /// The channel is closed.
    Closed(T),
    /// The channel is full.
    Full(T),
}

impl<T> DynSendNowError<T> {
    /// The value that could not be sent.
    pub open spec fn payload(self) -> T {
        match self {
            DynSendNowError::NotAccepted(t) => t,
            DynSendNowError::Closed(t) => t,
            DynSendNowError::Full(t) => t,
        }
    }

    /// The two errors are of the same kind.
    pub open spec fn same_kind<U>(self, other: DynSendNowError<U>) -> bool {
        &&& (self is NotAccepted) == (other is NotAccepted)
        &&& (self is Closed) == (other is Closed)
        &&& (self is Full) == (other is Full)
    }

    /// Returns the value that could not be sent.
    pub fn into_inner(self) -> (r: T)
        ensures
            r == self.payload(),
    {
        match self {
            Self::NotAccepted(t) => t,
            Self::Closed(t) => t,
            Self::Full(t) => t,
        }
    }

    /// Applies `f` to the value that could not be sent, keeping the kind of error.
    pub fn map<U, F: FnOnce(T) -> U>(self, f: F) -> (r: DynSendNowError<U>)
        requires
            f.requires((self.payload(),)),
        ensures
            f.ensures((self.payload(),), r.payload()),
            self.same_kind(r),
    {
        match self {
            Self::NotAccepted(t) => DynSendNowError::NotAccepted(f(t)),
            Self::Closed(t) => DynSendNowError::Closed(f(t)),
            Self::Full(t) => DynSendNowError::Full(f(t)),
        }
    }

    /// Attempts to recover the typed value with `f`, which either succeeds or hands the
    /// value back unchanged. The kind of error is kept in both cases.
    pub fn downcast<U, F: FnOnce(T) -> Result<U, T>>(self, f: F) -> (r: Result<
        DynSendNowError<U>,
        Self,
    >)
        requires
            f.requires((self.payload(),)),
        ensures
            match r {
                Ok(e) => self.same_kind(e) && f.ensures((self.payload(),), Ok(e.payload())),
                Err(e) => self.same_kind(e) && f.ensures((self.payload(),), Err(e.payload())),
            },
    {
        match self {
            Self::NotAccepted(t) => match f(t) {
                Ok(t) => Ok(DynSendNowError::NotAccepted(t)),
                Err(t) => Err(DynSendNowError::NotAccepted(t)),
            },
            Self::Closed(t) => match f(t) {
                Ok(t) => Ok(DynSendNowError::Closed(t)),
                Err(t) => Err(DynSendNowError::Closed(t)),
            },
            Self::Full(t) => match f(t) {
                Ok(t) => Ok(DynSendNowError::Full(t)),
                Err(t) => Err(DynSendNowError::Full(t)),
            },
        }
    }
}

impl<T> From<SendError<T>> for DynSendNowError<T> {
    fn from(e: SendError<T>) -> (r: Self) {
        Self::Closed(e.0)
    }
}

impl<T> FromSpecImpl<SendError<T>> for DynSendNowError<T> {
    open spec fn obeys_from_spec() -> bool {
        true
    }

    open spec fn from_spec(e: SendError<T>) -> Self {
        DynSendNowError::Closed(e.0)
    }
}

impl<T> From<TrySendError<T>> for DynSendNowError<T> {
    fn from(e: TrySendError<T>) -> (r: Self) {
        match e {
            TrySendError::Closed(t) => Self::Closed(t),
            TrySendError::Full(t) => Self::Full(t),
        }
    }
}

impl<T> FromSpecImpl<TrySendError<T>> for DynSendNowError<T> {
    open spec fn obeys_from_spec() -> bool {
        true
    }

    open spec fn from_spec(e: TrySendError<T>) -> Self {
        match e {
            TrySendError::Closed(t) => DynSendNowError::Closed(t),
            TrySendError::Full(t) => DynSendNowError::Full(t),
        }
    }
}

/// Error that is returned when a request could not be sent, was not accepted, or did not
/// receive a reply.
#[derive(Debug, Clone, Copy, Hash, PartialEq, Eq)]
pub enum DynRequestError<M, E> {
    /// The receiving protocol does not accept the message.
    NotAccepted(M),
    /// The channel is closed: the message could not be sent.
    Full(M),
    /// The message was sent, but no reply was received.
    NoReply(E),
}

impl<M, E> From<DynSendError<M>> for DynRequestError<M, E> {
    fn from(e: DynSendError<M>) -> (r: Self) {
        match e {
            DynSendError::NotAccepted(m) => Self::NotAccepted(m),
            DynSendError::Closed(m) => Self::Full(m),
        }
    }
}

impl<M, E> FromSpecImpl<DynSendError<M>> for DynRequestError<M, E> {
    open spec fn obeys_from_spec() -> bool {
        true
    }

    open spec fn from_spec(e: DynSendError<M>) -> Self {
        match e {
            DynSendError::NotAccepted(m) => DynRequestError::NotAccepted(m),
            DynSendError::Closed(m) => DynRequestError::Full(m),
        }
    }
}

} // verus!
