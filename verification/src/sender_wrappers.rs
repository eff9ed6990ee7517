//! Senders that wrap another sender and change its `with` value.
use crate::errors::{SendError, TrySendError};
use crate::sending::{IsSender, IsStaticSender};
use std::marker::PhantomData;
use vstd::prelude::*;

verus! {

/// A wrapper around a sender, which provides a default `with`-value.
///
/// Every message is sent with the stored value, so the wrapper itself takes `()`.
#[derive(Debug)]
pub struct WithValueSender<T: IsSender> {
    inner: T,
    with: T::With,
}

impl<T> Clone for WithValueSender<T> where T: Clone + IsSender, T::With: Clone {
    fn clone(&self) -> (r: Self)
        ensures
            cloned::<T>(self.sender(), r.sender()),
            cloned::<T::With>(self.with_value(), r.with_value()),
    {
        Self { inner: self.inner.clone(), with: self.with.clone() }
    }
}

impl<T: IsSender> WithValueSender<T> {
    /// The wrapped sender.
    pub closed spec fn sender(&self) -> T {
        self.inner
    }

    /// The value that every message is sent with.
    pub closed spec fn with_value(&self) -> T::With {
        self.with
    }

    /// Wraps `sender`, sending every message with `with`.
    pub fn new(sender: T, with: T::With) -> (r: Self)
        ensures
            r.sender() == sender,
            r.with_value() == with,
    {
        Self { inner: sender, with }
    }

    /// Returns the wrapped sender and the value.
    pub fn into_inner(self) -> (r: (T, T::With))
        ensures
            r == (self.sender(), self.with_value()),
    {
        (self.inner, self.with)
    }

    /// Returns references to the wrapped sender and the value.
    pub fn inner_ref(&self) -> (r: (&T, &T::With))
        ensures
            *r.0 == self.sender(),
            *r.1 == self.with_value(),
    {
        (&self.inner, &self.with)
    }

    /// Returns mutable references to the wrapped sender and the value.
    pub fn inner_mut(&mut self) -> (r: (&mut T, &mut T::With))
        ensures
            *r.0 == old(self).sender(),
            *r.1 == old(self).with_value(),
            final(self).sender() == *final(r.0),
            final(self).with_value() == *final(r.1),
    {
        (&mut self.inner, &mut self.with)
    }
}

impl<T> IsSender for WithValueSender<T> where T: IsSender {
    type With = ();

    fn is_closed(&self) -> (r: bool)
        ensures
            call_ensures(T::is_closed, (&self.sender(),), r),
    {
        self.inner.is_closed()
    }

    fn capacity(&self) -> (r: Option<usize>)
        ensures
            call_ensures(T::capacity, (&self.sender(),), r),
    {
        self.inner.capacity()
    }

    fn len(&self) -> (r: usize)
        ensures
            call_ensures(T::len, (&self.sender(),), r),
    {
        self.inner.len()
    }

    fn receiver_count(&self) -> (r: usize)
        ensures
            call_ensures(T::receiver_count, (&self.sender(),), r),
    {
        self.inner.receiver_count()
    }

    fn sender_count(&self) -> (r: usize)
        ensures
            call_ensures(T::sender_count, (&self.sender(),), r),
    {
        self.inner.sender_count()
    }
}

impl<T> IsStaticSender for WithValueSender<T> where T: IsStaticSender, T::With: Clone {
    type Protocol = T::Protocol;

    fn try_send_protocol_with(this: &Self, protocol: Self::Protocol, with: ()) -> (r: Result<
        (),
        TrySendError<(Self::Protocol, ())>,
    >)
        ensures
            r matches Err(e) ==> e.payload() == (protocol, with),
            exists|w: T::With, s: Result<(), TrySendError<(T::Protocol, T::With)>>|
                #![trigger call_ensures(T::try_send_protocol_with, (&this.sender(), protocol, w), s)]
                cloned::<T::With>(this.with_value(), w)
                    && call_ensures(T::try_send_protocol_with, (&this.sender(), protocol, w), s)
                    && crate::errors::same_try_outcome(r, s),
    {
        assert(this.sender() == this.inner && this.with_value() == this.with);
        match T::try_send_protocol_with(&this.inner, protocol, this.with.clone()) {
            Ok(()) => Ok(()),
            Err(TrySendError::Closed((protocol, _))) => Err(TrySendError::Closed((protocol, with))),
            Err(TrySendError::Full((protocol, _))) => Err(TrySendError::Full((protocol, with))),
        }
    }

    fn send_protocol_blocking_with(this: &Self, protocol: Self::Protocol, with: ()) -> (r: Result<
        (),
        SendError<(Self::Protocol, ())>,
    >)
        ensures
            r matches Err(e) ==> e.0 == (protocol, with),
            exists|w: T::With, s: Result<(), SendError<(T::Protocol, T::With)>>|
                #![trigger call_ensures(T::send_protocol_blocking_with, (&this.sender(), protocol, w), s)]
                cloned::<T::With>(this.with_value(), w)
                    && call_ensures(T::send_protocol_blocking_with, (&this.sender(), protocol, w), s)
                    && crate::errors::same_outcome(r, s),
    {
        assert(this.sender() == this.inner && this.with_value() == this.with);
        match T::send_protocol_blocking_with(&this.inner, protocol, this.with.clone()) {
            Ok(()) => Ok(()),
            Err(SendError((protocol, _))) => Err(SendError((protocol, with))),
        }
    }
}

/// The two conversion functions of a [`MappedWithSender`], both defined on every value.
#[verifier::reject_recursive_types(W)]
#[verifier::reject_recursive_types(X)]
struct WithMaps<W, X, F1: Fn(W) -> X, F2: Fn(X) -> W> {
    f1: F1,
    f2: F2,
    _marker: PhantomData<(W, X)>,
}

impl<W, X, F1: Fn(W) -> X, F2: Fn(X) -> W> WithMaps<W, X, F1, F2> {
    #[verifier::type_invariant]
    spec fn total(self) -> bool {
        &&& forall|w: W| self.f1.requires((w,))
        &&& forall|x: X| self.f2.requires((x,))
    }
}

/// A wrapper around a sender, which provides a mapping between the `with`-value of the sender
/// and a custom `with`-value.
///
/// `f1` converts the custom value into the sender's value when sending, and `f2` converts the
/// sender's value back when a send fails.
#[verifier::reject_recursive_types(T)]
#[verifier::reject_recursive_types(W)]
pub struct MappedWithSender<T: IsSender, W, F1: Fn(W) -> T::With, F2: Fn(T::With) -> W> {
    sender: T,
    maps: WithMaps<W, T::With, F1, F2>,
}

impl<T: IsSender, W, F1: Fn(W) -> T::With, F2: Fn(T::With) -> W> MappedWithSender<T, W, F1, F2> {
    /// The wrapped sender.
    pub closed spec fn sender(&self) -> T {
        self.sender
    }

    /// The function that converts the custom value into the sender's value.
    pub closed spec fn to_inner(&self) -> F1 {
        self.maps.f1
    }

    /// The function that converts the sender's value back into the custom value.
    pub closed spec fn from_inner(&self) -> F2 {
        self.maps.f2
    }

    /// Wraps `sender`, converting values with `f1` and `f2`.
    pub fn new(sender: T, f1: F1, f2: F2) -> (r: Self)
        requires
            forall|w: W| f1.requires((w,)),
            forall|x: T::With| f2.requires((x,)),
        ensures
            r.sender() == sender,
            r.to_inner() == f1,
            r.from_inner() == f2,
    {
        Self { sender, maps: WithMaps { f1, f2, _marker: PhantomData } }
    }

    /// Returns the wrapped sender and the two functions.
    pub fn into_inner(self) -> (r: (T, F1, F2))
        ensures
            r == (self.sender(), self.to_inner(), self.from_inner()),
    {
        let MappedWithSender { sender, maps } = self;
        let WithMaps { f1, f2, .. } = maps;
        (sender, f1, f2)
    }

    /// Returns references to the wrapped sender and the two functions.
    pub fn inner_ref(&self) -> (r: (&T, &F1, &F2))
        ensures
            *r.0 == self.sender(),
            *r.1 == self.to_inner(),
            *r.2 == self.from_inner(),
    {
        (&self.sender, &self.maps.f1, &self.maps.f2)
    }

    /// Returns a mutable reference to the wrapped sender, and references to the two functions.
    pub fn inner_mut(&mut self) -> (r: (&mut T, &F1, &F2))
        ensures
            *r.0 == old(self).sender(),
            *r.1 == old(self).to_inner(),
            *r.2 == old(self).from_inner(),
            final(self).sender() == *final(r.0),
            final(self).to_inner() == old(self).to_inner(),
            final(self).from_inner() == old(self).from_inner(),
    {
        (&mut self.sender, &self.maps.f1, &self.maps.f2)
    }
}

/// The conversion functions are copied, so that the clone converts exactly as the original.
impl<T, W, F1, F2> Clone for MappedWithSender<T, W, F1, F2> where
    T: IsSender + Clone,
    F1: Fn(W) -> T::With + Copy,
    F2: Fn(T::With) -> W + Copy,
 {
    fn clone(&self) -> (r: Self)
        ensures
            cloned::<T>(self.sender(), r.sender()),
            r.to_inner() == self.to_inner(),
            r.from_inner() == self.from_inner(),
    {
        proof {
            use_type_invariant(&self.maps);
        }
        MappedWithSender {
            sender: self.sender.clone(),
            maps: WithMaps { f1: self.maps.f1, f2: self.maps.f2, _marker: PhantomData },
        }
    }
}

impl<T: IsSender, W, F1: Fn(W) -> T::With, F2: Fn(T::With) -> W> IsSender for MappedWithSender<
    T,
    W,
    F1,
    F2,
> {
    type With = W;

    fn is_closed(&self) -> (r: bool)
        ensures
            call_ensures(T::is_closed, (&self.sender(),), r),
    {
        self.sender.is_closed()
    }

    fn capacity(&self) -> (r: Option<usize>)
        ensures
            call_ensures(T::capacity, (&self.sender(),), r),
    {
        self.sender.capacity()
    }

    fn len(&self) -> (r: usize)
        ensures
            call_ensures(T::len, (&self.sender(),), r),
    {
        self.sender.len()
    }

    fn receiver_count(&self) -> (r: usize)
        ensures
            call_ensures(T::receiver_count, (&self.sender(),), r),
    {
        self.sender.receiver_count()
    }

    fn sender_count(&self) -> (r: usize)
        ensures
            call_ensures(T::sender_count, (&self.sender(),), r),
    {
        self.sender.sender_count()
    }
}

impl<T, W, F1, F2> IsStaticSender for MappedWithSender<T, W, F1, F2> where
    T: IsStaticSender,
    F1: Fn(W) -> T::With,
    F2: Fn(T::With) -> W,
 {
    type Protocol = T::Protocol;

    /// Sends with `f1` applied to `with`; a failed send gives the value back through `f2`.
    fn try_send_protocol_with(this: &Self, protocol: Self::Protocol, with: W) -> (r: Result<
        (),
        TrySendError<(Self::Protocol, W)>,
    >)
        ensures
            exists|w: T::With, s: Result<(), TrySendError<(T::Protocol, T::With)>>|
                #![trigger call_ensures(T::try_send_protocol_with, (&this.sender(), protocol, w), s)]
                call_ensures(this.to_inner(), (with,), w)
                    && call_ensures(T::try_send_protocol_with, (&this.sender(), protocol, w), s)
                    && crate::errors::same_try_outcome(r, s)
                    && (match (r, s) {
                        (Err(e), Err(inner)) => call_ensures(
                            this.from_inner(),
                            (inner.payload().1,),
                            e.payload().1,
                        ),
                        _ => true,
                    }),
    {
        proof {
            use_type_invariant(&this.maps);
        }
        assert(this.sender() == this.sender && this.to_inner() == this.maps.f1
            && this.from_inner() == this.maps.f2);
        let inner_with = (this.maps.f1)(with);
        match T::try_send_protocol_with(&this.sender, protocol, inner_with) {
            Ok(()) => Ok(()),
            Err(TrySendError::Closed((protocol, w))) => {
                Err(TrySendError::Closed((protocol, (this.maps.f2)(w))))
            },
            Err(TrySendError::Full((protocol, w))) => {
                Err(TrySendError::Full((protocol, (this.maps.f2)(w))))
            },
        }
    }

    /// Sends with `f1` applied to `with`; a failed send gives the value back through `f2`.
    fn send_protocol_blocking_with(this: &Self, protocol: Self::Protocol, with: W) -> (r: Result<
        (),
        SendError<(Self::Protocol, W)>,
    >)
        ensures
            exists|w: T::With, s: Result<(), SendError<(T::Protocol, T::With)>>|
                #![trigger call_ensures(T::send_protocol_blocking_with, (&this.sender(), protocol, w), s)]
                call_ensures(this.to_inner(), (with,), w)
                    && call_ensures(T::send_protocol_blocking_with, (&this.sender(), protocol, w), s)
                    && crate::errors::same_outcome(r, s)
                    && (match (r, s) {
                        (Err(e), Err(inner)) => call_ensures(this.from_inner(), (inner.0.1,), e.0.1),
                        _ => true,
                    }),
    {
        proof {
            use_type_invariant(&this.maps);
        }
        assert(this.sender() == this.sender && this.to_inner() == this.maps.f1
            && this.from_inner() == this.maps.f2);
        let inner_with = (this.maps.f1)(with);
        match T::send_protocol_blocking_with(&this.sender, protocol, inner_with) {
            Ok(()) => Ok(()),
            Err(SendError((protocol, w))) => Err(SendError((protocol, (this.maps.f2)(w)))),
        }
    }
}

} // verus!
