//! Conversions of senders into other senders.
//!
//! A static sender always converts into itself. Dynamic senders convert into dynamic senders that
//! accept a subset of their messages.
use crate::sending::IsStaticSender;
use vstd::prelude::*;

verus! {

/// Trait implemented for all senders that can be transformed into a sender of type `T`.
pub trait IntoSender<T> {
    /// Transform the sender into a sender of type `T`.
    fn into_sender(self) -> T;
}

/// Every static sender converts into itself, unchanged.
impl<T> IntoSender<T> for T where T: IsStaticSender {
    fn into_sender(self) -> (r: T)
        ensures
            r == self,
    {
        self
    }
}

/// Trait implemented for all senders that can try to transform into a sender of type `T`.
pub trait TryIntoSender<T>: Sized {
    /// Attempt to transform the sender into a sender of type `T`, failing if it does not accept
    /// the messages. On failure the sender is handed back unchanged.
    fn try_into_sender(self) -> (r: Result<T, Self>)
        ensures
            r matches Err(s) ==> s == self,
    ;
}

/// A static sender that converts into `R` always succeeds in doing so.
impl<T, R> TryIntoSender<R> for T where T: IntoSender<R> + IsStaticSender {
    fn try_into_sender(self) -> (r: Result<R, Self>)
        ensures
            r matches Ok(s) && call_ensures(T::into_sender, (self,), s),
    {
        Ok(self.into_sender())
    }
}

} // verus!
