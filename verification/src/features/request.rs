//! Requests, answered through a oneshot channel.
use crate::message::Message;
use vstd::prelude::*;

verus! {

/// Creates a new oneshot channel with `oneshot::channel`.
///
/// Nothing is claimed of the two halves beyond their types.
#[verifier::external_body]
fn oneshot_channel<T>() -> (::oneshot::Sender<T>, ::oneshot::Receiver<T>) {
    ::oneshot::channel()
}

/// `tx` and `rx` are the two halves that one call of `oneshot::channel` makes.
pub closed spec fn paired<B>(tx: ::oneshot::Sender<B>, rx: ::oneshot::Receiver<B>) -> bool {
    call_ensures(oneshot_channel::<B>, (), (tx, rx))
}

/// A [`Message`] with input `A`, returning a response `B`.
///
/// This implements [`Message`] with [`oneshot::Receiver`](::oneshot::Receiver) as output.
#[derive(Debug)]
#[verifier::reject_recursive_types(B)]
pub struct Request<A, B> {
    /// The input of the request.
    pub msg: A,
    /// The sender that the reply is sent through.
    pub tx: ::oneshot::Sender<B>,
}

impl<A, B> Request<A, B> {
    /// Creates a request for `msg`, and the receiver on which its reply arrives.
    pub fn new(msg: A) -> (r: (Self, ::oneshot::Receiver<B>))
        ensures
            r.0.msg == msg,
            paired(r.0.tx, r.1),
    {
        let (sender, receiver) = oneshot_channel();
        (Self { msg, tx: sender }, receiver)
    }
}

impl<A, B> Message for Request<A, B> where A: Send + 'static, B: Send + 'static {
    type Input = A;
    type Output = ::oneshot::Receiver<B>;

    open spec fn input(&self) -> A {
        self.msg
    }

    /// The reply of the request arrives at the output.
    fn create(input: A) -> (r: (Self, ::oneshot::Receiver<B>))
        ensures
            paired(r.0.tx, r.1),
    {
        Self::new(input)
    }

    fn cancel(self, returned: ::oneshot::Receiver<B>) -> (r: A) {
        self.msg
    }
}

} // verus!
