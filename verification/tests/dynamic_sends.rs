use meslin::send_futures::{
    cancelled_dyn_send_result, cancelled_dyn_try_send_result, cancelled_send_result,
    dyn_reply_result, reply_result,
};
use meslin::{message_send_result, DynRequestError, Msg, RequestError};
use meslin::dynamic::from_into::{
    accepted_send_result, accepted_try_send_result, boxed_send_result, boxed_try_send_result,
    dyn_send_boxed_msg_blocking_with, dyn_try_send_boxed_msg_with,
};
use meslin::type_sets::Members;
use meslin::{priority, DynFromInto, DynSendError, DynSendNowError, SendError, TrySendError};
use std::any::TypeId;

#[derive(Debug, PartialEq)]
enum Proto {
    Number(i32),
}

impl Members for Proto {
    fn members() -> Vec<TypeId> {
        vec![TypeId::of::<i32>()]
    }
}

/// A stand-in for a boxed message: either something `Proto` accepts, or a text it does not.
#[derive(Debug, PartialEq)]
enum TestBox {
    Number(i32, u8),
    Text(String, u8),
}

impl DynFromInto<u8> for Proto {
    type Boxed = TestBox;

    fn try_from_boxed_msg(msg: TestBox) -> Result<(Proto, u8), TestBox> {
        match msg {
            TestBox::Number(n, w) => Ok((Proto::Number(n), w)),
            other => Err(other),
        }
    }

    fn into_boxed_msg(self, with: u8) -> TestBox {
        match self {
            Proto::Number(n) => TestBox::Number(n, with),
        }
    }
}

#[test]
fn dyn_try_send_refuses_boxes_it_does_not_accept() {
    let (sender, receiver) = priority::bounded::<Proto, u8>(1);
    assert_eq!(
        dyn_try_send_boxed_msg_with(&sender, TestBox::Text("no".to_string(), 2)),
        Err(DynSendNowError::NotAccepted(TestBox::Text("no".to_string(), 2)))
    );
    assert_eq!(dyn_try_send_boxed_msg_with(&sender, TestBox::Number(1, 3)), Ok(()));
    // Full: the protocol comes back boxed again, with its priority.
    assert_eq!(
        dyn_try_send_boxed_msg_with(&sender, TestBox::Number(2, 4)),
        Err(DynSendNowError::Full(TestBox::Number(2, 4)))
    );
    assert_eq!(receiver.try_recv().unwrap(), (Proto::Number(1), 3));
    drop(receiver);
    assert_eq!(
        dyn_try_send_boxed_msg_with(&sender, TestBox::Number(5, 6)),
        Err(DynSendNowError::Closed(TestBox::Number(5, 6)))
    );
}

#[test]
fn dyn_blocking_send_refuses_or_sends() {
    let (sender, receiver) = priority::unbounded::<Proto, u8>();
    assert_eq!(
        dyn_send_boxed_msg_blocking_with(&sender, TestBox::Text("x".to_string(), 1)),
        Err(DynSendError::NotAccepted(TestBox::Text("x".to_string(), 1)))
    );
    assert_eq!(dyn_send_boxed_msg_blocking_with(&sender, TestBox::Number(7, 8)), Ok(()));
    assert_eq!(receiver.try_recv().unwrap(), (Proto::Number(7), 8));
    drop(receiver);
    assert_eq!(
        dyn_send_boxed_msg_blocking_with(&sender, TestBox::Number(9, 1)),
        Err(DynSendError::Closed(TestBox::Number(9, 1)))
    );
}

#[test]
fn outcomes_are_boxed_again_and_converted_back() {
    assert_eq!(boxed_send_result::<Proto, u8>(Ok(())), Ok(()));
    assert_eq!(
        boxed_send_result::<Proto, u8>(Err(SendError((Proto::Number(3), 2)))),
        Err(DynSendError::Closed(TestBox::Number(3, 2)))
    );
    assert_eq!(
        boxed_try_send_result::<Proto, u8>(Err(TrySendError::Full((Proto::Number(4), 1)))),
        Err(DynSendNowError::Full(TestBox::Number(4, 1)))
    );
    assert_eq!(
        accepted_send_result(Err::<(), _>(DynSendError::Closed((1u8, 2u8)))),
        Err(SendError((1u8, 2u8)))
    );
    assert_eq!(accepted_send_result::<u8, u8>(Ok(())), Ok(()));
    assert_eq!(
        accepted_try_send_result(Err::<(), _>(DynSendNowError::Full(("a", ())))),
        Err(TrySendError::Full(("a", ())))
    );
    assert_eq!(
        accepted_try_send_result(Err::<(), _>(DynSendNowError::Closed(("b", ())))),
        Err(TrySendError::Closed(("b", ())))
    );
}

#[test]
fn results_after_a_send_are_converted_exactly() {
    // A protocol that comes back is turned into the message it was made from.
    assert_eq!(
        message_send_result::<Proto, Proto, u8>(Err(SendError((Proto::Number(3), 9)))),
        Some(Err(SendError((Proto::Number(3), 9))))
    );
    assert_eq!(message_send_result::<Proto, Proto, u8>(Ok(())), Some(Ok(())));
    // A message that could not be sent is cancelled back into its input.
    assert_eq!(cancelled_send_result(Err(SendError((Msg(5u32), 1u8))), ()), Err(SendError((5u32, 1u8))));
    assert_eq!(cancelled_send_result::<Msg<u32>, u8>(Ok(()), ()), Ok(()));
    assert_eq!(
        cancelled_dyn_send_result(Err(DynSendError::NotAccepted((Msg(6u32), ()))), ()),
        Err(DynSendError::NotAccepted((6u32, ())))
    );
    assert_eq!(
        cancelled_dyn_try_send_result(Err(DynSendNowError::Full((Msg(7u32), 2u8))), ()),
        Err(DynSendNowError::Full((7u32, 2u8)))
    );
    // The reply decides the result of a sent request.
    assert_eq!(reply_result::<u8, &str, ()>(Ok(4)), Ok(4));
    assert_eq!(reply_result::<u8, &str, ()>(Err("gone")), Err(RequestError::NoReply("gone")));
    assert_eq!(dyn_reply_result::<u8, &str, ()>(Err("gone")), Err(DynRequestError::NoReply("gone")));
}

#[test]
fn a_boxed_protocol_unboxes_to_itself() {
    let boxed = Proto::Number(11).into_boxed_msg(4);
    assert_eq!(Proto::try_from_boxed_msg(boxed), Ok((Proto::Number(11), 4)));
    // The box a failed send hands back holds what was sent.
    let (sender, receiver) = priority::unbounded::<Proto, u8>();
    drop(receiver);
    match dyn_send_boxed_msg_blocking_with(&sender, TestBox::Number(12, 5)) {
        Err(DynSendError::Closed(b)) => {
            assert_eq!(Proto::try_from_boxed_msg(b), Ok((Proto::Number(12), 5)))
        }
        other => panic!("unexpected {:?}", other),
    }
}
