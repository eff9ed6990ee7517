use meslin::{IntoSender, TryIntoSender};
use meslin::{
    broadcast, priority, watch, IsSender, IsSenderExt, IsStaticSender, Protocol, Request,
    RequestError, SendError, Sends, SendsExt, TrySendError,
};

#[derive(Debug, PartialEq)]
enum MyProtocol {
    Number(i32),
    Text(String),
}

impl Protocol<i32> for MyProtocol {
    fn from_msg(msg: i32) -> Self {
        MyProtocol::Number(msg)
    }

    fn try_into_msg(self) -> Result<i32, Self> {
        match self {
            MyProtocol::Number(n) => Ok(n),
            other => Err(other),
        }
    }
}

impl Protocol<String> for MyProtocol {
    fn from_msg(msg: String) -> Self {
        MyProtocol::Text(msg)
    }

    fn try_into_msg(self) -> Result<String, Self> {
        match self {
            MyProtocol::Text(s) => Ok(s),
            other => Err(other),
        }
    }
}

#[test]
fn priority_send_now_and_full() {
    let (sender, receiver) = priority::bounded::<MyProtocol, u8>(1);
    assert_eq!(sender.capacity(), Some(1));
    assert!(!sender.is_closed());
    sender.send::<i32>(42).with(3).now().unwrap();
    assert_eq!(sender.len(), 1);
    // The channel is full: the input and priority come back.
    assert_eq!(
        sender.send::<i32>(43).with(4).now().unwrap_err(),
        TrySendError::Full((43, 4))
    );
    assert_eq!(
        sender.send_msg("hi".to_string()).now().unwrap_err(),
        TrySendError::Full("hi".to_string())
    );
    assert_eq!(receiver.try_recv().unwrap(), (MyProtocol::Number(42), 3));
}

#[test]
fn priority_orders_by_priority() {
    let (sender, receiver) = priority::unbounded::<MyProtocol, u32>();
    assert_eq!(sender.capacity(), None);
    sender.send::<i32>(1).with(1).wait().unwrap();
    sender.send::<String>("two".to_string()).with(5).wait().unwrap();
    sender.send::<i32>(3).wait().unwrap(); // default priority 0
    assert_eq!(sender.len(), 3);
    assert_eq!(sender.sender_count(), 1);
    assert_eq!(sender.receiver_count(), 1);
    assert_eq!(receiver.try_recv().unwrap(), (MyProtocol::Text("two".to_string()), 5));
    assert_eq!(receiver.try_recv().unwrap(), (MyProtocol::Number(1), 1));
    assert_eq!(receiver.try_recv().unwrap(), (MyProtocol::Number(3), 0));
}

#[test]
fn priority_closed_gives_message_back() {
    let (sender, receiver) = priority::unbounded::<MyProtocol, u32>();
    drop(receiver);
    assert!(sender.is_closed());
    assert_eq!(sender.send::<i32>(5).wait().unwrap_err(), SendError(5));
    assert_eq!(
        sender.send::<String>("x".to_string()).with(2).wait().unwrap_err(),
        SendError(("x".to_string(), 2))
    );
    assert_eq!(sender.send::<i32>(6).now().unwrap_err(), TrySendError::Closed(6));
    assert_eq!(
        <priority::Sender<MyProtocol, u32> as Sends<i32>>::try_send_msg_with(&sender, 8, 1),
        Err(TrySendError::Closed((8, 1)))
    );
}

#[test]
fn with_value_sender_uses_stored_value() {
    let (sender, receiver) = priority::unbounded::<i32, u8>();
    let sender = sender.with(9);
    sender.send::<i32>(1).wait().unwrap();
    assert_eq!(receiver.try_recv().unwrap(), (1, 9));
    let (inner, with) = sender.inner_ref();
    assert_eq!(*with, 9);
    assert_eq!(inner.len(), 0);
    let (_inner, with) = sender.into_inner();
    assert_eq!(with, 9);
}

#[test]
fn with_value_sender_error_gives_unit() {
    let (sender, receiver) = priority::bounded::<i32, u8>(1);
    let mut sender = sender.with(2);
    *sender.inner_mut().1 = 4;
    sender.send::<i32>(1).now().unwrap();
    assert_eq!(sender.send::<i32>(2).now().unwrap_err(), TrySendError::Full(2));
    assert_eq!(receiver.try_recv().unwrap(), (1, 4));
    drop(receiver);
    assert_eq!(
        IsStaticSender::send_protocol_blocking_with(&sender, 3, ()),
        Err(SendError((3, ())))
    );
}

#[test]
fn mapped_with_sender_converts_both_ways() {
    let (sender, receiver) = priority::bounded::<i32, u32>(1);
    let sender = sender.map_with(|w: u8| w as u32 * 10, |p: u32| (p / 10) as u8);
    sender.send::<i32>(1).with(3).wait().unwrap();
    assert_eq!(receiver.try_recv().unwrap(), (1, 30));
    sender.send::<i32>(2).with(4).now().unwrap();
    assert_eq!(
        sender.send::<i32>(3).with(5).now().unwrap_err(),
        TrySendError::Full((3, 5))
    );
    let (inner, f1, f2) = sender.inner_ref();
    assert_eq!(f1(7), 70);
    assert_eq!(f2(70), 7);
    assert_eq!(inner.len(), 1);
    // A clone converts in the same way, into the same channel.
    let copy = sender.clone();
    assert_eq!(receiver.try_recv().unwrap(), (2, 40));
    copy.send::<i32>(6).with(8).now().unwrap();
    assert_eq!(receiver.try_recv().unwrap(), (6, 80));
    assert_eq!(copy.len(), 0);
}

#[test]
fn broadcast_sends_to_every_receiver() {
    let (sender, mut r1) = broadcast::channel::<i32>(2);
    let mut r2 = r1.clone();
    assert_eq!(sender.capacity(), Some(2));
    assert!(!sender.is_closed());
    assert_eq!(sender.receiver_count(), 2);
    sender.send::<i32>(1).now().unwrap();
    sender.send::<i32>(2).wait().unwrap();
    assert_eq!(sender.send::<i32>(3).now().unwrap_err(), TrySendError::Full(3));
    assert_eq!(r1.try_recv().unwrap(), 1);
    assert_eq!(r2.try_recv().unwrap(), 1);
    assert_eq!(sender.sender_count(), 1);
    drop(r1);
    drop(r2);
    // With every receiver gone the channel is closed.
    assert!(sender.is_closed());
    assert_eq!(sender.send::<i32>(4).now().unwrap_err(), TrySendError::Closed(4));
}

#[test]
fn watch_replaces_value() {
    let (sender, receiver) = watch::channel::<i32>(0);
    assert_eq!(sender.len(), 1);
    assert_eq!(sender.capacity(), None);
    assert_eq!(sender.sender_count(), 1);
    sender.send::<i32>(5).now().unwrap();
    sender.send::<i32>(6).wait().unwrap();
    assert_eq!(*receiver.borrow(), 6);
    // A clone sends into the same channel.
    let other = sender.clone();
    other.send::<i32>(9).now().unwrap();
    assert_eq!(*receiver.borrow(), 9);
    drop(receiver);
    assert!(sender.is_closed());
    assert_eq!(sender.send::<i32>(7).wait().unwrap_err(), SendError(7));
}

#[test]
fn request_on_closed_channel_gives_input_back() {
    let (psender, preceiver) = priority::unbounded::<Request<u32, String>, u8>();
    drop(preceiver);
    let res = psender.send::<Request<u32, String>>(42u32).recv().wait();
    assert!(matches!(res, Err(RequestError::Full(42))));
}

#[test]
fn request_reply_is_received() {
    let (psender, preceiver) = priority::unbounded::<Request<u32, String>, u8>();
    let rx = psender.send::<Request<u32, String>>(5u32).now().unwrap();
    let (req, prio) = preceiver.try_recv().unwrap();
    assert_eq!(prio, 0);
    req.tx.send(format!("The number is {}", req.msg)).unwrap();
    assert_eq!(rx.recv().unwrap(), "The number is 5");
}

#[test]
fn static_sender_converts_into_itself() {
    let (sender, receiver) = priority::unbounded::<MyProtocol, u8>();
    let same: priority::Sender<MyProtocol, u8> = sender.into_sender();
    same.send::<i32>(1).with(0).now().unwrap();
    let again: Result<priority::Sender<MyProtocol, u8>, _> = same.try_into_sender();
    let again = again.unwrap();
    again.send::<i32>(2).with(0).now().unwrap();
    assert_eq!(receiver.try_recv().unwrap(), (MyProtocol::Number(1), 0));
    assert_eq!(receiver.try_recv().unwrap(), (MyProtocol::Number(2), 0));
}

#[test]
fn protocol_round_trip_on_both_messages() {
    let p = <MyProtocol as Protocol<i32>>::from_msg(7);
    assert_eq!(<MyProtocol as Protocol<i32>>::try_into_msg(p), Ok(7));
    let q = <MyProtocol as Protocol<String>>::from_msg("x".to_string());
    assert_eq!(<MyProtocol as Protocol<String>>::try_into_msg(q), Ok("x".to_string()));
    // A protocol holding the other message is handed back unchanged.
    let r = <MyProtocol as Protocol<String>>::from_msg("y".to_string());
    assert_eq!(
        <MyProtocol as Protocol<i32>>::try_into_msg(r),
        Err(MyProtocol::Text("y".to_string()))
    );
}

#[test]
fn blocking_and_trying_extension_methods() {
    let (sender, receiver) = priority::bounded::<MyProtocol, u8>(2);
    sender.send_blocking_with::<i32>(1, 7).unwrap();
    sender.try_send::<String>("a".to_string()).unwrap();
    // The channel is full: the inputs come back, with the given priority where there was one.
    assert_eq!(sender.try_send_with::<i32>(2, 3), Err(TrySendError::Full((2, 3))));
    assert_eq!(sender.try_send::<i32>(4), Err(TrySendError::Full(4)));
    assert_eq!(sender.try_send_msg(5i32), Err(TrySendError::Full(5)));
    assert_eq!(receiver.try_recv().unwrap(), (MyProtocol::Number(1), 7));
    assert_eq!(receiver.try_recv().unwrap(), (MyProtocol::Text("a".to_string()), 0));
    sender.send_msg_blocking(6i32).unwrap();
    sender.send_blocking::<i32>(8).unwrap();
    assert_eq!(receiver.try_recv().unwrap(), (MyProtocol::Number(6), 0));
    assert_eq!(receiver.try_recv().unwrap(), (MyProtocol::Number(8), 0));
    drop(receiver);
    assert_eq!(sender.send_blocking::<i32>(9), Err(SendError(9)));
    assert_eq!(sender.send_blocking_with::<i32>(10, 1), Err(SendError((10, 1))));
    assert_eq!(sender.send_msg_blocking(11i32), Err(SendError(11)));
    assert_eq!(sender.try_send::<i32>(12), Err(TrySendError::Closed(12)));
}

#[test]
fn blocking_request_cancels_into_its_input() {
    let (sender, receiver) = priority::unbounded::<Request<u32, String>, u8>();
    let rx = sender.send_blocking::<Request<u32, String>>(3u32).unwrap();
    let (req, _) = receiver.try_recv().unwrap();
    req.tx.send(format!("got {}", req.msg)).unwrap();
    assert_eq!(rx.recv().unwrap(), "got 3");
    drop(receiver);
    assert_eq!(
        sender.send_blocking::<Request<u32, String>>(4u32).map(|_| ()),
        Err(SendError(4))
    );
}

/// A sender that accepts every request and drops it unanswered.
struct DroppingSender;

impl IsSender for DroppingSender {
    type With = ();

    fn is_closed(&self) -> bool {
        false
    }

    fn capacity(&self) -> Option<usize> {
        None
    }

    fn len(&self) -> usize {
        0
    }

    fn receiver_count(&self) -> usize {
        1
    }

    fn sender_count(&self) -> usize {
        1
    }
}

impl IsStaticSender for DroppingSender {
    type Protocol = Request<u32, String>;

    fn try_send_protocol_with(
        _this: &Self,
        _protocol: Request<u32, String>,
        _with: (),
    ) -> Result<(), TrySendError<(Request<u32, String>, ())>> {
        Ok(())
    }

    fn send_protocol_blocking_with(
        _this: &Self,
        _protocol: Request<u32, String>,
        _with: (),
    ) -> Result<(), SendError<(Request<u32, String>, ())>> {
        Ok(())
    }
}

#[test]
fn request_without_reply_is_no_reply() {
    let (sender, receiver) = priority::unbounded::<Request<u32, String>, u8>();
    let rx = sender.send::<Request<u32, String>>(1u32).now().unwrap();
    let (req, _) = receiver.try_recv().unwrap();
    drop(req);
    assert!(rx.recv().is_err());
    // A request that is accepted and dropped unanswered gives `NoReply`.
    let res = DroppingSender.send::<Request<u32, String>>(2u32).recv().wait();
    assert!(matches!(res, Err(RequestError::NoReply(_))));
    let res = DroppingSender.send::<Request<u32, String>>(3u32).with(()).recv().wait();
    assert!(matches!(res, Err(RequestError::NoReply(_))));
}
