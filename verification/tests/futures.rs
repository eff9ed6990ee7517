use meslin::{priority, IsSender, IsSenderExt, SendFut, SendMsgFut, TrySendError};

#[test]
fn combinators_hand_back_their_parts() {
    let (sender, _receiver) = priority::unbounded::<i32, u8>();
    let (s, input) = sender.send::<i32>(3).into_inner();
    assert_eq!(input, 3);
    assert_eq!(s.len(), 0);
    let (_, input, with) = sender.send::<i32>(3).with(7).into_inner();
    assert_eq!((input, with), (3, 7));
    let (_, msg) = sender.send_msg(9i32).into_inner();
    assert_eq!(msg, 9);
    let (_, msg, with) = sender.send_msg(9i32).with(2).into_inner();
    assert_eq!((msg, with), (9, 2));
    let (_, input) = sender.send::<i32>(4).recv().into_inner();
    assert_eq!(input, 4);
    let (_, input, with) = sender.send::<i32>(4).recv().with(1).into_inner();
    assert_eq!((input, with), (4, 1));
}

#[test]
fn dynamic_combinators_hand_back_their_parts() {
    let (sender, _receiver) = priority::unbounded::<i32, u8>();
    let (_, input) = sender.send::<i32>(3).dynamic().into_inner();
    assert_eq!(input, 3);
    let (_, input, with) = sender.send::<i32>(3).dynamic().with(5).into_inner();
    assert_eq!((input, with), (3, 5));
    let (_, input, with) = sender.send::<i32>(3).with(5).dynamic().recv().into_inner();
    assert_eq!((input, with), (3, 5));
    let (_, input) = sender.send::<i32>(3).dynamic().recv().into_inner();
    assert_eq!(input, 3);
    let (_, input, with) = sender.send::<i32>(3).recv().dynamic().with(6).into_inner();
    assert_eq!((input, with), (3, 6));
    let (_, msg) = sender.send_msg(8i32).dynamic().into_inner();
    assert_eq!(msg, 8);
    let (_, msg, with) = sender.send_msg(8i32).dynamic().with(1).into_inner();
    assert_eq!((msg, with), (8, 1));
    let (_, msg, with) = sender.send_msg(8i32).with(1).dynamic().into_inner();
    assert_eq!((msg, with), (8, 1));
}

#[test]
fn with_msg_creates_the_message() {
    let (sender, _receiver) = priority::unbounded::<i32, u8>();
    let (combinator, output) = sender.send::<i32>(11).with(2).with_msg();
    assert_eq!(output, ());
    assert_eq!(combinator.into_inner().1, 11);
}

#[test]
fn explicit_constructors() {
    let (sender, receiver) = priority::bounded::<i32, u8>(1);
    SendFut::<_, i32>::new(&sender, 1).now().unwrap();
    assert_eq!(
        SendMsgFut::new(&sender, 2i32).now().unwrap_err(),
        TrySendError::Full(2)
    );
    assert_eq!(receiver.try_recv().unwrap(), (1, 0));
}
