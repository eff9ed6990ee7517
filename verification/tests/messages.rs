use meslin::{Message, Msg, Protocol, Request};

#[derive(Debug, PartialEq)]
struct HelloWorld(String);

impl Message for HelloWorld {
    type Input = String;
    type Output = ();

    fn create(from: String) -> (Self, ()) {
        (HelloWorld(from), ())
    }

    fn cancel(self, _: ()) -> String {
        self.0
    }
}

#[test]
fn custom_message_roundtrip() {
    let (msg, out) = HelloWorld::create("Hello world!".to_string());
    assert_eq!(msg, HelloWorld("Hello world!".to_string()));
    assert_eq!(msg.cancel(out), "Hello world!");
}

#[test]
fn common_messages_are_their_own_input() {
    let (m, o) = <u32 as Message>::create(42);
    assert_eq!(m, 42);
    assert_eq!(m.cancel(o), 42);
    let (m, o) = <(u8, bool, char) as Message>::create((1, true, 'x'));
    assert_eq!(m.cancel(o), (1, true, 'x'));
    let (m, o) = <Vec<i64> as Message>::create(vec![1, -2]);
    assert_eq!(m.cancel(o), vec![1, -2]);
    let (m, o) = <Result<u8, String> as Message>::create(Err("no".to_string()));
    assert_eq!(m.cancel(o), Err("no".to_string()));
    let (m, o) = <&'static str as Message>::create("static");
    assert_eq!(m.cancel(o), "static");
}

#[test]
fn msg_wraps_any_value() {
    let (m, o) = Msg::<[u8; 3]>::create([1, 2, 3]);
    assert_eq!(m.0, [1, 2, 3]);
    assert_eq!(m.cancel(o), [1, 2, 3]);
}

#[test]
fn request_cancel_gives_input_back() {
    let (req, rx) = Request::<u32, String>::create(42);
    assert_eq!(req.msg, 42);
    assert_eq!(req.cancel(rx), 42);
}

#[test]
fn request_reply_arrives_on_receiver() {
    let (req, rx) = Request::<u32, String>::new(7);
    req.tx.send(format!("The number is {}", req.msg)).unwrap();
    assert_eq!(rx.recv().unwrap(), "The number is 7");
}

#[test]
fn every_message_is_its_own_protocol() {
    let p = <u16 as Protocol<u16>>::from_msg(9);
    assert_eq!(p, 9);
    assert_eq!(<u16 as Protocol<u16>>::try_into_msg(p), Ok(9));
}
