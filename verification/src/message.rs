//! Messages and protocols.
//!
//! All messages that are sent through a channel implement [`Message`]. A message is created from
//! its [`Message::Input`], and sending it hands back a [`Message::Output`]. When a send fails, the
//! message is cancelled again, which gives back exactly the input it was created from.
//!
//! A protocol is the type that a channel carries. For every message `M` that it accepts, it
//! implements [`Protocol<M>`], which converts the message into the protocol and back.
use std::rc::Rc;
use std::sync::Arc;
use vstd::prelude::*;

verus! {

/// All messages must implement this trait.
///
/// It defines two types: `Input` and `Output`.
/// - [`Message::Input`] is the type that is converted into the message.
/// - [`Message::Output`] is the type that is returned when the message is sent.
pub trait Message: Sized {
    /// The type that is converted into the message.
    type Input;

    /// The type that is returned when the message is sent.
    type Output;

    /// The input that this message was created from, and that cancelling it gives back.
    closed spec fn input(&self) -> Self::Input {
        arbitrary()
    }

    /// Create a message from the given input.
    fn create(from: Self::Input) -> (r: (Self, Self::Output))
        ensures
            r.0.input() == from,
    ;

    /// Cancel the message and return the input.
    fn cancel(self, returned: Self::Output) -> (r: Self::Input)
        ensures
            r == self.input(),
    ;
}

/// A protocol defines the messages it accepts by implementing this trait.
///
/// Usually the protocol is an enum with one variant for each message it accepts. Converting a
/// message into the protocol and back gives the same message.
pub trait Protocol<M>: Sized {
    /// The message that this protocol value holds, if it holds an `M`.
    closed spec fn as_msg(&self) -> Option<M> {
        arbitrary()
    }

    /// Convert a message into the full protocol (enum).
    fn from_msg(msg: M) -> (r: Self)
        ensures
            r.as_msg() == Some(msg),
    ;

    /// Convert the full protocol (enum) into a message, giving the protocol back unchanged if it
    /// does not hold an `M`.
    fn try_into_msg(self) -> (r: Result<M, Self>)
        ensures
            match r {
                Ok(m) => self.as_msg() == Some(m),
                Err(p) => p == self && self.as_msg() is None,
            },
    ;
}

/// Every message is a protocol that accepts just that message.
impl<M> Protocol<M> for M {
    open spec fn as_msg(&self) -> Option<M> {
        Some(*self)
    }

    fn from_msg(msg: M) -> (r: Self) {
        msg
    }

    fn try_into_msg(self) -> (r: Result<M, Self>) {
        Ok(self)
    }
}

/// Cancelling a message gives back exactly the input it was created from, whatever the output
/// that is handed to the cancellation.
pub proof fn lemma_cancel_undoes_create<M: Message>(
    from: M::Input,
    created: (M, M::Output),
    returned: M::Output,
    cancelled: M::Input,
)
    requires
        call_ensures(M::create, (from,), created),
        call_ensures(M::cancel, (created.0, returned), cancelled),
    ensures
        cancelled == from,
{
}

/// Converting a message into a protocol and back gives the same message.
pub proof fn lemma_protocol_round_trip<P: Protocol<M>, M>(msg: M, protocol: P, back: Result<M, P>)
    requires
        call_ensures(P::from_msg, (msg,), protocol),
        call_ensures(P::try_into_msg, (protocol,), back),
    ensures
        back == Ok::<M, P>(msg),
{
}

/// A marker trait to signal that a protocol accepts a message when it is sent dynamically.
///
/// When implemented on a type that does not actually accept the message, dynamic sends of that
/// message are refused at runtime.
pub trait ProtocolMarker<M> {}

/// A simple wrapper for any type that does not implement [`Message`].
///
/// [`Msg<T>`] implements [`Message`] for any type `T`.
#[derive(Debug, Clone, Copy)]
pub struct Msg<T>(pub T);

impl<T> Message for Msg<T> {
    type Input = T;
    type Output = ();

    open spec fn input(&self) -> T {
        self.0
    }

    fn create(from: T) -> (r: (Self, ()))
        ensures
            r == (Msg(from), ()),
    {
        (Msg(from), ())
    }

    fn cancel(self, returned: ()) -> (r: T)
        ensures
            r == self.0,
    {
        self.0
    }
}

// Common types are messages of themselves: their input is the value, and their output is `()`.

impl Message for char {
    type Input = char;
    type Output = ();

    open spec fn input(&self) -> char {
        *self
    }

    fn create(from: char) -> (r: (char, ()))
        ensures
            r == (from, ()),
    {
        (from, ())
    }

    fn cancel(self, returned: ()) -> (r: char)
        ensures
            r == self,
    {
        self
    }
}

impl Message for String {
    type Input = String;
    type Output = ();

    open spec fn input(&self) -> String {
        *self
    }

    fn create(from: String) -> (r: (String, ()))
        ensures
            r == (from, ()),
    {
        (from, ())
    }

    fn cancel(self, returned: ()) -> (r: String)
        ensures
            r == self,
    {
        self
    }
}

impl Message for bool {
    type Input = bool;
    type Output = ();

    open spec fn input(&self) -> bool {
        *self
    }

    fn create(from: bool) -> (r: (bool, ()))
        ensures
            r == (from, ()),
    {
        (from, ())
    }

    fn cancel(self, returned: ()) -> (r: bool)
        ensures
            r == self,
    {
        self
    }
}

impl Message for &'static str {
    type Input = &'static str;
    type Output = ();

    open spec fn input(&self) -> &'static str {
        *self
    }

    fn create(from: &'static str) -> (r: (&'static str, ()))
        ensures
            r == (from, ()),
    {
        (from, ())
    }

    fn cancel(self, returned: ()) -> (r: &'static str)
        ensures
            r == self,
    {
        self
    }
}

impl Message for usize {
    type Input = usize;
    type Output = ();

    open spec fn input(&self) -> usize {
        *self
    }

    fn create(from: usize) -> (r: (usize, ()))
        ensures
            r == (from, ()),
    {
        (from, ())
    }

    fn cancel(self, returned: ()) -> (r: usize)
        ensures
            r == self,
    {
        self
    }
}

impl Message for u8 {
    type Input = u8;
    type Output = ();

    open spec fn input(&self) -> u8 {
        *self
    }

    fn create(from: u8) -> (r: (u8, ()))
        ensures
            r == (from, ()),
    {
        (from, ())
    }

    fn cancel(self, returned: ()) -> (r: u8)
        ensures
            r == self,
    {
        self
    }
}

impl Message for u16 {
    type Input = u16;
    type Output = ();

    open spec fn input(&self) -> u16 {
        *self
    }

    fn create(from: u16) -> (r: (u16, ()))
        ensures
            r == (from, ()),
    {
        (from, ())
    }

    fn cancel(self, returned: ()) -> (r: u16)
        ensures
            r == self,
    {
        self
    }
}

impl Message for u32 {
    type Input = u32;
    type Output = ();

    open spec fn input(&self) -> u32 {
        *self
    }

    fn create(from: u32) -> (r: (u32, ()))
        ensures
            r == (from, ()),
    {
        (from, ())
    }

    fn cancel(self, returned: ()) -> (r: u32)
        ensures
            r == self,
    {
        self
    }
}

impl Message for u64 {
    type Input = u64;
    type Output = ();

    open spec fn input(&self) -> u64 {
        *self
    }

    fn create(from: u64) -> (r: (u64, ()))
        ensures
            r == (from, ()),
    {
        (from, ())
    }

    fn cancel(self, returned: ()) -> (r: u64)
        ensures
            r == self,
    {
        self
    }
}

impl Message for isize {
    type Input = isize;
    type Output = ();

    open spec fn input(&self) -> isize {
        *self
    }

    fn create(from: isize) -> (r: (isize, ()))
        ensures
            r == (from, ()),
    {
        (from, ())
    }

    fn cancel(self, returned: ()) -> (r: isize)
        ensures
            r == self,
    {
        self
    }
}

impl Message for i8 {
    type Input = i8;
    type Output = ();

    open spec fn input(&self) -> i8 {
        *self
    }

    fn create(from: i8) -> (r: (i8, ()))
        ensures
            r == (from, ()),
    {
        (from, ())
    }

    fn cancel(self, returned: ()) -> (r: i8)
        ensures
            r == self,
    {
        self
    }
}

impl Message for i16 {
    type Input = i16;
    type Output = ();

    open spec fn input(&self) -> i16 {
        *self
    }

    fn create(from: i16) -> (r: (i16, ()))
        ensures
            r == (from, ()),
    {
        (from, ())
    }

    fn cancel(self, returned: ()) -> (r: i16)
        ensures
            r == self,
    {
        self
    }
}

impl Message for i32 {
    type Input = i32;
    type Output = ();

    open spec fn input(&self) -> i32 {
        *self
    }

    fn create(from: i32) -> (r: (i32, ()))
        ensures
            r == (from, ()),
    {
        (from, ())
    }

    fn cancel(self, returned: ()) -> (r: i32)
        ensures
            r == self,
    {
        self
    }
}

impl Message for i64 {
    type Input = i64;
    type Output = ();

    open spec fn input(&self) -> i64 {
        *self
    }

    fn create(from: i64) -> (r: (i64, ()))
        ensures
            r == (from, ()),
    {
        (from, ())
    }

    fn cancel(self, returned: ()) -> (r: i64)
        ensures
            r == self,
    {
        self
    }
}

impl<T1> Message for Option<T1> {
    type Input = Option<T1>;
    type Output = ();

    open spec fn input(&self) -> Option<T1> {
        *self
    }

    fn create(from: Option<T1>) -> (r: (Option<T1>, ()))
        ensures
            r == (from, ()),
    {
        (from, ())
    }

    fn cancel(self, returned: ()) -> (r: Option<T1>)
        ensures
            r == self,
    {
        self
    }
}

impl<T1> Message for Vec<T1> {
    type Input = Vec<T1>;
    type Output = ();

    open spec fn input(&self) -> Vec<T1> {
        *self
    }

    fn create(from: Vec<T1>) -> (r: (Vec<T1>, ()))
        ensures
            r == (from, ()),
    {
        (from, ())
    }

    fn cancel(self, returned: ()) -> (r: Vec<T1>)
        ensures
            r == self,
    {
        self
    }
}

impl<T1> Message for Box<T1> {
    type Input = Box<T1>;
    type Output = ();

    open spec fn input(&self) -> Box<T1> {
        *self
    }

    fn create(from: Box<T1>) -> (r: (Box<T1>, ()))
        ensures
            r == (from, ()),
    {
        (from, ())
    }

    fn cancel(self, returned: ()) -> (r: Box<T1>)
        ensures
            r == self,
    {
        self
    }
}

impl<T1> Message for Arc<T1> {
    type Input = Arc<T1>;
    type Output = ();

    open spec fn input(&self) -> Arc<T1> {
        *self
    }

    fn create(from: Arc<T1>) -> (r: (Arc<T1>, ()))
        ensures
            r == (from, ()),
    {
        (from, ())
    }

    fn cancel(self, returned: ()) -> (r: Arc<T1>)
        ensures
            r == self,
    {
        self
    }
}

impl<T1> Message for Rc<T1> {
    type Input = Rc<T1>;
    type Output = ();

    open spec fn input(&self) -> Rc<T1> {
        *self
    }

    fn create(from: Rc<T1>) -> (r: (Rc<T1>, ()))
        ensures
            r == (from, ()),
    {
        (from, ())
    }

    fn cancel(self, returned: ()) -> (r: Rc<T1>)
        ensures
            r == self,
    {
        self
    }
}

impl<T1> Message for &'static [T1] {
    type Input = &'static [T1];
    type Output = ();

    open spec fn input(&self) -> &'static [T1] {
        *self
    }

    fn create(from: &'static [T1]) -> (r: (&'static [T1], ()))
        ensures
            r == (from, ()),
    {
        (from, ())
    }

    fn cancel(self, returned: ()) -> (r: &'static [T1])
        ensures
            r == self,
    {
        self
    }
}

impl<T1, T2> Message for Result<T1, T2> {
    type Input = Result<T1, T2>;
    type Output = ();

    open spec fn input(&self) -> Result<T1, T2> {
        *self
    }

    fn create(from: Result<T1, T2>) -> (r: (Result<T1, T2>, ()))
        ensures
            r == (from, ()),
    {
        (from, ())
    }

    fn cancel(self, returned: ()) -> (r: Result<T1, T2>)
        ensures
            r == self,
    {
        self
    }
}

impl Message for () {
    type Input = ();
    type Output = ();

    open spec fn input(&self) -> () {
        *self
    }

    fn create(from: ()) -> (r: ((), ()))
        ensures
            r == (from, ()),
    {
        (from, ())
    }

    fn cancel(self, returned: ()) -> (r: ())
        ensures
            r == self,
    {
        self
    }
}

impl<T1> Message for (T1,) {
    type Input = (T1,);
    type Output = ();

    open spec fn input(&self) -> (T1,) {
        *self
    }

    fn create(from: (T1,)) -> (r: ((T1,), ()))
        ensures
            r == (from, ()),
    {
        (from, ())
    }

    fn cancel(self, returned: ()) -> (r: (T1,))
        ensures
            r == self,
    {
        self
    }
}

impl<T1, T2> Message for (T1, T2) {
    type Input = (T1, T2);
    type Output = ();

    open spec fn input(&self) -> (T1, T2) {
        *self
    }

    fn create(from: (T1, T2)) -> (r: ((T1, T2), ()))
        ensures
            r == (from, ()),
    {
        (from, ())
    }

    fn cancel(self, returned: ()) -> (r: (T1, T2))
        ensures
            r == self,
    {
        self
    }
}

impl<T1, T2, T3> Message for (T1, T2, T3) {
    type Input = (T1, T2, T3);
    type Output = ();

    open spec fn input(&self) -> (T1, T2, T3) {
        *self
    }

    fn create(from: (T1, T2, T3)) -> (r: ((T1, T2, T3), ()))
        ensures
            r == (from, ()),
    {
        (from, ())
    }

    fn cancel(self, returned: ()) -> (r: (T1, T2, T3))
        ensures
            r == self,
    {
        self
    }
}

impl<T1, T2, T3, T4> Message for (T1, T2, T3, T4) {
    type Input = (T1, T2, T3, T4);
    type Output = ();

    open spec fn input(&self) -> (T1, T2, T3, T4) {
        *self
    }

    fn create(from: (T1, T2, T3, T4)) -> (r: ((T1, T2, T3, T4), ()))
        ensures
            r == (from, ()),
    {
        (from, ())
    }

    fn cancel(self, returned: ()) -> (r: (T1, T2, T3, T4))
        ensures
            r == self,
    {
        self
    }
}

impl<T1, T2, T3, T4, T5> Message for (T1, T2, T3, T4, T5) {
    type Input = (T1, T2, T3, T4, T5);
    type Output = ();

    open spec fn input(&self) -> (T1, T2, T3, T4, T5) {
        *self
    }

    fn create(from: (T1, T2, T3, T4, T5)) -> (r: ((T1, T2, T3, T4, T5), ()))
        ensures
            r == (from, ()),
    {
        (from, ())
    }

    fn cancel(self, returned: ()) -> (r: (T1, T2, T3, T4, T5))
        ensures
            r == self,
    {
        self
    }
}

impl<T1, T2, T3, T4, T5, T6> Message for (T1, T2, T3, T4, T5, T6) {
    type Input = (T1, T2, T3, T4, T5, T6);
    type Output = ();

    open spec fn input(&self) -> (T1, T2, T3, T4, T5, T6) {
        *self
    }

    fn create(from: (T1, T2, T3, T4, T5, T6)) -> (r: ((T1, T2, T3, T4, T5, T6), ()))
        ensures
            r == (from, ()),
    {
        (from, ())
    }

    fn cancel(self, returned: ()) -> (r: (T1, T2, T3, T4, T5, T6))
        ensures
            r == self,
    {
        self
    }
}

impl<T1, T2, T3, T4, T5, T6, T7> Message for (T1, T2, T3, T4, T5, T6, T7) {
    type Input = (T1, T2, T3, T4, T5, T6, T7);
    type Output = ();

    open spec fn input(&self) -> (T1, T2, T3, T4, T5, T6, T7) {
        *self
    }

    fn create(from: (T1, T2, T3, T4, T5, T6, T7)) -> (r: ((T1, T2, T3, T4, T5, T6, T7), ()))
        ensures
            r == (from, ()),
    {
        (from, ())
    }

    fn cancel(self, returned: ()) -> (r: (T1, T2, T3, T4, T5, T6, T7))
        ensures
            r == self,
    {
        self
    }
}

impl<T1, T2, T3, T4, T5, T6, T7, T8> Message for (T1, T2, T3, T4, T5, T6, T7, T8) {
    type Input = (T1, T2, T3, T4, T5, T6, T7, T8);
    type Output = ();

    open spec fn input(&self) -> (T1, T2, T3, T4, T5, T6, T7, T8) {
        *self
    }

    fn create(from: (T1, T2, T3, T4, T5, T6, T7, T8)) -> (r: ((T1, T2, T3, T4, T5, T6, T7, T8), ()))
        ensures
            r == (from, ()),
    {
        (from, ())
    }

    fn cancel(self, returned: ()) -> (r: (T1, T2, T3, T4, T5, T6, T7, T8))
        ensures
            r == self,
    {
        self
    }
}

impl<T1, T2, T3, T4, T5, T6, T7, T8, T9> Message for (T1, T2, T3, T4, T5, T6, T7, T8, T9) {
    type Input = (T1, T2, T3, T4, T5, T6, T7, T8, T9);
    type Output = ();

    open spec fn input(&self) -> (T1, T2, T3, T4, T5, T6, T7, T8, T9) {
        *self
    }

    fn create(from: (T1, T2, T3, T4, T5, T6, T7, T8, T9)) -> (r: ((T1, T2, T3, T4, T5, T6, T7, T8, T9), ()))
        ensures
            r == (from, ()),
    {
        (from, ())
    }

    fn cancel(self, returned: ()) -> (r: (T1, T2, T3, T4, T5, T6, T7, T8, T9))
        ensures
            r == self,
    {
        self
    }
}

impl<T1, T2, T3, T4, T5, T6, T7, T8, T9, T10> Message for (T1, T2, T3, T4, T5, T6, T7, T8, T9, T10) {
    type Input = (T1, T2, T3, T4, T5, T6, T7, T8, T9, T10);
    type Output = ();

    open spec fn input(&self) -> (T1, T2, T3, T4, T5, T6, T7, T8, T9, T10) {
        *self
    }

    fn create(from: (T1, T2, T3, T4, T5, T6, T7, T8, T9, T10)) -> (r: ((T1, T2, T3, T4, T5, T6, T7, T8, T9, T10), ()))
        ensures
            r == (from, ()),
    {
        (from, ())
    }

    fn cancel(self, returned: ()) -> (r: (T1, T2, T3, T4, T5, T6, T7, T8, T9, T10))
        ensures
            r == self,
    {
        self
    }
}

/// A [`Msg`] wraps exactly its input, and cancelling it gives that input back.
pub proof fn law_msg_wraps_its_input<T>(from: T, created: (Msg<T>, ()), back: T)
    requires
        call_ensures(<Msg<T> as Message>::create, (from,), created),
        call_ensures(<Msg<T> as Message>::cancel, (created.0, created.1), back),
    ensures
        created.0 == Msg(from),
        back == from,
{
}

/// A `char` message is its own input: creating one gives exactly the input, and cancelling it
/// gives that input back.
pub proof fn law_char_message_is_its_input(from: char, created: (char, ()), back: char)
    requires
        call_ensures(<char as Message>::create, (from,), created),
        call_ensures(<char as Message>::cancel, (created.0, created.1), back),
    ensures
        created.0 == from,
        back == from,
{
}

/// A `String` message is its own input: creating one gives exactly the input, and cancelling it
/// gives that input back.
pub proof fn law_string_message_is_its_input(from: String, created: (String, ()), back: String)
    requires
        call_ensures(<String as Message>::create, (from,), created),
        call_ensures(<String as Message>::cancel, (created.0, created.1), back),
    ensures
        created.0 == from,
        back == from,
{
}

/// A `bool` message is its own input: creating one gives exactly the input, and cancelling it
/// gives that input back.
pub proof fn law_bool_message_is_its_input(from: bool, created: (bool, ()), back: bool)
    requires
        call_ensures(<bool as Message>::create, (from,), created),
        call_ensures(<bool as Message>::cancel, (created.0, created.1), back),
    ensures
        created.0 == from,
        back == from,
{
}

/// A `&'static str` message is its own input: creating one gives exactly the input, and cancelling it
/// gives that input back.
pub proof fn law_str_message_is_its_input(from: &'static str, created: (&'static str, ()), back: &'static str)
    requires
        call_ensures(<&'static str as Message>::create, (from,), created),
        call_ensures(<&'static str as Message>::cancel, (created.0, created.1), back),
    ensures
        created.0 == from,
        back == from,
{
}

/// A `usize` message is its own input: creating one gives exactly the input, and cancelling it
/// gives that input back.
pub proof fn law_usize_message_is_its_input(from: usize, created: (usize, ()), back: usize)
    requires
        call_ensures(<usize as Message>::create, (from,), created),
        call_ensures(<usize as Message>::cancel, (created.0, created.1), back),
    ensures
        created.0 == from,
        back == from,
{
}

/// A `u8` message is its own input: creating one gives exactly the input, and cancelling it
/// gives that input back.
pub proof fn law_u8_message_is_its_input(from: u8, created: (u8, ()), back: u8)
    requires
        call_ensures(<u8 as Message>::create, (from,), created),
        call_ensures(<u8 as Message>::cancel, (created.0, created.1), back),
    ensures
        created.0 == from,
        back == from,
{
}

/// A `u16` message is its own input: creating one gives exactly the input, and cancelling it
/// gives that input back.
pub proof fn law_u16_message_is_its_input(from: u16, created: (u16, ()), back: u16)
    requires
        call_ensures(<u16 as Message>::create, (from,), created),
        call_ensures(<u16 as Message>::cancel, (created.0, created.1), back),
    ensures
        created.0 == from,
        back == from,
{
}

/// A `u32` message is its own input: creating one gives exactly the input, and cancelling it
/// gives that input back.
pub proof fn law_u32_message_is_its_input(from: u32, created: (u32, ()), back: u32)
    requires
        call_ensures(<u32 as Message>::create, (from,), created),
        call_ensures(<u32 as Message>::cancel, (created.0, created.1), back),
    ensures
        created.0 == from,
        back == from,
{
}

/// A `u64` message is its own input: creating one gives exactly the input, and cancelling it
/// gives that input back.
pub proof fn law_u64_message_is_its_input(from: u64, created: (u64, ()), back: u64)
    requires
        call_ensures(<u64 as Message>::create, (from,), created),
        call_ensures(<u64 as Message>::cancel, (created.0, created.1), back),
    ensures
        created.0 == from,
        back == from,
{
}

/// A `isize` message is its own input: creating one gives exactly the input, and cancelling it
/// gives that input back.
pub proof fn law_isize_message_is_its_input(from: isize, created: (isize, ()), back: isize)
    requires
        call_ensures(<isize as Message>::create, (from,), created),
        call_ensures(<isize as Message>::cancel, (created.0, created.1), back),
    ensures
        created.0 == from,
        back == from,
{
}

/// A `i8` message is its own input: creating one gives exactly the input, and cancelling it
/// gives that input back.
pub proof fn law_i8_message_is_its_input(from: i8, created: (i8, ()), back: i8)
    requires
        call_ensures(<i8 as Message>::create, (from,), created),
        call_ensures(<i8 as Message>::cancel, (created.0, created.1), back),
    ensures
        created.0 == from,
        back == from,
{
}

/// A `i16` message is its own input: creating one gives exactly the input, and cancelling it
/// gives that input back.
pub proof fn law_i16_message_is_its_input(from: i16, created: (i16, ()), back: i16)
    requires
        call_ensures(<i16 as Message>::create, (from,), created),
        call_ensures(<i16 as Message>::cancel, (created.0, created.1), back),
    ensures
        created.0 == from,
        back == from,
{
}

/// A `i32` message is its own input: creating one gives exactly the input, and cancelling it
/// gives that input back.
pub proof fn law_i32_message_is_its_input(from: i32, created: (i32, ()), back: i32)
    requires
        call_ensures(<i32 as Message>::create, (from,), created),
        call_ensures(<i32 as Message>::cancel, (created.0, created.1), back),
    ensures
        created.0 == from,
        back == from,
{
}

/// A `i64` message is its own input: creating one gives exactly the input, and cancelling it
/// gives that input back.
pub proof fn law_i64_message_is_its_input(from: i64, created: (i64, ()), back: i64)
    requires
        call_ensures(<i64 as Message>::create, (from,), created),
        call_ensures(<i64 as Message>::cancel, (created.0, created.1), back),
    ensures
        created.0 == from,
        back == from,
{
}

/// A `Option<T1>` message is its own input: creating one gives exactly the input, and cancelling it
/// gives that input back.
pub proof fn law_option_message_is_its_input<T1>(from: Option<T1>, created: (Option<T1>, ()), back: Option<T1>)
    requires
        call_ensures(<Option<T1> as Message>::create, (from,), created),
        call_ensures(<Option<T1> as Message>::cancel, (created.0, created.1), back),
    ensures
        created.0 == from,
        back == from,
{
}

/// A `Vec<T1>` message is its own input: creating one gives exactly the input, and cancelling it
/// gives that input back.
pub proof fn law_vec_message_is_its_input<T1>(from: Vec<T1>, created: (Vec<T1>, ()), back: Vec<T1>)
    requires
        call_ensures(<Vec<T1> as Message>::create, (from,), created),
        call_ensures(<Vec<T1> as Message>::cancel, (created.0, created.1), back),
    ensures
        created.0 == from,
        back == from,
{
}

/// A `Box<T1>` message is its own input: creating one gives exactly the input, and cancelling it
/// gives that input back.
pub proof fn law_box_message_is_its_input<T1>(from: Box<T1>, created: (Box<T1>, ()), back: Box<T1>)
    requires
        call_ensures(<Box<T1> as Message>::create, (from,), created),
        call_ensures(<Box<T1> as Message>::cancel, (created.0, created.1), back),
    ensures
        created.0 == from,
        back == from,
{
}

/// A `Arc<T1>` message is its own input: creating one gives exactly the input, and cancelling it
/// gives that input back.
pub proof fn law_arc_message_is_its_input<T1>(from: Arc<T1>, created: (Arc<T1>, ()), back: Arc<T1>)
    requires
        call_ensures(<Arc<T1> as Message>::create, (from,), created),
        call_ensures(<Arc<T1> as Message>::cancel, (created.0, created.1), back),
    ensures
        created.0 == from,
        back == from,
{
}

/// A `Rc<T1>` message is its own input: creating one gives exactly the input, and cancelling it
/// gives that input back.
pub proof fn law_rc_message_is_its_input<T1>(from: Rc<T1>, created: (Rc<T1>, ()), back: Rc<T1>)
    requires
        call_ensures(<Rc<T1> as Message>::create, (from,), created),
        call_ensures(<Rc<T1> as Message>::cancel, (created.0, created.1), back),
    ensures
        created.0 == from,
        back == from,
{
}

/// A `&'static [T1]` message is its own input: creating one gives exactly the input, and cancelling it
/// gives that input back.
pub proof fn law_slice_message_is_its_input<T1>(from: &'static [T1], created: (&'static [T1], ()), back: &'static [T1])
    requires
        call_ensures(<&'static [T1] as Message>::create, (from,), created),
        call_ensures(<&'static [T1] as Message>::cancel, (created.0, created.1), back),
    ensures
        created.0 == from,
        back == from,
{
}

/// A `Result<T1, T2>` message is its own input: creating one gives exactly the input, and cancelling it
/// gives that input back.
pub proof fn law_result_message_is_its_input<T1, T2>(from: Result<T1, T2>, created: (Result<T1, T2>, ()), back: Result<T1, T2>)
    requires
        call_ensures(<Result<T1, T2> as Message>::create, (from,), created),
        call_ensures(<Result<T1, T2> as Message>::cancel, (created.0, created.1), back),
    ensures
        created.0 == from,
        back == from,
{
}

/// A `()` message is its own input: creating one gives exactly the input, and cancelling it
/// gives that input back.
pub proof fn law_unit_message_is_its_input(from: (), created: ((), ()), back: ())
    requires
        call_ensures(<() as Message>::create, (from,), created),
        call_ensures(<() as Message>::cancel, (created.0, created.1), back),
    ensures
        created.0 == from,
        back == from,
{
}

/// A `(T1,)` message is its own input: creating one gives exactly the input, and cancelling it
/// gives that input back.
pub proof fn law_tuple1_message_is_its_input<T1>(from: (T1,), created: ((T1,), ()), back: (T1,))
    requires
        call_ensures(<(T1,) as Message>::create, (from,), created),
        call_ensures(<(T1,) as Message>::cancel, (created.0, created.1), back),
    ensures
        created.0 == from,
        back == from,
{
}

/// A `(T1, T2)` message is its own input: creating one gives exactly the input, and cancelling it
/// gives that input back.
pub proof fn law_tuple2_message_is_its_input<T1, T2>(from: (T1, T2), created: ((T1, T2), ()), back: (T1, T2))
    requires
        call_ensures(<(T1, T2) as Message>::create, (from,), created),
        call_ensures(<(T1, T2) as Message>::cancel, (created.0, created.1), back),
    ensures
        created.0 == from,
        back == from,
{
}

/// A `(T1, T2, T3)` message is its own input: creating one gives exactly the input, and cancelling it
/// gives that input back.
pub proof fn law_tuple3_message_is_its_input<T1, T2, T3>(from: (T1, T2, T3), created: ((T1, T2, T3), ()), back: (T1, T2, T3))
    requires
        call_ensures(<(T1, T2, T3) as Message>::create, (from,), created),
        call_ensures(<(T1, T2, T3) as Message>::cancel, (created.0, created.1), back),
    ensures
        created.0 == from,
        back == from,
{
}

/// A `(T1, T2, T3, T4)` message is its own input: creating one gives exactly the input, and cancelling it
/// gives that input back.
pub proof fn law_tuple4_message_is_its_input<T1, T2, T3, T4>(from: (T1, T2, T3, T4), created: ((T1, T2, T3, T4), ()), back: (T1, T2, T3, T4))
    requires
        call_ensures(<(T1, T2, T3, T4) as Message>::create, (from,), created),
        call_ensures(<(T1, T2, T3, T4) as Message>::cancel, (created.0, created.1), back),
    ensures
        created.0 == from,
        back == from,
{
}

/// A `(T1, T2, T3, T4, T5)` message is its own input: creating one gives exactly the input, and cancelling it
/// gives that input back.
pub proof fn law_tuple5_message_is_its_input<T1, T2, T3, T4, T5>(from: (T1, T2, T3, T4, T5), created: ((T1, T2, T3, T4, T5), ()), back: (T1, T2, T3, T4, T5))
    requires
        call_ensures(<(T1, T2, T3, T4, T5) as Message>::create, (from,), created),
        call_ensures(<(T1, T2, T3, T4, T5) as Message>::cancel, (created.0, created.1), back),
    ensures
        created.0 == from,
        back == from,
{
}

/// A `(T1, T2, T3, T4, T5, T6)` message is its own input: creating one gives exactly the input, and cancelling it
/// gives that input back.
pub proof fn law_tuple6_message_is_its_input<T1, T2, T3, T4, T5, T6>(from: (T1, T2, T3, T4, T5, T6), created: ((T1, T2, T3, T4, T5, T6), ()), back: (T1, T2, T3, T4, T5, T6))
    requires
        call_ensures(<(T1, T2, T3, T4, T5, T6) as Message>::create, (from,), created),
        call_ensures(<(T1, T2, T3, T4, T5, T6) as Message>::cancel, (created.0, created.1), back),
    ensures
        created.0 == from,
        back == from,
{
}

/// A `(T1, T2, T3, T4, T5, T6, T7)` message is its own input: creating one gives exactly the input, and cancelling it
/// gives that input back.
pub proof fn law_tuple7_message_is_its_input<T1, T2, T3, T4, T5, T6, T7>(from: (T1, T2, T3, T4, T5, T6, T7), created: ((T1, T2, T3, T4, T5, T6, T7), ()), back: (T1, T2, T3, T4, T5, T6, T7))
    requires
        call_ensures(<(T1, T2, T3, T4, T5, T6, T7) as Message>::create, (from,), created),
        call_ensures(<(T1, T2, T3, T4, T5, T6, T7) as Message>::cancel, (created.0, created.1), back),
    ensures
        created.0 == from,
        back == from,
{
}

/// A `(T1, T2, T3, T4, T5, T6, T7, T8)` message is its own input: creating one gives exactly the input, and cancelling it
/// gives that input back.
pub proof fn law_tuple8_message_is_its_input<T1, T2, T3, T4, T5, T6, T7, T8>(from: (T1, T2, T3, T4, T5, T6, T7, T8), created: ((T1, T2, T3, T4, T5, T6, T7, T8), ()), back: (T1, T2, T3, T4, T5, T6, T7, T8))
    requires
        call_ensures(<(T1, T2, T3, T4, T5, T6, T7, T8) as Message>::create, (from,), created),
        call_ensures(<(T1, T2, T3, T4, T5, T6, T7, T8) as Message>::cancel, (created.0, created.1), back),
    ensures
        created.0 == from,
        back == from,
{
}

/// A `(T1, T2, T3, T4, T5, T6, T7, T8, T9)` message is its own input: creating one gives exactly the input, and cancelling it
/// gives that input back.
pub proof fn law_tuple9_message_is_its_input<T1, T2, T3, T4, T5, T6, T7, T8, T9>(from: (T1, T2, T3, T4, T5, T6, T7, T8, T9), created: ((T1, T2, T3, T4, T5, T6, T7, T8, T9), ()), back: (T1, T2, T3, T4, T5, T6, T7, T8, T9))
    requires
        call_ensures(<(T1, T2, T3, T4, T5, T6, T7, T8, T9) as Message>::create, (from,), created),
        call_ensures(<(T1, T2, T3, T4, T5, T6, T7, T8, T9) as Message>::cancel, (created.0, created.1), back),
    ensures
        created.0 == from,
        back == from,
{
}

/// A `(T1, T2, T3, T4, T5, T6, T7, T8, T9, T10)` message is its own input: creating one gives exactly the input, and cancelling it
/// gives that input back.
pub proof fn law_tuple10_message_is_its_input<T1, T2, T3, T4, T5, T6, T7, T8, T9, T10>(from: (T1, T2, T3, T4, T5, T6, T7, T8, T9, T10), created: ((T1, T2, T3, T4, T5, T6, T7, T8, T9, T10), ()), back: (T1, T2, T3, T4, T5, T6, T7, T8, T9, T10))
    requires
        call_ensures(<(T1, T2, T3, T4, T5, T6, T7, T8, T9, T10) as Message>::create, (from,), created),
        call_ensures(<(T1, T2, T3, T4, T5, T6, T7, T8, T9, T10) as Message>::cancel, (created.0, created.1), back),
    ensures
        created.0 == from,
        back == from,
{
}

} // verus!
