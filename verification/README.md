# meslin

Ergonomic wrappers for channels, designed for actor systems, with the sending logic verified
by Verus.

- `src/` is the verified library: messages and protocols (`message`), the sender traits
  (`sending`), the send combinators (`send_futures`), the senders that change the `with`
  value (`sender_wrappers`), the errors (`errors`), the priority, broadcast, watch and request
  channels (`features`), type sets (`type_sets`) and the acceptance checks of dynamic senders
  (`dynamic`), including how a boxed message is refused, sent, or handed back boxed again.
  Every failed send of the library hands back exactly the message or input it was given; this,
  and the round trips of messages and protocols, are stated in the contracts and proved. For
  dynamic sends the library states and proves it of the box that comes back, given that the
  protocol's `DynFromInto` keeps its contract; the box itself is built in `app/`, unverified.
- `app/` is ordinary Rust around the library: sending through futures, the boxed messages and
  trait objects of dynamic senders, which rest on `std::any::Any` (what a box holds is decided
  there, unverified; the decisions around it are the library's), and the errors with `Display`
  and `std::error::Error`.
- `tests/` exercises the library on concrete values.
