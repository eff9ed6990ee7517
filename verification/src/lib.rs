//! Ergonomic wrappers for channels, designed for actor systems.
#![allow(clippy::type_complexity)]

pub mod dynamic;
mod errors;
mod features;
mod message;
pub mod send_futures;
mod sender_wrappers;
mod sending;
pub mod type_sets;

pub use errors::{
    DynRequestError, DynSendError, DynSendNowError, RequestError, SendError, TrySendError,
};
pub use message::{Message, Msg, Protocol, ProtocolMarker};
pub use type_sets::TypeSet;
pub use dynamic::accept::{marker, Accepts, AcceptsAll, AcceptsSubsetOf};
pub use dynamic::from_into::DynFromInto;
pub use dynamic::into_dyn::{IntoSender, TryIntoSender};
pub use send_futures::{
    DynRequestFut, DynRequestWithFut, DynSendFut, DynSendMsgFut, DynSendMsgWithFut, DynSendWithFut,
    RequestFut, RequestWithFut, SendDynMsgFut, SendFut, SendMsgFut, SendMsgWithFut, SendWithFut,
};
pub use sender_wrappers::{MappedWithSender, WithValueSender};
pub use sending::{
    message_send_result, IsSender, IsSenderExt, IsStaticSender, ResultFuture, Sends, SendsExt,
};
pub use features::{broadcast, priority, request, watch};
pub use features::request::Request;
