//! The channels that senders are provided for.
//!
//! - [`priority`]: a priority channel using `async_priority_channel`.
//! - [`broadcast`]: a broadcast channel using `async_broadcast`.
//! - [`watch`]: a watch channel using `tokio::sync::watch`.
//! - [`request`]: requests that are answered through a `oneshot` channel.
pub mod broadcast;
pub mod request;
pub mod priority;
pub mod watch;
mod outside_types;
