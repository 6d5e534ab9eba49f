//! Routing core of a multi-transport message-passing layer.
//!
//! A [`message::Message`] carries an ordered onward route of
//! [`address::Address`] values. The [`router::Router`] consumes the first
//! onward address, derives its numeric dispatch key, looks the key up in its
//! [`registry::Registry`] of handlers (falling back to a per-variant default
//! key), and transfers ownership of the shortened message to the resolved
//! handler.

pub mod address;
pub mod error;
pub mod handler;
pub mod message;
pub mod registry;
pub mod router;
