//! The caller's side of a message relay, and the command parser of the bot
//! that uses it.
//!
//! A caller registers with the relay over HTTP, is given the address of a
//! socket, connects to it, and from then on receives what the relay sends
//! while it publishes to groups over HTTP. Nothing in this crate sends or
//! receives: [`service::WebSocketClient`] says which request to send and what
//! to make of the reply, [`bridge::InboundBridge`] says what to do with each
//! frame that was read, and [`pipeline`] shows that no inbound message is
//! lost on the way to the application. [`parser::Parser`] turns the text of a
//! chat message into a command and runs the command's handler.

pub mod bridge;
pub mod endpoints;
pub mod error;
pub mod parser;
pub mod pipeline;
pub mod service;
pub mod text;
pub mod types;
