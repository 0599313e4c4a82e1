//! Decoding and dispatch for a bridge between the i3/sway IPC socket and an
//! eww widget daemon: the length-prefixed frame codec, the request and event
//! tag registries, and the decisions of the subscribe-and-dispatch loop.

pub mod error;
pub mod frame;
pub mod message;
pub mod event;
pub mod objects;
pub mod dispatch;
