//! Control core of a two-process webview runtime.
//!
//! A host process drives windows and webviews that live in a worker process,
//! which owns the native event loop. This crate holds the rules of that
//! arrangement: the messages and their JSON form, the framing of the byte
//! stream, request correlation on the host, dispatch and the window registry
//! in the worker, the start-up handshake, and the choice each window or
//! webview operation makes between a local call and a message.

pub mod application;
pub mod attributes;
pub mod browser_window;
pub mod client;
pub mod dispatch;
pub mod eventloop_process;
pub mod events;
pub mod framing;
pub mod ipc;
pub mod json;
pub mod keyed;
pub mod proxy;
pub mod registry;
pub mod server;
pub mod text;
pub mod webview;
pub mod wire;
pub mod worker;
pub mod wry;
