//! The verified core of a plugin development kit: the rules by which a
//! sandboxed plugin talks to the process that hosts it.
//!
//! The host owns every real resource. A plugin reaches it only through the
//! calls of the `Host` and `Buffer` traits, of which nothing is assumed: each
//! contract says which call was made, what was handed to the host, and what
//! is made of its reply.

pub mod auth;
pub mod context;
pub mod db;
pub mod error;
pub mod event_bus;
pub mod events;
pub mod export;
pub mod ffmpeg;
pub mod host;
pub mod http;
pub mod http_client;
pub mod json;
pub mod plugin;
pub mod prelude;
pub mod stream;
pub mod text;
