//! A client for a generative-content service: the conversation history and
//! its compilation into a request, the reading of a response body by the
//! schema that its status calls for, the rule that decides whether a
//! response is usable, and the decoder that turns a streamed array body into
//! responses chunk by chunk.
//!
//! The library makes no network call. It says which call to make and what
//! the answer means; a transport around it does the sending and reading.

pub mod api;
pub mod client;
pub mod context;
pub mod errors;
pub mod framing;
pub mod json;
pub mod response;
pub mod settings;
pub mod status;
pub mod stream;
pub mod text;
pub mod types;
pub mod utils;
pub mod wire;
