//! A small HTTP/1.1 message engine, and the rules of a server that brings
//! services up again when their images are pushed to a registry.
//!
//! The engine turns the bytes of a request into a `Request` and the choices
//! of a handler into the bytes of a response. It never touches a socket or a
//! file: it says what it needs to be handed and what has to be written, and
//! whoever holds the stream does that. Every function is verified against a
//! contract over a mathematical model of its data.

pub mod compose;
pub mod config;
pub mod content_type;
pub mod decimal;
pub mod error;
pub mod file_body;
pub mod laws;
pub mod parser;
pub mod prelude;
pub mod request;
pub mod response;
pub mod status_code;
pub mod string_map;
pub mod text;
pub mod transfer;
pub mod utils;
pub mod webhook;

pub use content_type::ContentType;
pub use error::{Backtrace, Error, ResultExt};
pub use file_body::FileBody;
pub use parser::{Demand, Progress, RequestParser};
pub use request::{PeerAddress, Request, RequestError};
pub use response::{Delivery, Outgoing, Payload, Response, ResponseError, Sendable};
pub use status_code::StatusCode;
pub use string_map::StringMap;
pub use transfer::{Transmission, Turn, WireAction, WireEvent};
