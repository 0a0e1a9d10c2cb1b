//! Exact-length request bodies and the request envelope that carries them.

pub mod body;
pub mod decode;
pub mod request;
pub mod stream;

pub use body::{Body, BodyError, BodyState, CHUNK_LEN};
pub use request::{Method, Protocol, Request};
