//! Endpoint selection behind a foreign-call boundary: decoding of the caller's
//! arguments, the selection decision, and the status / output-slot protocol.

pub mod text;
pub mod headers;
pub mod selector;
pub mod adapter;
