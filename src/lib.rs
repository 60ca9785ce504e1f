//! Client side of the KeyAuth 1.2 licensing protocol.
//!
//! The library holds the protocol's decisions: which fields each call sends,
//! how the form body is written, which key authenticates each response, and
//! how a verified response changes the session. Sending and receiving bytes
//! is left to the caller, who hands every response back as a reply.

pub mod api;
pub mod callback;
pub mod codec;
pub mod form;
pub mod json;
pub mod laws;

pub use codec::{decode_hex, encode_hex, make_hmac};
