//! Webhook signature verification: a keyed-hash signature is computed over
//! the raw bytes of a request body, base64-encoded, and compared in constant
//! time against the signature supplied by the caller. A shared secret is held
//! in a store that supports concurrent reads and exclusive replacement.

pub mod compare;
pub mod handler;
pub mod signature;
pub mod store;
