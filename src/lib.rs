//! Admits short-lived signed messages of the form `<timestamp>_<key>`: the
//! timestamp must lie strictly within a window around the current time, the
//! key must be the registered authority, and the authority's Ed25519
//! signature over the message must verify.

pub mod error;
pub mod key;
pub mod message;
pub mod settings;
pub mod signature;
pub mod verify;
pub mod window;
