//! Client-side core of a decentralized social-protocol hub: it assembles a
//! typed message-data envelope, serializes it canonically, hashes and signs
//! it, and independently validates an envelope's metadata.

pub mod builders;
pub mod codec;
pub mod crypto;
pub mod hexstring;
pub mod message;
pub mod time;
