//! Registration and request authentication for a local control service.
//!
//! Clients register once through a key exchange that hands them an Ed25519
//! signing key, sealed for transport; the public half is appended to a
//! length-framed registry. Every privileged request afterwards carries the
//! client id and a signature over the SHA-256 digest of its body.

pub mod auth;
pub mod bytes;
pub mod crypto;
pub mod identity;
pub mod recording;
pub mod registration;
pub mod registry;
