//! Per-channel authenticated encryption.
//!
//! Every channel, named by a 64-bit integer, has a 256-bit key derived from a
//! process-wide master secret. A message is sealed under its channel's key
//! with AES-256-GCM and a random nonce, and travels as one base64 blob that
//! holds the nonce followed by the ciphertext and its tag.

pub mod error;
pub mod primitives;
pub mod kdf;
pub mod cache;
pub mod codec;
pub mod service;
