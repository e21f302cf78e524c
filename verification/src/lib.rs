//! Decoder for a proprietary audio container format.
//!
//! A container wraps an audio stream behind two layers of obfuscation: a
//! scrambled per-file keystream table derived from an AES-encrypted key blob,
//! and AES-encrypted metadata naming the audio format. This crate parses the
//! container, rebuilds the 256-entry key box, recovers the format tag, and
//! strips the XOR keystream from the audio payload.

pub mod bytes;
pub mod consts;
pub mod container;
pub mod crypto;
pub mod decode;
pub mod errors;
pub mod keybox;
pub mod meta;
pub mod stream;
