use vstd::prelude::*;

verus! {

/// Why decoding a container failed. Every failure is fatal to the file being
/// decoded; nothing is retried.
#[derive(Clone, Copy, Debug, PartialEq, Eq, Structural)]
pub enum DecodeError {
    /// The first eight bytes are not the container signature.
    BadMagic,
    /// The input ends before a declared field or block does.
    Truncated,
    /// AES decryption failed: bad padding or a corrupted blob.
    Cipher,
    /// The scrambled metadata is not valid base64 text after the fixed prefix.
    Encoding,
    /// The decrypted metadata is not a record carrying a "format" string.
    Metadata,
    /// The decrypted key blob leaves no key material after the fixed prefix.
    ShortKey,
}

impl DecodeError {
    /// A short description of the failure, for reporting by callers.
    pub fn message(&self) -> &'static str {
        match self {
            DecodeError::BadMagic => "not a valid container: signature mismatch",
            DecodeError::Truncated => "container is truncated",
            DecodeError::Cipher => "cipher failure: AES padding invalid",
            DecodeError::Encoding => "metadata is not valid base64 text",
            DecodeError::Metadata => "metadata lacks a usable format field",
            DecodeError::ShortKey => "key blob yields no key material",
        }
    }
}

} // verus!
