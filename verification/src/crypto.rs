use vstd::prelude::*;

use base64ct::Encoding;
use ecb::cipher::block_padding::Pkcs7;
use ecb::cipher::{BlockModeDecrypt, KeyInit};

verus! {

/// What AES-128-ECB decryption with PKCS#7 unpadding yields for a key and a
/// ciphertext: `Some` plaintext, or `None` when the ciphertext length is not a
/// multiple of the block size or the padding is malformed. The outcome is a
/// function of the key and the ciphertext alone.
pub uninterp spec fn aes_plain_of(key: Seq<u8>, cipher: Seq<u8>) -> Option<Seq<u8>>;

/// What strict base64 decoding yields for the given text bytes: `Some`
/// decoded bytes, or `None` when they are not valid padded base64. The
/// outcome is a function of the input bytes alone.
pub uninterp spec fn base64_decoded_of(text: Seq<u8>) -> Option<Seq<u8>>;

/// The "format" member that JSON parsing of the given bytes yields: `Some`
/// of the member's string value when the bytes parse as a JSON value whose
/// "format" member is a string, `None` otherwise. The outcome is a function
/// of the input bytes alone.
pub uninterp spec fn json_format_of(text: Seq<u8>) -> Option<Seq<char>>;

/// Relies on `cipher::BlockModeDecrypt::decrypt_padded_vec` through
/// `ecb::Decryptor<aes::Aes128>`: AES-128-ECB decryption with PKCS#7
/// unpadding, which errs exactly on malformed padding or a ciphertext whose
/// length is not a multiple of the block size.
#[verifier::external_body]
pub(crate) fn aes_ecb_decrypt(key: &[u8; 16], data: &Vec<u8>) -> (r: Option<Vec<u8>>)
    ensures
        match r {
            Some(p) => aes_plain_of(key@, data@) == Some(p@),
            None => aes_plain_of(key@, data@) == None::<Seq<u8>>,
        },
{
    let k: [u8; 16] = *key;
    let dec = ecb::Decryptor::<aes::Aes128>::new(&k.into());
    dec.decrypt_padded_vec::<Pkcs7>(data).ok()
}

/// Relies on `base64ct::Base64::decode_vec`: strict RFC 4648 base64 decoding
/// with padding; bytes that are not ASCII base64 text are rejected.
#[verifier::external_body]
pub(crate) fn base64_decode(text: &Vec<u8>) -> (r: Option<Vec<u8>>)
    ensures
        match r {
            Some(b) => base64_decoded_of(text@) == Some(b@),
            None => base64_decoded_of(text@) == None::<Seq<u8>>,
        },
{
    match core::str::from_utf8(text) {
        Ok(s) => base64ct::Base64::decode_vec(s).ok(),
        Err(_) => None,
    }
}

/// Relies on `serde_json::from_slice` and `serde_json::Value::{get, as_str}`:
/// parses the bytes as JSON and reads the "format" member as a string.
#[verifier::external_body]
pub(crate) fn json_format_field(text: &Vec<u8>) -> (r: Option<String>)
    ensures
        match r {
            Some(s) => json_format_of(text@) == Some(s@),
            None => json_format_of(text@) == None::<Seq<char>>,
        },
{
    match serde_json::from_slice::<serde_json::Value>(text) {
        Ok(v) => match v.get("format") {
            Some(f) => match f.as_str() {
                Some(s) => Some(s.to_string()),
                None => None,
            },
            None => None,
        },
        Err(_) => None,
    }
}

} // verus!
