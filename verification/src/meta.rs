use vstd::prelude::*;

use crate::bytes::{copy_range, xor_seq, xor_with};
use crate::consts::{meta_key, meta_key_seq, META_B64_PREFIX_LEN, META_JSON_PREFIX_LEN, META_MASK};
use crate::crypto::{
    aes_ecb_decrypt, aes_plain_of, base64_decode, base64_decoded_of, json_format_field,
    json_format_of,
};
use crate::errors::DecodeError;

verus! {

/// What extracting the audio format from a raw metadata blob yields: the blob
/// is descrambled with the fixed mask, its fixed textual prefix is discarded,
/// the rest is base64-decoded and AES-decrypted, a second fixed prefix is
/// discarded, and the remaining JSON record's "format" string is returned.
/// Each stage's failure is a distinct rejection.
pub open spec fn format_result(meta_blob: Seq<u8>) -> Result<Seq<char>, DecodeError> {
    let descrambled = xor_seq(meta_blob, META_MASK);
    if descrambled.len() < META_B64_PREFIX_LEN {
        Err(DecodeError::Encoding)
    } else {
        match base64_decoded_of(descrambled.skip(META_B64_PREFIX_LEN as int)) {
            Some(cipher) => match aes_plain_of(meta_key_seq(), cipher) {
                Some(plain) => if plain.len() < META_JSON_PREFIX_LEN {
                    Err(DecodeError::Metadata)
                } else {
                    match json_format_of(plain.skip(META_JSON_PREFIX_LEN as int)) {
                        Some(f) => Ok(f),
                        None => Err(DecodeError::Metadata),
                    }
                },
                None => Err(DecodeError::Cipher),
            },
            None => Err(DecodeError::Encoding),
        }
    }
}

/// Recovers the audio format extension (such as "mp3" or "flac") from the
/// container's raw metadata blob.
pub fn extract_format(meta_blob: &Vec<u8>) -> (r: Result<String, DecodeError>)
    ensures
        match r {
            Ok(f) => format_result(meta_blob@) == Ok::<Seq<char>, DecodeError>(f@),
            Err(e) => format_result(meta_blob@) == Err::<Seq<char>, DecodeError>(e),
        },
{
    let descrambled = xor_with(meta_blob, META_MASK);
    if descrambled.len() < META_B64_PREFIX_LEN {
        return Err(DecodeError::Encoding);
    }
    let encoded = copy_range(&descrambled, META_B64_PREFIX_LEN, descrambled.len());
    proof {
        assert(encoded@ =~= xor_seq(meta_blob@, META_MASK).skip(META_B64_PREFIX_LEN as int));
    }
    match base64_decode(&encoded) {
        Some(cipher) => match aes_ecb_decrypt(&meta_key(), &cipher) {
            Some(plain) => {
                if plain.len() < META_JSON_PREFIX_LEN {
                    Err(DecodeError::Metadata)
                } else {
                    let record = copy_range(&plain, META_JSON_PREFIX_LEN, plain.len());
                    proof {
                        assert(record@ =~= plain@.skip(META_JSON_PREFIX_LEN as int));
                    }
                    match json_format_field(&record) {
                        Some(f) => Ok(f),
                        None => Err(DecodeError::Metadata),
                    }
                }
            },
            None => Err(DecodeError::Cipher),
        },
        None => Err(DecodeError::Encoding),
    }
}

} // verus!
