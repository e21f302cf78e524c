use vstd::prelude::*;

use crate::bytes::copy_range;
use crate::container::{
    audio_off, block_bytes, container_ok, key_off, meta_off, parse_container, parse_err,
};
use crate::errors::DecodeError;
use crate::keybox::{build_key_box, key_box_result};
use crate::meta::{extract_format, format_result};
use crate::stream::{decode_payload, decoded_seq};

verus! {

/// A fully decoded container: the recovered format extension and the decoded
/// audio bytes.
#[derive(Debug, PartialEq, Eq)]
pub struct DecodedAudio {
    /// The audio format extension recovered from the metadata, used verbatim
    /// to name the output file.
    pub format: String,
    /// The decoded audio payload, byte for byte as long as the raw payload.
    pub audio: Vec<u8>,
}

/// What decoding a whole container yields: the parsed container's key blob
/// builds the key box, the metadata blob yields the format, and the audio
/// payload is decoded with the key box's keystream. The first failing stage's
/// rejection is returned, in the order the container is read: layout, key
/// box, metadata.
pub open spec fn decode_result(d: Seq<u8>) -> Result<(Seq<char>, Seq<u8>), DecodeError> {
    if !container_ok(d) {
        Err(parse_err(d))
    } else {
        match key_box_result(block_bytes(d, key_off())) {
            Ok(bx) => match format_result(block_bytes(d, meta_off(d))) {
                Ok(f) => Ok((f, decoded_seq(bx, d.subrange(audio_off(d), d.len() as int), 0))),
                Err(e) => Err(e),
            },
            Err(e) => Err(e),
        }
    }
}

/// Decodes a complete container image: parses the layout, derives the key
/// box, recovers the format, and strips the keystream from the payload.
pub fn decode_container(d: &Vec<u8>) -> (r: Result<DecodedAudio, DecodeError>)
    ensures
        match r {
            Ok(out) => decode_result(d@) == Ok::<(Seq<char>, Seq<u8>), DecodeError>(
                (out.format@, out.audio@),
            ),
            Err(e) => decode_result(d@) == Err::<(Seq<char>, Seq<u8>), DecodeError>(e),
        },
{
    let c = match parse_container(d) {
        Ok(c) => c,
        Err(e) => {
            return Err(e);
        },
    };
    let bx = match build_key_box(&c.key_blob) {
        Ok(bx) => bx,
        Err(e) => {
            return Err(e);
        },
    };
    let format = match extract_format(&c.meta_blob) {
        Ok(f) => f,
        Err(e) => {
            return Err(e);
        },
    };
    let payload = copy_range(d, c.audio_start, d.len());
    let audio = decode_payload(&bx, &payload);
    Ok(DecodedAudio { format, audio })
}

/// Decoding is deterministic: the outcome is a function of the container
/// bytes alone, so any two results that meet the decoder's contract on the
/// same input are byte-identical.
pub proof fn lemma_decode_deterministic(
    d: Seq<u8>,
    r1: Result<(Seq<char>, Seq<u8>), DecodeError>,
    r2: Result<(Seq<char>, Seq<u8>), DecodeError>,
)
    requires
        r1 == decode_result(d),
        r2 == decode_result(d),
    ensures
        r1 == r2,
{
}

/// Length preservation: a successful decode yields exactly as many audio
/// bytes as the raw payload holds, for any payload length including zero.
pub proof fn lemma_decode_length_preserved(d: Seq<u8>)
    requires
        decode_result(d) is Ok,
    ensures
        decode_result(d)->Ok_0.1.len() == d.len() - audio_off(d),
{
}

} // verus!
