use vstd::prelude::*;

use crate::bytes::{copy_range, le32_at, read_le_u32};
use crate::consts::{magic_bytes, magic_seq};
use crate::errors::DecodeError;

verus! {

/// True when `d` opens with the fixed eight-byte signature.
pub open spec fn has_magic(d: Seq<u8>) -> bool {
    d.len() >= 8 && d.subrange(0, 8) == magic_seq()
}

/// End of the length-prefixed block whose four length bytes sit at `off`.
pub open spec fn block_end(d: Seq<u8>, off: int) -> int {
    off + 4 + le32_at(d, off)
}

/// True when the block whose length prefix sits at `off` lies inside `d`.
pub open spec fn block_fits(d: Seq<u8>, off: int) -> bool {
    off + 4 <= d.len() && block_end(d, off) <= d.len()
}

/// The bytes of the length-prefixed block at `off`.
pub open spec fn block_bytes(d: Seq<u8>, off: int) -> Seq<u8> {
    d.subrange(off + 4, block_end(d, off))
}

/// Offset of the key blob's length prefix: signature plus the skipped
/// two-byte checksum.
pub open spec fn key_off() -> int {
    10
}

/// Offset of the metadata blob's length prefix.
pub open spec fn meta_off(d: Seq<u8>) -> int {
    block_end(d, key_off())
}

/// Offset of the cover-art block's length prefix: past the metadata block
/// and the skipped four-byte flag and four-byte cover CRC.
pub open spec fn cover_off(d: Seq<u8>) -> int {
    block_end(d, meta_off(d)) + 8
}

/// Offset of the first audio-payload byte.
pub open spec fn audio_off(d: Seq<u8>) -> int {
    block_end(d, cover_off(d))
}

/// True when `d` carries the signature and all three declared blocks lie
/// inside it.
pub open spec fn container_ok(d: Seq<u8>) -> bool {
    &&& has_magic(d)
    &&& block_fits(d, key_off())
    &&& block_fits(d, meta_off(d))
    &&& block_fits(d, cover_off(d))
}

/// Which rejection a malformed container draws: a signature mismatch is
/// reported as such; everything else is a truncation.
pub open spec fn parse_err(d: Seq<u8>) -> DecodeError {
    if d.len() >= 8 && d.subrange(0, 8) != magic_seq() {
        DecodeError::BadMagic
    } else {
        DecodeError::Truncated
    }
}

/// The two encrypted blobs of a container, and where its audio payload
/// begins.
pub struct Container {
    /// The AES-encrypted, XOR-scrambled key blob.
    pub key_blob: Vec<u8>,
    /// The AES-encrypted, XOR-scrambled metadata blob.
    pub meta_blob: Vec<u8>,
    /// Offset of the first audio byte; the payload runs to the end.
    pub audio_start: usize,
}

/// Parses the fixed container layout: signature, skipped checksum, key blob,
/// metadata blob, skipped flag and cover CRC, skipped cover block. Rejects a
/// signature mismatch before reading any blob, and any declared length that
/// runs past the end of the input.
pub fn parse_container(d: &Vec<u8>) -> (r: Result<Container, DecodeError>)
    ensures
        match r {
            Ok(c) => {
                &&& container_ok(d@)
                &&& c.key_blob@ == block_bytes(d@, key_off())
                &&& c.meta_blob@ == block_bytes(d@, meta_off(d@))
                &&& c.audio_start == audio_off(d@)
                &&& c.audio_start <= d@.len()
            },
            Err(e) => !container_ok(d@) && e == parse_err(d@),
        },
{
    let n = d.len();
    if n < 8 {
        return Err(DecodeError::Truncated);
    }
    let magic = magic_bytes();
    let mut i: usize = 0;
    while i < 8
        invariant
            i <= 8,
            n == d@.len() >= 8,
            magic@ == magic_seq(),
            forall|k: int| 0 <= k < i ==> d@[k] == magic_seq()[k],
        decreases 8 - i,
    {
        if d[i] != magic[i] {
            proof {
                assert(d@.subrange(0, 8)[i as int] != magic_seq()[i as int]);
            }
            return Err(DecodeError::BadMagic);
        }
        i = i + 1;
    }
    proof {
        assert(d@.subrange(0, 8) =~= magic_seq());
    }

    // Key blob, its length prefix at offset 10 (after the skipped checksum).
    if n < 14 {
        return Err(DecodeError::Truncated);
    }
    let key_len = read_le_u32(d, 10) as usize;
    if key_len > n - 14 {
        return Err(DecodeError::Truncated);
    }
    let key_blob = copy_range(d, 14, 14 + key_len);
    let key_end: usize = 14 + key_len;
    proof {
        assert(key_end == block_end(d@, key_off()));
        assert(block_fits(d@, key_off()));
    }

    // Metadata blob.
    if n - key_end < 4 {
        proof {
            assert(!block_fits(d@, meta_off(d@)));
        }
        return Err(DecodeError::Truncated);
    }
    let meta_len = read_le_u32(d, key_end) as usize;
    if meta_len > n - (key_end + 4) {
        return Err(DecodeError::Truncated);
    }
    let meta_blob = copy_range(d, key_end + 4, key_end + 4 + meta_len);
    let meta_end: usize = key_end + 4 + meta_len;
    proof {
        assert(meta_end == block_end(d@, meta_off(d@)));
        assert(block_fits(d@, meta_off(d@)));
    }

    // Skipped flag and cover CRC, then the skipped cover block.
    if n - meta_end < 12 {
        proof {
            assert(!block_fits(d@, cover_off(d@)));
        }
        return Err(DecodeError::Truncated);
    }
    let cover_pos: usize = meta_end + 8;
    let cover_len = read_le_u32(d, cover_pos) as usize;
    if cover_len > n - (cover_pos + 4) {
        return Err(DecodeError::Truncated);
    }
    let audio_start: usize = cover_pos + 4 + cover_len;
    proof {
        assert(audio_start == audio_off(d@));
        assert(block_fits(d@, cover_off(d@)));
    }
    Ok(Container { key_blob, meta_blob, audio_start })
}

} // verus!
