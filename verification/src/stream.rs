use vstd::prelude::*;

use vstd::arithmetic::div_mod::lemma_mod_add_multiples_vanish;

verus! {

/// The keystream byte applied at payload position `p`: a one-indexed rotating
/// position `j` within a 256-byte cycle picks two entries of the key box,
/// whose sum (mod 256) indexes the keystream value.
pub open spec fn keystream_byte(bx: Seq<u8>, p: int) -> u8 {
    let j = (p % 256 + 1) % 256;
    let a = bx[j] as int;
    bx[(a + bx[(a + j) % 256]) % 256]
}

/// The payload bytes decoded with `bx`, the first byte of `payload` sitting
/// at absolute payload position `start`: a pure per-byte XOR, so the length
/// is kept exactly.
pub open spec fn decoded_seq(bx: Seq<u8>, payload: Seq<u8>, start: int) -> Seq<u8> {
    Seq::new(payload.len(), |i: int| payload[i] ^ keystream_byte(bx, start + i))
}

/// The keystream cycles with period 256: positions `p` and `p + 256` draw the
/// same keystream byte.
pub proof fn lemma_keystream_period(bx: Seq<u8>, p: int)
    ensures
        keystream_byte(bx, p + 256) == keystream_byte(bx, p),
{
    lemma_mod_add_multiples_vanish(p, 256);
}

/// The keystream byte at position `p` of a 256-entry key box.
fn keystream_at(bx: &Vec<u8>, p: usize) -> (r: u8)
    requires
        bx@.len() == 256,
    ensures
        r == keystream_byte(bx@, p as int),
{
    let j = (p % 256 + 1) % 256;
    let a = bx[j] as usize;
    bx[(a + bx[(a + j) % 256] as usize) % 256]
}

/// Decodes one chunk of the audio payload in place. `start` is the absolute
/// payload position of the chunk's first byte, so that chunks of any size
/// keep the keystream aligned.
pub fn decode_chunk(bx: &Vec<u8>, chunk: &mut Vec<u8>, start: usize)
    requires
        bx@.len() == 256,
        start + old(chunk)@.len() <= usize::MAX,
    ensures
        final(chunk)@ == decoded_seq(bx@, old(chunk)@, start as int),
{
    let n = chunk.len();
    let mut i: usize = 0;
    while i < n
        invariant
            i <= n == chunk@.len() == old(chunk)@.len(),
            bx@.len() == 256,
            start + n <= usize::MAX,
            forall|k: int| 0 <= k < i ==> chunk@[k] == (old(chunk)@[k] ^ keystream_byte(
                bx@,
                start + k,
            )),
            forall|k: int| i <= k < n ==> chunk@[k] == old(chunk)@[k],
        decreases n - i,
    {
        let ks = keystream_at(bx, start + i);
        let b = chunk[i];
        chunk.set(i, b ^ ks);
        i = i + 1;
    }
    proof {
        assert(chunk@ =~= decoded_seq(bx@, old(chunk)@, start as int));
    }
}

/// Decodes a whole payload held in memory, returning a fresh vector of the
/// same length. Position 0 of `payload` is payload position 0.
pub fn decode_payload(bx: &Vec<u8>, payload: &Vec<u8>) -> (r: Vec<u8>)
    requires
        bx@.len() == 256,
    ensures
        r@ == decoded_seq(bx@, payload@, 0),
        r@.len() == payload@.len(),
{
    let mut out = copy_all(payload);
    let n = out.len();
    proof {
        // Knowing the length fits in usize meets the chunk's position bound.
        assert(0 + n <= usize::MAX);
    }
    decode_chunk(bx, &mut out, 0);
    out
}

/// Clones the bytes of `d`.
fn copy_all(d: &Vec<u8>) -> (r: Vec<u8>)
    ensures
        r@ == d@,
{
    let mut r: Vec<u8> = Vec::new();
    let mut i: usize = 0;
    while i < d.len()
        invariant
            i <= d@.len(),
            r@ == d@.subrange(0, i as int),
        decreases d@.len() - i,
    {
        r.push(d[i]);
        i = i + 1;
        proof {
            assert(r@ =~= d@.subrange(0, i as int));
        }
    }
    proof {
        assert(r@ =~= d@);
    }
    r
}

} // verus!
