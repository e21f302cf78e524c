use vstd::prelude::*;

use crate::bytes::{copy_range, xor_seq, xor_with};
use crate::consts::{core_key, core_key_seq, KEY_MASK, KEY_PREFIX_LEN};
use crate::crypto::{aes_ecb_decrypt, aes_plain_of};
use crate::errors::DecodeError;

verus! {

/// A key box: a permutation of 0..255 in 256 slots — no two slots agree and
/// every byte value appears.
pub open spec fn is_key_box(s: Seq<u8>) -> bool {
    &&& s.len() == 256
    &&& forall|p: int, q: int|
        0 <= p < 256 && 0 <= q < 256 && p != q ==> s[p] != s[q]
    &&& forall|v: int| 0 <= v < 256 ==> #[trigger] s.contains(v as u8)
}

/// The identity permutation that the key schedule starts from.
pub open spec fn identity_box() -> Seq<u8> {
    Seq::new(256, |i: int| i as u8)
}

/// One key-scheduling step at index `i`: pick `c` from the running
/// accumulator and the next key byte, swap slots `i` and `c`, and advance the
/// key cursor with wrap-around. Returns the new box, the new accumulator and
/// the new cursor.
pub open spec fn ks_step(bx: Seq<u8>, last: int, off: int, key: Seq<u8>, i: int) -> (
    Seq<u8>,
    int,
    int,
) {
    let c = (bx[i] + last + key[off]) % 256;
    let nbx = bx.update(i, bx[c]).update(c, bx[i]);
    let noff = if off + 1 >= key.len() {
        0
    } else {
        off + 1
    };
    (nbx, c, noff)
}

/// The key-schedule state (box, accumulator, cursor) after the first `n`
/// steps over `key`.
pub open spec fn ks_state(key: Seq<u8>, n: nat) -> (Seq<u8>, int, int)
    decreases n,
{
    if n == 0 {
        (identity_box(), 0, 0)
    } else {
        let prev = ks_state(key, (n - 1) as nat);
        ks_step(prev.0, prev.1, prev.2, key, n - 1)
    }
}

/// The finished key box for the given key material: the state after all 256
/// steps.
pub open spec fn key_schedule(key: Seq<u8>) -> Seq<u8> {
    ks_state(key, 256).0
}

/// What building the key box from a raw key blob yields: the blob is
/// descrambled and AES-decrypted, the fixed prefix is discarded, and the key
/// schedule runs over what is left; a cipher failure or an empty remainder is
/// rejected.
pub open spec fn key_box_result(key_blob: Seq<u8>) -> Result<Seq<u8>, DecodeError> {
    match aes_plain_of(core_key_seq(), xor_seq(key_blob, KEY_MASK)) {
        Some(plain) => if plain.len() <= KEY_PREFIX_LEN {
            Err(DecodeError::ShortKey)
        } else {
            Ok(key_schedule(plain.skip(KEY_PREFIX_LEN as int)))
        },
        None => Err(DecodeError::Cipher),
    }
}

/// Swapping two slots of a key box leaves a key box.
proof fn lemma_swap_preserves_key_box(s: Seq<u8>, i: int, c: int)
    requires
        is_key_box(s),
        0 <= i < 256,
        0 <= c < 256,
    ensures
        is_key_box(s.update(i, s[c]).update(c, s[i])),
{
    let t = s.update(i, s[c]).update(c, s[i]);
    assert forall|p: int, q: int|
        0 <= p < 256 && 0 <= q < 256 && p != q implies t[p] != t[q] by {
        assert(t[p] == s[if p == c { i } else if p == i { c } else { p }]);
        assert(t[q] == s[if q == c { i } else if q == i { c } else { q }]);
    }
    assert forall|v: int| 0 <= v < 256 implies #[trigger] t.contains(v as u8) by {
        assert(s.contains(v as u8));
        let j = choose|j: int| 0 <= j < s.len() && s[j] == v as u8;
        if j == i {
            assert(t[c] == v as u8);
        } else if j == c {
            assert(t[i] == v as u8);
        } else {
            assert(t[j] == v as u8);
        }
    }
}

/// The identity table is a key box.
proof fn lemma_identity_is_key_box()
    ensures
        is_key_box(identity_box()),
{
    let s = identity_box();
    assert forall|v: int| 0 <= v < 256 implies #[trigger] s.contains(v as u8) by {
        assert(s[v] == v as u8);
    }
}

/// Every key-schedule state is a key box with its accumulator in range.
proof fn lemma_ks_state_key_box(key: Seq<u8>, n: nat)
    requires
        n <= 256,
    ensures
        is_key_box(ks_state(key, n).0),
        0 <= ks_state(key, n).1 < 256,
    decreases n,
{
    if n == 0 {
        lemma_identity_is_key_box();
    } else {
        let prev = ks_state(key, (n - 1) as nat);
        lemma_ks_state_key_box(key, (n - 1) as nat);
        let c = (prev.0[n - 1] + prev.1 + key[prev.2]) % 256;
        lemma_swap_preserves_key_box(prev.0, n - 1, c);
    }
}

/// The key schedule always yields a permutation of 0..255, whatever the key
/// material.
pub proof fn lemma_key_schedule_is_key_box(key: Seq<u8>)
    ensures
        is_key_box(key_schedule(key)),
{
    lemma_ks_state_key_box(key, 256);
}

/// Runs the 256-step key-scheduling pass seeded by non-empty key material.
pub fn build_key_box_from_material(key: &Vec<u8>) -> (r: Vec<u8>)
    requires
        key@.len() > 0,
    ensures
        r@ == key_schedule(key@),
        is_key_box(r@),
{
    let klen = key.len();
    let mut bx: Vec<u8> = Vec::new();
    let mut i: usize = 0;
    while i < 256
        invariant
            i <= 256,
            bx@.len() == i,
            forall|k: int| 0 <= k < i ==> bx@[k] == k as u8,
        decreases 256 - i,
    {
        bx.push(i as u8);
        i = i + 1;
    }
    proof {
        assert(bx@ =~= identity_box());
        assert(ks_state(key@, 0) == (identity_box(), 0int, 0int));
    }
    let mut last: usize = 0;
    let mut off: usize = 0;
    let mut i: usize = 0;
    while i < 256
        invariant
            i <= 256,
            klen == key@.len() > 0,
            bx@.len() == 256,
            last < 256,
            off < klen,
            (bx@, last as int, off as int) == ks_state(key@, i as nat),
        decreases 256 - i,
    {
        let ghost prev = ks_state(key@, i as nat);
        let swap = bx[i];
        let c = ((swap as usize) + last + (key[off] as usize)) % 256;
        off = off + 1;
        if off >= klen {
            off = 0;
        }
        let bc = bx[c];
        bx.set(i, bc);
        bx.set(c, swap);
        last = c;
        i = i + 1;
        proof {
            assert(c as int == (prev.0[i - 1] + prev.1 + key@[prev.2]) % 256);
            assert(bx@ =~= prev.0.update(i - 1, prev.0[c as int]).update(c as int, prev.0[i - 1]));
            assert(ks_state(key@, i as nat) == ks_step(prev.0, prev.1, prev.2, key@, i - 1));
            assert((bx@, last as int, off as int) == ks_state(key@, i as nat));
        }
    }
    proof {
        lemma_key_schedule_is_key_box(key@);
    }
    bx
}

/// Builds the key box from the container's raw key blob: XOR-descramble with
/// the fixed mask, AES-decrypt with the fixed key, discard the fixed prefix,
/// and run the key schedule over the remainder.
pub fn build_key_box(key_blob: &Vec<u8>) -> (r: Result<Vec<u8>, DecodeError>)
    ensures
        match r {
            Ok(bx) => key_box_result(key_blob@) == Ok::<Seq<u8>, DecodeError>(bx@)
                && is_key_box(bx@),
            Err(e) => key_box_result(key_blob@) == Err::<Seq<u8>, DecodeError>(e),
        },
{
    let scrambled = xor_with(key_blob, KEY_MASK);
    match aes_ecb_decrypt(&core_key(), &scrambled) {
        Some(plain) => {
            if plain.len() <= KEY_PREFIX_LEN {
                Err(DecodeError::ShortKey)
            } else {
                let material = copy_range(&plain, KEY_PREFIX_LEN, plain.len());
                proof {
                    assert(material@ =~= plain@.skip(KEY_PREFIX_LEN as int));
                }
                Ok(build_key_box_from_material(&material))
            }
        },
        None => Err(DecodeError::Cipher),
    }
}

} // verus!
