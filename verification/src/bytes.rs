use vstd::prelude::*;

verus! {

/// The little-endian 32-bit value held at offset `off` of `d`.
pub open spec fn le32_at(d: Seq<u8>, off: int) -> int {
    d[off] + 0x100 * d[off + 1] + 0x1_0000 * d[off + 2] + 0x100_0000 * d[off + 3]
}

/// Every byte of `d` XOR-ed with `mask`.
pub open spec fn xor_seq(d: Seq<u8>, mask: u8) -> Seq<u8> {
    Seq::new(d.len(), |i: int| d[i] ^ mask)
}

/// Reads the little-endian `u32` at offset `off`.
pub fn read_le_u32(d: &Vec<u8>, off: usize) -> (r: u32)
    requires
        off + 4 <= d@.len(),
    ensures
        r as int == le32_at(d@, off as int),
{
    let n = d.len();
    proof {
        // Knowing the length fits in usize rules out overflow in the index
        // arithmetic below.
        assert(off + 4 <= n <= usize::MAX);
    }
    let b0 = d[off] as u32;
    let b1 = d[off + 1] as u32;
    let b2 = d[off + 2] as u32;
    let b3 = d[off + 3] as u32;
    b0 + b1 * 0x100 + b2 * 0x1_0000 + b3 * 0x100_0000
}

/// Copies `d[start..end]` into a fresh vector.
pub fn copy_range(d: &Vec<u8>, start: usize, end: usize) -> (r: Vec<u8>)
    requires
        start <= end <= d@.len(),
    ensures
        r@ == d@.subrange(start as int, end as int),
{
    let mut r: Vec<u8> = Vec::new();
    let mut i: usize = start;
    while i < end
        invariant
            start <= i <= end <= d@.len(),
            r@ == d@.subrange(start as int, i as int),
        decreases end - i,
    {
        r.push(d[i]);
        i = i + 1;
        proof {
            assert(r@ =~= d@.subrange(start as int, i as int));
        }
    }
    r
}

/// XORs every byte of `d` with `mask`, undoing the trivial scramble layer.
pub fn xor_with(d: &Vec<u8>, mask: u8) -> (r: Vec<u8>)
    ensures
        r@ == xor_seq(d@, mask),
{
    let mut r: Vec<u8> = Vec::new();
    let mut i: usize = 0;
    while i < d.len()
        invariant
            i <= d@.len(),
            r@.len() == i,
            forall|k: int| 0 <= k < i ==> r@[k] == (d@[k] ^ mask),
        decreases d@.len() - i,
    {
        r.push(d[i] ^ mask);
        i = i + 1;
    }
    proof {
        assert(r@ =~= xor_seq(d@, mask));
    }
    r
}

} // verus!
