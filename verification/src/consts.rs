use vstd::prelude::*;

verus! {

/// Single-byte mask XOR-ed over the key blob before AES decryption.
pub const KEY_MASK: u8 = 0x64;

/// Single-byte mask XOR-ed over the metadata blob before base64 decoding.
pub const META_MASK: u8 = 0x63;

/// Bytes of the decrypted key blob discarded before key scheduling.
pub const KEY_PREFIX_LEN: usize = 17;

/// Characters of the scrambled metadata discarded before base64 decoding.
pub const META_B64_PREFIX_LEN: usize = 22;

/// Characters of the decrypted metadata discarded before JSON parsing.
pub const META_JSON_PREFIX_LEN: usize = 6;

/// The eight-byte signature that opens every container.
pub open spec fn magic_seq() -> Seq<u8> {
    seq![0x43u8, 0x54u8, 0x45u8, 0x4eu8, 0x46u8, 0x44u8, 0x41u8, 0x4du8]
}

/// The fixed 128-bit AES key for the key blob.
pub open spec fn core_key_seq() -> Seq<u8> {
    seq![
        0x68u8, 0x7au8, 0x48u8, 0x52u8, 0x41u8, 0x6du8, 0x73u8, 0x6fu8,
        0x35u8, 0x6bu8, 0x49u8, 0x6eu8, 0x62u8, 0x61u8, 0x78u8, 0x57u8,
    ]
}

/// The fixed 128-bit AES key for the metadata blob.
pub open spec fn meta_key_seq() -> Seq<u8> {
    seq![
        0x23u8, 0x31u8, 0x34u8, 0x6cu8, 0x6au8, 0x6bu8, 0x5fu8, 0x21u8,
        0x5cu8, 0x5du8, 0x26u8, 0x30u8, 0x55u8, 0x3cu8, 0x27u8, 0x28u8,
    ]
}

/// The container signature as runtime bytes.
pub fn magic_bytes() -> (r: [u8; 8])
    ensures
        r@ == magic_seq(),
{
    let r: [u8; 8] = [0x43, 0x54, 0x45, 0x4e, 0x46, 0x44, 0x41, 0x4d];
    proof {
        assert(r@ =~= magic_seq());
    }
    r
}

/// The key-blob AES key as runtime bytes.
pub fn core_key() -> (r: [u8; 16])
    ensures
        r@ == core_key_seq(),
{
    let r: [u8; 16] = [
        0x68, 0x7a, 0x48, 0x52, 0x41, 0x6d, 0x73, 0x6f,
        0x35, 0x6b, 0x49, 0x6e, 0x62, 0x61, 0x78, 0x57,
    ];
    proof {
        assert(r@ =~= core_key_seq());
    }
    r
}

/// The metadata AES key as runtime bytes.
pub fn meta_key() -> (r: [u8; 16])
    ensures
        r@ == meta_key_seq(),
{
    let r: [u8; 16] = [
        0x23, 0x31, 0x34, 0x6c, 0x6a, 0x6b, 0x5f, 0x21,
        0x5c, 0x5d, 0x26, 0x30, 0x55, 0x3c, 0x27, 0x28,
    ];
    proof {
        assert(r@ =~= meta_key_seq());
    }
    r
}

} // verus!
