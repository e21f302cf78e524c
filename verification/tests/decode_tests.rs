use base64ct::Encoding;
use ecb::cipher::block_padding::Pkcs7;
use ecb::cipher::{BlockModeEncrypt, KeyInit};

use ncmdec::decode::decode_container;
use ncmdec::errors::DecodeError;
use ncmdec::keybox::build_key_box_from_material;
use ncmdec::meta::extract_format;

const CORE_KEY: [u8; 16] = [
    0x68, 0x7a, 0x48, 0x52, 0x41, 0x6d, 0x73, 0x6f, 0x35, 0x6b, 0x49, 0x6e, 0x62, 0x61, 0x78,
    0x57,
];
const META_KEY: [u8; 16] = [
    0x23, 0x31, 0x34, 0x6c, 0x6a, 0x6b, 0x5f, 0x21, 0x5c, 0x5d, 0x26, 0x30, 0x55, 0x3c, 0x27,
    0x28,
];
const MAGIC: [u8; 8] = [0x43, 0x54, 0x45, 0x4e, 0x46, 0x44, 0x41, 0x4d];

fn aes_encrypt(key: [u8; 16], msg: &[u8]) -> Vec<u8> {
    ecb::Encryptor::<aes::Aes128>::new(&key.into()).encrypt_padded_vec::<Pkcs7>(msg)
}

/// An encrypted key blob whose decrypted form is 17 prefix bytes followed by
/// `material`.
fn make_key_blob(material: &[u8]) -> Vec<u8> {
    let mut plain = vec![0u8; 17];
    plain.extend_from_slice(material);
    let mut blob = aes_encrypt(CORE_KEY, &plain);
    for b in blob.iter_mut() {
        *b ^= 0x64;
    }
    blob
}

/// An encrypted metadata blob whose decrypted form is "music:" followed by
/// `json`.
fn make_meta_blob(json: &[u8]) -> Vec<u8> {
    let mut plain = b"music:".to_vec();
    plain.extend_from_slice(json);
    let cipher = aes_encrypt(META_KEY, &plain);
    let encoded = base64ct::Base64::encode_string(&cipher);
    let mut text = vec![b'#'; 22];
    text.extend_from_slice(encoded.as_bytes());
    for b in text.iter_mut() {
        *b ^= 0x63;
    }
    text
}

fn make_container(key_blob: &[u8], meta_blob: &[u8], cover: &[u8], audio: &[u8]) -> Vec<u8> {
    let mut d = MAGIC.to_vec();
    d.extend_from_slice(&[0u8, 0u8]); // skipped checksum
    d.extend_from_slice(&(key_blob.len() as u32).to_le_bytes());
    d.extend_from_slice(key_blob);
    d.extend_from_slice(&(meta_blob.len() as u32).to_le_bytes());
    d.extend_from_slice(meta_blob);
    d.extend_from_slice(&[0u8; 4]); // skipped flag
    d.extend_from_slice(&[0u8; 4]); // skipped cover CRC
    d.extend_from_slice(&(cover.len() as u32).to_le_bytes());
    d.extend_from_slice(cover);
    d.extend_from_slice(audio);
    d
}

/// An independent rendering of the key schedule, to check the library
/// against.
fn reference_key_box(material: &[u8]) -> [usize; 256] {
    let mut key_box = [0usize; 256];
    for (i, s) in key_box.iter_mut().enumerate() {
        *s = i;
    }
    let mut last_byte = 0usize;
    let mut offset = 0usize;
    for i in 0..=255usize {
        let swap = key_box[i];
        let c = (swap + last_byte + material[offset] as usize) & 0xff;
        offset += 1;
        if offset >= material.len() {
            offset = 0;
        }
        key_box[i] = key_box[c];
        key_box[c] = swap;
        last_byte = c;
    }
    key_box
}

fn reference_keystream(key_box: &[usize; 256], p: usize) -> u8 {
    let j = (p % 256 + 1) % 256;
    let key_index = (key_box[j] + key_box[(key_box[j] + j) & 0xff]) & 0xff;
    key_box[key_index] as u8
}

#[test]
fn concrete_scenario_mp3() {
    // A synthetic container: key material 1..=32, format "mp3", ten zero
    // audio bytes. Decoding must yield exactly the first ten keystream bytes
    // of the derived key box.
    let material: Vec<u8> = (1u8..=32).collect();
    let key_blob = make_key_blob(&material);
    let meta_blob = make_meta_blob(br#"{"format":"mp3"}"#);
    let d = make_container(&key_blob, &meta_blob, b"cover", &[0u8; 10]);
    let out = decode_container(&d).unwrap();
    assert_eq!(out.format, "mp3");
    let kb = reference_key_box(&material);
    let expected: Vec<u8> = (0..10).map(|p| reference_keystream(&kb, p)).collect();
    assert_eq!(out.audio, expected);
}

#[test]
fn format_extraction_flac() {
    let meta_blob = make_meta_blob(br#"{"format":"flac","bitrate":321000,"duration":200}"#);
    let f = extract_format(&meta_blob).unwrap();
    assert_eq!(f, "flac");
}

#[test]
fn nonzero_audio_round_trip() {
    // Applying the keystream twice gives the original bytes back, so decoding
    // a "decoded" payload re-encodes it.
    let material: Vec<u8> = (0u8..=255).rev().collect();
    let key_blob = make_key_blob(&material);
    let meta_blob = make_meta_blob(br#"{"format":"ogg"}"#);
    let audio: Vec<u8> = (0..600u32).map(|i| (i * 7 % 251) as u8).collect();
    let d = make_container(&key_blob, &meta_blob, &[], &audio);
    let out = decode_container(&d).unwrap();
    assert_eq!(out.audio.len(), audio.len());
    let d2 = make_container(&key_blob, &meta_blob, &[], &out.audio);
    let back = decode_container(&d2).unwrap();
    assert_eq!(back.audio, audio);
}

#[test]
fn repeated_decodes_are_identical() {
    let key_blob = make_key_blob(&[9u8; 40]);
    let meta_blob = make_meta_blob(br#"{"format":"mp3"}"#);
    let audio: Vec<u8> = (0..100u8).collect();
    let d = make_container(&key_blob, &meta_blob, b"art", &audio);
    let a = decode_container(&d).unwrap();
    let b = decode_container(&d).unwrap();
    assert_eq!(a.format, b.format);
    assert_eq!(a.audio, b.audio);
}

#[test]
fn empty_audio_payload() {
    let key_blob = make_key_blob(&[1u8]);
    let meta_blob = make_meta_blob(br#"{"format":"mp3"}"#);
    let d = make_container(&key_blob, &meta_blob, &[], &[]);
    let out = decode_container(&d).unwrap();
    assert_eq!(out.audio.len(), 0);
}

#[test]
fn keystream_period_is_256() {
    // On an all-zero payload the output is the keystream itself, which must
    // repeat with period 256.
    let key_blob = make_key_blob(&[5u8, 77, 200]);
    let meta_blob = make_meta_blob(br#"{"format":"mp3"}"#);
    let d = make_container(&key_blob, &meta_blob, &[], &[0u8; 520]);
    let out = decode_container(&d).unwrap();
    for p in 0..264 {
        assert_eq!(out.audio[p], out.audio[p + 256]);
    }
}

#[test]
fn key_box_is_permutation() {
    let material: Vec<u8> = (1u8..=32).collect();
    let bx = build_key_box_from_material(&material);
    assert_eq!(bx.len(), 256);
    let mut seen = [false; 256];
    for &v in bx.iter() {
        assert!(!seen[v as usize]);
        seen[v as usize] = true;
    }
    assert!(seen.iter().all(|&s| s));
}

#[test]
fn key_box_single_byte_material() {
    let bx = build_key_box_from_material(&vec![0u8]);
    let reference = reference_key_box(&[0u8]);
    for i in 0..256 {
        assert_eq!(bx[i] as usize, reference[i]);
    }
}

#[test]
fn magic_mismatch_is_rejected() {
    let key_blob = make_key_blob(&[1u8; 16]);
    let meta_blob = make_meta_blob(br#"{"format":"mp3"}"#);
    let mut d = make_container(&key_blob, &meta_blob, &[], &[1, 2, 3]);
    d[0] ^= 0xff;
    assert_eq!(decode_container(&d), Err(DecodeError::BadMagic));
}

#[test]
fn short_input_is_truncated() {
    assert_eq!(decode_container(&vec![]), Err(DecodeError::Truncated));
    assert_eq!(
        decode_container(&MAGIC.to_vec()),
        Err(DecodeError::Truncated)
    );
}

#[test]
fn oversized_key_blob_length_is_truncated() {
    // The declared key-blob length runs past the end of the input.
    let mut d = MAGIC.to_vec();
    d.extend_from_slice(&[0u8, 0u8]);
    d.extend_from_slice(&1000u32.to_le_bytes());
    d.extend_from_slice(&[0u8; 20]);
    assert_eq!(decode_container(&d), Err(DecodeError::Truncated));
}

#[test]
fn missing_cover_block_is_truncated() {
    let key_blob = make_key_blob(&[1u8; 16]);
    let meta_blob = make_meta_blob(br#"{"format":"mp3"}"#);
    let full = make_container(&key_blob, &meta_blob, &[], &[]);
    // Cut the container off inside the flag/CRC/cover region.
    let cut = full.len() - 7;
    let d = full[..cut].to_vec();
    assert_eq!(decode_container(&d), Err(DecodeError::Truncated));
}

#[test]
fn undecryptable_key_blob_is_cipher_error() {
    // 15 bytes cannot be an AES-ECB ciphertext.
    let key_blob = vec![3u8; 15];
    let meta_blob = make_meta_blob(br#"{"format":"mp3"}"#);
    let d = make_container(&key_blob, &meta_blob, &[], &[]);
    assert_eq!(decode_container(&d), Err(DecodeError::Cipher));
}

#[test]
fn bad_padding_key_blob_is_cipher_error() {
    // An arbitrary 16-byte block decrypts to garbage whose padding is
    // invalid, so decryption reports a cipher failure.
    let mut key_blob = vec![0u8; 16];
    for (i, b) in key_blob.iter_mut().enumerate() {
        *b = (i * 37 + 11) as u8;
    }
    let meta_blob = make_meta_blob(br#"{"format":"mp3"}"#);
    let d = make_container(&key_blob, &meta_blob, &[], &[]);
    assert_eq!(decode_container(&d), Err(DecodeError::Cipher));
}

#[test]
fn empty_key_material_is_rejected() {
    // Decrypts fine but leaves nothing after the 17-byte prefix.
    let key_blob = make_key_blob(&[]);
    let meta_blob = make_meta_blob(br#"{"format":"mp3"}"#);
    let d = make_container(&key_blob, &meta_blob, &[], &[]);
    assert_eq!(decode_container(&d), Err(DecodeError::ShortKey));
}

#[test]
fn short_meta_blob_is_encoding_error() {
    let key_blob = make_key_blob(&[1u8; 16]);
    let meta_blob = vec![0u8; 10]; // shorter than the 22-byte prefix
    let d = make_container(&key_blob, &meta_blob, &[], &[]);
    assert_eq!(decode_container(&d), Err(DecodeError::Encoding));
}

#[test]
fn invalid_base64_is_encoding_error() {
    let key_blob = make_key_blob(&[1u8; 16]);
    let mut meta_blob = vec![b'#'; 22];
    meta_blob.extend_from_slice(b"!!!not base64!!!");
    for b in meta_blob.iter_mut() {
        *b ^= 0x63;
    }
    let d = make_container(&key_blob, &meta_blob, &[], &[]);
    assert_eq!(decode_container(&d), Err(DecodeError::Encoding));
}

#[test]
fn undecryptable_meta_is_cipher_error() {
    // Valid base64 whose decoded bytes are not a whole number of AES blocks.
    let key_blob = make_key_blob(&[1u8; 16]);
    let encoded = base64ct::Base64::encode_string(&[7u8; 10]);
    let mut meta_blob = vec![b'#'; 22];
    meta_blob.extend_from_slice(encoded.as_bytes());
    for b in meta_blob.iter_mut() {
        *b ^= 0x63;
    }
    let d = make_container(&key_blob, &meta_blob, &[], &[]);
    assert_eq!(decode_container(&d), Err(DecodeError::Cipher));
}

#[test]
fn missing_format_field_is_metadata_error() {
    let key_blob = make_key_blob(&[1u8; 16]);
    let meta_blob = make_meta_blob(br#"{"artist":"someone"}"#);
    let d = make_container(&key_blob, &meta_blob, &[], &[]);
    assert_eq!(decode_container(&d), Err(DecodeError::Metadata));
}

#[test]
fn non_string_format_is_metadata_error() {
    let key_blob = make_key_blob(&[1u8; 16]);
    let meta_blob = make_meta_blob(br#"{"format":7}"#);
    let d = make_container(&key_blob, &meta_blob, &[], &[]);
    assert_eq!(decode_container(&d), Err(DecodeError::Metadata));
}

#[test]
fn short_decrypted_meta_is_metadata_error() {
    // Decrypts fine but is shorter than the six-character prefix.
    let key_blob = make_key_blob(&[1u8; 16]);
    let cipher = aes_encrypt(META_KEY, b"abc");
    let encoded = base64ct::Base64::encode_string(&cipher);
    let mut meta_blob = vec![b'#'; 22];
    meta_blob.extend_from_slice(encoded.as_bytes());
    for b in meta_blob.iter_mut() {
        *b ^= 0x63;
    }
    let d = make_container(&key_blob, &meta_blob, &[], &[]);
    assert_eq!(decode_container(&d), Err(DecodeError::Metadata));
}

#[test]
fn key_blob_error_reported_before_meta_error() {
    // Both blobs are bad; the key blob is read first, so its failure wins.
    let key_blob = vec![3u8; 15];
    let meta_blob = vec![0u8; 10];
    let d = make_container(&key_blob, &meta_blob, &[], &[]);
    assert_eq!(decode_container(&d), Err(DecodeError::Cipher));
}

#[test]
fn error_messages_are_distinct() {
    let kinds = [
        DecodeError::BadMagic,
        DecodeError::Truncated,
        DecodeError::Cipher,
        DecodeError::Encoding,
        DecodeError::Metadata,
        DecodeError::ShortKey,
    ];
    for (i, a) in kinds.iter().enumerate() {
        for (j, b) in kinds.iter().enumerate() {
            assert_eq!(i == j, a.message() == b.message());
        }
    }
}
