use sensorcloud::xdr::{decode_u32, encode_fixed_string, encode_i32, encode_u32, encode_u64};

#[test]
fn encode_u32_big_endian() {
    let mut out: Vec<u8> = Vec::new();
    encode_u32(0x0102_0304, &mut out);
    assert_eq!(out, vec![1, 2, 3, 4]);
}

#[test]
fn encode_u64_big_endian() {
    let mut out: Vec<u8> = Vec::new();
    encode_u64(0x0102_0304_0506_0708, &mut out);
    assert_eq!(out, vec![1, 2, 3, 4, 5, 6, 7, 8]);
}

#[test]
fn encode_i32_positive() {
    let mut out: Vec<u8> = Vec::new();
    encode_i32(1, &mut out);
    assert_eq!(out, vec![0, 0, 0, 1]);
}

#[test]
fn encode_i32_negative_twos_complement() {
    let mut out: Vec<u8> = Vec::new();
    encode_i32(-2, &mut out);
    assert_eq!(out, vec![0xff, 0xff, 0xff, 0xfe]);
}

#[test]
fn encode_appends_after_existing_bytes() {
    let mut out: Vec<u8> = vec![9];
    encode_u32(1, &mut out);
    assert_eq!(out, vec![9, 0, 0, 0, 1]);
}

#[test]
fn decode_u32_reads_back_encoded_value() {
    let mut out: Vec<u8> = Vec::new();
    encode_u32(0xdead_beef, &mut out);
    assert_eq!(decode_u32(&out, 0), 0xdead_beef);
}

#[test]
fn decode_u32_at_offset() {
    let bytes = vec![0, 0, 0, 0, 1, 2, 3, 4];
    assert_eq!(decode_u32(&bytes, 4), 0x0102_0304);
}

#[test]
fn empty_string_pads_to_boundary_of_fifty() {
    let mut out: Vec<u8> = Vec::new();
    encode_fixed_string(&[], 50, &mut out);
    assert_eq!(out.len(), 52);
    assert!(out.iter().all(|b| *b == 0));
}

#[test]
fn fixed_string_length_is_independent_of_content() {
    let mut out: Vec<u8> = Vec::new();
    encode_fixed_string(b"xy", 50, &mut out);
    assert_eq!(out.len(), 52);
    assert_eq!(&out[..2], b"xy");
    assert!(out[2..].iter().all(|b| *b == 0));
}

#[test]
fn fixed_string_pads_to_next_four_byte_boundary() {
    let mut out: Vec<u8> = Vec::new();
    encode_fixed_string(b"ab", 3, &mut out);
    assert_eq!(out, vec![b'a', b'b', 0, 0]);
}

#[test]
fn fixed_string_at_exact_boundary() {
    let mut out: Vec<u8> = Vec::new();
    encode_fixed_string(b"abcd", 4, &mut out);
    assert_eq!(out, vec![b'a', b'b', b'c', b'd']);
}

#[test]
fn integers_match_reference_xdr_encoder() {
    for v in [0i32, 1, -1, 42, i32::MAX, i32::MIN] {
        let mut ours: Vec<u8> = Vec::new();
        encode_i32(v, &mut ours);
        let mut theirs: Vec<u8> = Vec::new();
        xdr_codec::pack(&v, &mut theirs).unwrap();
        assert_eq!(ours, theirs);
    }
    for v in [0u32, 1, 0xdead_beef, u32::MAX] {
        let mut ours: Vec<u8> = Vec::new();
        encode_u32(v, &mut ours);
        let mut theirs: Vec<u8> = Vec::new();
        xdr_codec::pack(&v, &mut theirs).unwrap();
        assert_eq!(ours, theirs);
    }
    for v in [0u64, 1, u64::MAX, 1_500_000_000_000_000_000] {
        let mut ours: Vec<u8> = Vec::new();
        encode_u64(v, &mut ours);
        let mut theirs: Vec<u8> = Vec::new();
        xdr_codec::pack(&v, &mut theirs).unwrap();
        assert_eq!(ours, theirs);
    }
}

#[test]
fn float_bits_match_reference_xdr_encoder() {
    for v in [0.0f32, 1.0, 2.0, 3.5, -7.25] {
        let mut ours: Vec<u8> = Vec::new();
        encode_u32(v.to_bits(), &mut ours);
        let mut theirs: Vec<u8> = Vec::new();
        xdr_codec::pack(&v, &mut theirs).unwrap();
        assert_eq!(ours, theirs);
    }
}
