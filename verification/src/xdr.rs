//! Binary wire-format primitives: big-endian integers and fixed-capacity,
//! zero-padded string fields, with the matching decode forms used by the
//! authentication handshake.
use vstd::prelude::*;

verus! {

/// Bytes a field of `n` payload bytes occupies on the wire: `n` rounded up to
/// the next multiple of four.
pub open spec fn pad4(n: int) -> int {
    ((n + 3) / 4) * 4
}

/// A run of `n` zero bytes.
pub open spec fn zeros(n: int) -> Seq<u8> {
    Seq::new(n as nat, |i: int| 0u8)
}

/// Big-endian bytes of a 32-bit unsigned integer.
pub open spec fn be_u32(x: u32) -> Seq<u8> {
    seq![
        ((x >> 24) & 0xff) as u8,
        ((x >> 16) & 0xff) as u8,
        ((x >> 8) & 0xff) as u8,
        (x & 0xff) as u8,
    ]
}

/// Big-endian bytes of a 64-bit unsigned integer.
pub open spec fn be_u64(x: u64) -> Seq<u8> {
    seq![
        ((x >> 56) & 0xff) as u8,
        ((x >> 48) & 0xff) as u8,
        ((x >> 40) & 0xff) as u8,
        ((x >> 32) & 0xff) as u8,
        ((x >> 24) & 0xff) as u8,
        ((x >> 16) & 0xff) as u8,
        ((x >> 8) & 0xff) as u8,
        (x & 0xff) as u8,
    ]
}

/// Two's-complement bit pattern of a 32-bit signed integer.
pub open spec fn i32_bits(x: i32) -> u32 {
    if x >= 0 {
        x as u32
    } else {
        ((x as int) + 0x1_0000_0000) as u32
    }
}

/// 32-bit signed integer whose two's-complement bit pattern is `b`.
pub open spec fn i32_of_bits(b: u32) -> i32 {
    if b < 0x8000_0000 {
        b as i32
    } else {
        ((b as int) - 0x1_0000_0000) as i32
    }
}

/// Big-endian bytes of a 32-bit signed integer (two's complement).
pub open spec fn be_i32(x: i32) -> Seq<u8> {
    be_u32(i32_bits(x))
}

/// The 32-bit unsigned integer read big-endian from a four-byte sequence.
pub open spec fn u32_from_be(s: Seq<u8>) -> u32
    recommends
        s.len() == 4,
{
    ((s[0] as u32) << 24) | ((s[1] as u32) << 16) | ((s[2] as u32) << 8) | (s[3] as u32)
}

/// The 64-bit unsigned integer read big-endian from an eight-byte sequence.
pub open spec fn u64_from_be(s: Seq<u8>) -> u64
    recommends
        s.len() == 8,
{
    ((s[0] as u64) << 56) | ((s[1] as u64) << 48) | ((s[2] as u64) << 40) | ((s[3] as u64)
        << 32) | ((s[4] as u64) << 24) | ((s[5] as u64) << 16) | ((s[6] as u64) << 8) | (
    s[7] as u64)
}

/// A fixed-capacity string field: the payload bytes followed by zero padding
/// up to the four-byte boundary computed from the field's capacity, not from
/// the payload's length.
pub open spec fn fixed_field(s: Seq<u8>, max_len: int) -> Seq<u8>
    recommends
        s.len() <= max_len,
{
    s + zeros(pad4(max_len) - s.len())
}

/// Appends the big-endian bytes of `x`.
pub fn encode_u32(x: u32, out: &mut Vec<u8>)
    ensures
        final(out)@ == old(out)@ + be_u32(x),
{
    out.push(((x >> 24) & 0xff) as u8);
    out.push(((x >> 16) & 0xff) as u8);
    out.push(((x >> 8) & 0xff) as u8);
    out.push((x & 0xff) as u8);
    assert(out@ =~= old(out)@ + be_u32(x));
}

/// Appends the big-endian bytes of `x`.
pub fn encode_u64(x: u64, out: &mut Vec<u8>)
    ensures
        final(out)@ == old(out)@ + be_u64(x),
{
    out.push(((x >> 56) & 0xff) as u8);
    out.push(((x >> 48) & 0xff) as u8);
    out.push(((x >> 40) & 0xff) as u8);
    out.push(((x >> 32) & 0xff) as u8);
    out.push(((x >> 24) & 0xff) as u8);
    out.push(((x >> 16) & 0xff) as u8);
    out.push(((x >> 8) & 0xff) as u8);
    out.push((x & 0xff) as u8);
    assert(out@ =~= old(out)@ + be_u64(x));
}

/// Appends the big-endian two's-complement bytes of `x`.
pub fn encode_i32(x: i32, out: &mut Vec<u8>)
    ensures
        final(out)@ == old(out)@ + be_i32(x),
{
    let bits: u32 = if x >= 0 {
        x as u32
    } else {
        ((x as i64) + 0x1_0000_0000i64) as u32
    };
    assert(bits == i32_bits(x));
    encode_u32(bits, out);
}

/// Appends a fixed-capacity string field: the bytes of `s`, then zero padding
/// up to the four-byte boundary of `max_len`.
pub fn encode_fixed_string(s: &[u8], max_len: usize, out: &mut Vec<u8>)
    requires
        s@.len() <= max_len,
        max_len <= 0x1000_0000,
    ensures
        final(out)@ == old(out)@ + fixed_field(s@, max_len as int),
{
    let mut i: usize = 0;
    while i < s.len()
        invariant
            i <= s@.len(),
            s@.len() <= max_len <= 0x1000_0000,
            out@ == old(out)@ + s@.subrange(0, i as int),
        decreases s@.len() - i,
    {
        let b: u8 = s[i];
        out.push(b);
        i = i + 1;
        assert(out@ =~= old(out)@ + s@.subrange(0, i as int));
    }
    assert(s@.subrange(0, s@.len() as int) =~= s@);
    let padded: usize = ((max_len + 3) / 4) * 4;
    assert(padded == pad4(max_len as int));
    assert(padded >= max_len) by (nonlinear_arith)
        requires
            padded == ((max_len + 3) / 4) * 4,
    ;
    while i < padded
        invariant
            s@.len() <= i <= padded,
            out@ == old(out)@ + s@ + zeros(i - s@.len()),
        decreases padded - i,
    {
        out.push(0u8);
        i = i + 1;
        assert(out@ =~= old(out)@ + s@ + zeros(i - s@.len()));
    }
    assert(out@ =~= old(out)@ + fixed_field(s@, max_len as int));
}

/// Reads the big-endian 32-bit unsigned integer at `offset`.
pub fn decode_u32(bytes: &[u8], offset: usize) -> (r: u32)
    requires
        offset + 4 <= bytes@.len(),
    ensures
        r == u32_from_be(bytes@.subrange(offset as int, offset as int + 4)),
{
    let b0: u32 = bytes[offset] as u32;
    let b1: u32 = bytes[offset + 1] as u32;
    let b2: u32 = bytes[offset + 2] as u32;
    let b3: u32 = bytes[offset + 3] as u32;
    let r: u32 = (b0 << 24) | (b1 << 16) | (b2 << 8) | b3;
    proof {
        let s = bytes@.subrange(offset as int, offset as int + 4);
        assert(s[0] == bytes@[offset as int]);
        assert(s[1] == bytes@[offset as int + 1]);
        assert(s[2] == bytes@[offset as int + 2]);
        assert(s[3] == bytes@[offset as int + 3]);
        assert(b0 < 256 && b1 < 256 && b2 < 256 && b3 < 256);
    }
    r
}

/// Decoding undoes encoding for 32-bit unsigned integers.
pub proof fn lemma_u32_round_trip(x: u32)
    ensures
        u32_from_be(be_u32(x)) == x,
{
    let s = be_u32(x);
    assert((((((x >> 24) & 0xff) as u8) as u32) << 24) | (((((x >> 16) & 0xff) as u8) as u32)
        << 16) | (((((x >> 8) & 0xff) as u8) as u32) << 8) | (((x & 0xff) as u8) as u32)
        == x) by (bit_vector);
}

/// Decoding undoes encoding for 64-bit unsigned integers.
pub proof fn lemma_u64_round_trip(x: u64)
    ensures
        u64_from_be(be_u64(x)) == x,
{
    assert((((((x >> 56) & 0xff) as u8) as u64) << 56) | (((((x >> 48) & 0xff) as u8) as u64)
        << 48) | (((((x >> 40) & 0xff) as u8) as u64) << 40) | (((((x >> 32) & 0xff) as u8)
        as u64) << 32) | (((((x >> 24) & 0xff) as u8) as u64) << 24) | (((((x >> 16) & 0xff)
        as u8) as u64) << 16) | (((((x >> 8) & 0xff) as u8) as u64) << 8) | (((x & 0xff) as u8)
        as u64) == x) by (bit_vector);
}

/// Decoding undoes encoding for 32-bit signed integers.
pub proof fn lemma_i32_round_trip(x: i32)
    ensures
        i32_of_bits(u32_from_be(be_i32(x))) == x,
{
    lemma_u32_round_trip(i32_bits(x));
}

/// An empty payload leaves a field of zero bytes whose length depends only on
/// the field's capacity.
pub proof fn lemma_empty_fixed_field(max_len: int)
    requires
        0 <= max_len,
    ensures
        fixed_field(Seq::<u8>::empty(), max_len) =~= zeros(pad4(max_len)),
        fixed_field(Seq::<u8>::empty(), max_len).len() == pad4(max_len),
        forall|i: int|
            0 <= i < pad4(max_len) ==> fixed_field(Seq::<u8>::empty(), max_len)[i] == 0u8,
{
    assert(pad4(max_len) >= 0) by (nonlinear_arith)
        requires
            max_len >= 0,
    ;
}

} // verus!
