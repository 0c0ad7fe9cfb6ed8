//! Fixed-width integers read from and written to byte sequences in either
//! byte order.
use vstd::prelude::*;

verus! {

/// `e_ident[EI_DATA]` value for little endianness.
pub const EI_DATA_LE: u8 = 1;

/// `e_ident[EI_DATA]` value for big endianness.
pub const EI_DATA_BE: u8 = 2;

/// Whether `data` names one of the two byte orders.
pub open spec fn valid_data(data: u8) -> bool {
    data == EI_DATA_LE || data == EI_DATA_BE
}

pub open spec fn le16(b: Seq<u8>) -> u16 {
    (b[0] as u16) | ((b[1] as u16) << 8)
}

pub open spec fn le32(b: Seq<u8>) -> u32 {
    (b[0] as u32) | ((b[1] as u32) << 8) | ((b[2] as u32) << 16) | ((b[3] as u32) << 24)
}

pub open spec fn le64(b: Seq<u8>) -> u64 {
    (b[0] as u64) | ((b[1] as u64) << 8) | ((b[2] as u64) << 16) | ((b[3] as u64) << 24) | ((
    b[4] as u64) << 32) | ((b[5] as u64) << 40) | ((b[6] as u64) << 48) | ((b[7] as u64) << 56)
}

pub open spec fn be16(b: Seq<u8>) -> u16 {
    (b[1] as u16) | ((b[0] as u16) << 8)
}

pub open spec fn be32(b: Seq<u8>) -> u32 {
    (b[3] as u32) | ((b[2] as u32) << 8) | ((b[1] as u32) << 16) | ((b[0] as u32) << 24)
}

pub open spec fn be64(b: Seq<u8>) -> u64 {
    (b[7] as u64) | ((b[6] as u64) << 8) | ((b[5] as u64) << 16) | ((b[4] as u64) << 24) | ((
    b[3] as u64) << 32) | ((b[2] as u64) << 40) | ((b[1] as u64) << 48) | ((b[0] as u64) << 56)
}

pub open spec fn le128(b: Seq<u8>) -> u128 {
    (b[0] as u128) | ((b[1] as u128) << 8) | ((b[2] as u128) << 16) | ((b[3] as u128) << 24) | ((
    b[4] as u128) << 32) | ((b[5] as u128) << 40) | ((b[6] as u128) << 48) | ((b[7] as u128)
        << 56) | ((b[8] as u128) << 64) | ((b[9] as u128) << 72) | ((b[10] as u128) << 80) | ((
    b[11] as u128) << 88) | ((b[12] as u128) << 96) | ((b[13] as u128) << 104) | ((b[14] as u128)
        << 112) | ((b[15] as u128) << 120)
}

pub open spec fn be128(b: Seq<u8>) -> u128 {
    (b[15] as u128) | ((b[14] as u128) << 8) | ((b[13] as u128) << 16) | ((b[12] as u128) << 24)
        | ((b[11] as u128) << 32) | ((b[10] as u128) << 40) | ((b[9] as u128) << 48) | ((
    b[8] as u128) << 56) | ((b[7] as u128) << 64) | ((b[6] as u128) << 72) | ((b[5] as u128)
        << 80) | ((b[4] as u128) << 88) | ((b[3] as u128) << 96) | ((b[2] as u128) << 104) | ((
    b[1] as u128) << 112) | ((b[0] as u128) << 120)
}

pub open spec fn be16_bytes(x: u16) -> Seq<u8> {
    seq![(x >> 8) as u8, x as u8]
}

pub open spec fn be32_bytes(x: u32) -> Seq<u8> {
    seq![(x >> 24) as u8, (x >> 16) as u8, (x >> 8) as u8, x as u8]
}

pub open spec fn be64_bytes(x: u64) -> Seq<u8> {
    seq![
        (x >> 56) as u8,
        (x >> 48) as u8,
        (x >> 40) as u8,
        (x >> 32) as u8,
        (x >> 24) as u8,
        (x >> 16) as u8,
        (x >> 8) as u8,
        x as u8,
    ]
}

pub open spec fn le128_bytes(x: u128) -> Seq<u8> {
    seq![
        x as u8,
        (x >> 8) as u8,
        (x >> 16) as u8,
        (x >> 24) as u8,
        (x >> 32) as u8,
        (x >> 40) as u8,
        (x >> 48) as u8,
        (x >> 56) as u8,
        (x >> 64) as u8,
        (x >> 72) as u8,
        (x >> 80) as u8,
        (x >> 88) as u8,
        (x >> 96) as u8,
        (x >> 104) as u8,
        (x >> 112) as u8,
        (x >> 120) as u8,
    ]
}

pub open spec fn be128_bytes(x: u128) -> Seq<u8> {
    seq![
        (x >> 120) as u8,
        (x >> 112) as u8,
        (x >> 104) as u8,
        (x >> 96) as u8,
        (x >> 88) as u8,
        (x >> 80) as u8,
        (x >> 72) as u8,
        (x >> 64) as u8,
        (x >> 56) as u8,
        (x >> 48) as u8,
        (x >> 40) as u8,
        (x >> 32) as u8,
        (x >> 24) as u8,
        (x >> 16) as u8,
        (x >> 8) as u8,
        x as u8,
    ]
}

/// The value of the first two bytes of `b` in byte order `data`.
pub open spec fn dec16(data: u8, b: Seq<u8>) -> u16 {
    if data == EI_DATA_BE {
        be16(b)
    } else {
        le16(b)
    }
}

/// The value of the first four bytes of `b` in byte order `data`.
pub open spec fn dec32(data: u8, b: Seq<u8>) -> u32 {
    if data == EI_DATA_BE {
        be32(b)
    } else {
        le32(b)
    }
}

/// The value of the first eight bytes of `b` in byte order `data`.
pub open spec fn dec64(data: u8, b: Seq<u8>) -> u64 {
    if data == EI_DATA_BE {
        be64(b)
    } else {
        le64(b)
    }
}

pub open spec fn le16_bytes(x: u16) -> Seq<u8> {
    seq![x as u8, (x >> 8) as u8]
}

pub open spec fn le32_bytes(x: u32) -> Seq<u8> {
    seq![x as u8, (x >> 8) as u8, (x >> 16) as u8, (x >> 24) as u8]
}

pub open spec fn le64_bytes(x: u64) -> Seq<u8> {
    seq![
        x as u8,
        (x >> 8) as u8,
        (x >> 16) as u8,
        (x >> 24) as u8,
        (x >> 32) as u8,
        (x >> 40) as u8,
        (x >> 48) as u8,
        (x >> 56) as u8,
    ]
}

/// The two bytes that hold `x` in byte order `data`.
pub open spec fn enc16(data: u8, x: u16) -> Seq<u8> {
    if data == EI_DATA_BE {
        le16_bytes(x).reverse()
    } else {
        le16_bytes(x)
    }
}

/// The four bytes that hold `x` in byte order `data`.
pub open spec fn enc32(data: u8, x: u32) -> Seq<u8> {
    if data == EI_DATA_BE {
        le32_bytes(x).reverse()
    } else {
        le32_bytes(x)
    }
}

/// The eight bytes that hold `x` in byte order `data`.
pub open spec fn enc64(data: u8, x: u64) -> Seq<u8> {
    if data == EI_DATA_BE {
        le64_bytes(x).reverse()
    } else {
        le64_bytes(x)
    }
}

proof fn lemma_bytes16(b0: u8, b1: u8)
    ensures
        ((b0 as u16) | ((b1 as u16) << 8)) as u8 == b0,
        (((b0 as u16) | ((b1 as u16) << 8)) >> 8) as u8 == b1,
{
    assert(((b0 as u16) | ((b1 as u16) << 8)) as u8 == b0 && (((b0 as u16) | ((b1 as u16) << 8))
        >> 8) as u8 == b1) by (bit_vector);
}

proof fn lemma_bytes32(b0: u8, b1: u8, b2: u8, b3: u8)
    ensures
        ({
            let x = (b0 as u32) | ((b1 as u32) << 8) | ((b2 as u32) << 16) | ((b3 as u32) << 24);
            x as u8 == b0 && (x >> 8) as u8 == b1 && (x >> 16) as u8 == b2 && (x >> 24) as u8 == b3
        }),
{
    assert({
        let x = (b0 as u32) | ((b1 as u32) << 8) | ((b2 as u32) << 16) | ((b3 as u32) << 24);
        x as u8 == b0 && (x >> 8) as u8 == b1 && (x >> 16) as u8 == b2 && (x >> 24) as u8 == b3
    }) by (bit_vector);
}

proof fn lemma_bytes64(b0: u8, b1: u8, b2: u8, b3: u8, b4: u8, b5: u8, b6: u8, b7: u8)
    ensures
        ({
            let x = (b0 as u64) | ((b1 as u64) << 8) | ((b2 as u64) << 16) | ((b3 as u64) << 24)
                | ((b4 as u64) << 32) | ((b5 as u64) << 40) | ((b6 as u64) << 48) | ((b7 as u64)
                << 56);
            x as u8 == b0 && (x >> 8) as u8 == b1 && (x >> 16) as u8 == b2 && (x >> 24) as u8 == b3
                && (x >> 32) as u8 == b4 && (x >> 40) as u8 == b5 && (x >> 48) as u8 == b6 && (x
                >> 56) as u8 == b7
        }),
{
    assert({
        let x = (b0 as u64) | ((b1 as u64) << 8) | ((b2 as u64) << 16) | ((b3 as u64) << 24) | ((
        b4 as u64) << 32) | ((b5 as u64) << 40) | ((b6 as u64) << 48) | ((b7 as u64) << 56);
        x as u8 == b0 && (x >> 8) as u8 == b1 && (x >> 16) as u8 == b2 && (x >> 24) as u8 == b3 && (x
            >> 32) as u8 == b4 && (x >> 40) as u8 == b5 && (x >> 48) as u8 == b6 && (x >> 56) as u8
            == b7
    }) by (bit_vector);
}

/// Encoding a decoded field gives back the bytes it was decoded from.
pub proof fn lemma_enc_dec16(data: u8, b: Seq<u8>)
    requires
        b.len() == 2,
    ensures
        enc16(data, dec16(data, b)) == b,
{
    if data == EI_DATA_BE {
        lemma_bytes16(b[1], b[0]);
        assert(enc16(data, dec16(data, b)) =~= b);
    } else {
        lemma_bytes16(b[0], b[1]);
        assert(enc16(data, dec16(data, b)) =~= b);
    }
}

/// Encoding a decoded field gives back the bytes it was decoded from.
pub proof fn lemma_enc_dec32(data: u8, b: Seq<u8>)
    requires
        b.len() == 4,
    ensures
        enc32(data, dec32(data, b)) == b,
{
    if data == EI_DATA_BE {
        lemma_bytes32(b[3], b[2], b[1], b[0]);
        assert(enc32(data, dec32(data, b)) =~= b);
    } else {
        lemma_bytes32(b[0], b[1], b[2], b[3]);
        assert(enc32(data, dec32(data, b)) =~= b);
    }
}

/// Encoding a decoded field gives back the bytes it was decoded from.
pub proof fn lemma_enc_dec64(data: u8, b: Seq<u8>)
    requires
        b.len() == 8,
    ensures
        enc64(data, dec64(data, b)) == b,
{
    if data == EI_DATA_BE {
        lemma_bytes64(b[7], b[6], b[5], b[4], b[3], b[2], b[1], b[0]);
        assert(enc64(data, dec64(data, b)) =~= b);
    } else {
        lemma_bytes64(b[0], b[1], b[2], b[3], b[4], b[5], b[6], b[7]);
        assert(enc64(data, dec64(data, b)) =~= b);
    }
}

/// Decoding an encoded value gives back the value.
pub proof fn lemma_dec_enc16(data: u8, x: u16)
    ensures
        enc16(data, x).len() == 2,
        dec16(data, enc16(data, x)) == x,
{
    assert(((x as u8) as u16) | (((x >> 8) as u8) as u16) << 8 == x) by (bit_vector);
    assert(le16_bytes(x).reverse()[0] == (x >> 8) as u8);
    assert(le16_bytes(x).reverse()[1] == x as u8);
}

/// Decoding an encoded value gives back the value.
pub proof fn lemma_dec_enc32(data: u8, x: u32)
    ensures
        enc32(data, x).len() == 4,
        dec32(data, enc32(data, x)) == x,
{
    assert(((x as u8) as u32) | (((x >> 8) as u8) as u32) << 8 | (((x >> 16) as u8) as u32) << 16
        | (((x >> 24) as u8) as u32) << 24 == x) by (bit_vector);
    let r = le32_bytes(x).reverse();
    assert(r[0] == (x >> 24) as u8 && r[1] == (x >> 16) as u8 && r[2] == (x >> 8) as u8 && r[3]
        == x as u8);
}

/// Decoding an encoded value gives back the value.
pub proof fn lemma_dec_enc64(data: u8, x: u64)
    ensures
        enc64(data, x).len() == 8,
        dec64(data, enc64(data, x)) == x,
{
    assert(((x as u8) as u64) | (((x >> 8) as u8) as u64) << 8 | (((x >> 16) as u8) as u64) << 16
        | (((x >> 24) as u8) as u64) << 24 | (((x >> 32) as u8) as u64) << 32 | (((x >> 40) as u8)
        as u64) << 40 | (((x >> 48) as u8) as u64) << 48 | (((x >> 56) as u8) as u64) << 56 == x)
        by (bit_vector);
    let r = le64_bytes(x).reverse();
    assert(r[0] == (x >> 56) as u8 && r[1] == (x >> 48) as u8 && r[2] == (x >> 40) as u8 && r[3]
        == (x >> 32) as u8 && r[4] == (x >> 24) as u8 && r[5] == (x >> 16) as u8 && r[6] == (x
        >> 8) as u8 && r[7] == x as u8);
}

/// Reads the two bytes at `off` in byte order `data`.
pub fn get_u16(bytes: &[u8], off: usize, data: u8) -> (r: u16)
    requires
        off + 2 <= bytes@.len(),
    ensures
        r == dec16(data, bytes@.subrange(off as int, off + 2)),
{
    let b0 = bytes[off] as u16;
    let b1 = bytes[off + 1] as u16;
    if data == EI_DATA_BE {
        b1 | (b0 << 8)
    } else {
        b0 | (b1 << 8)
    }
}

/// Reads the four bytes at `off` in byte order `data`.
pub fn get_u32(bytes: &[u8], off: usize, data: u8) -> (r: u32)
    requires
        off + 4 <= bytes@.len(),
    ensures
        r == dec32(data, bytes@.subrange(off as int, off + 4)),
{
    let b0 = bytes[off] as u32;
    let b1 = bytes[off + 1] as u32;
    let b2 = bytes[off + 2] as u32;
    let b3 = bytes[off + 3] as u32;
    if data == EI_DATA_BE {
        b3 | (b2 << 8) | (b1 << 16) | (b0 << 24)
    } else {
        b0 | (b1 << 8) | (b2 << 16) | (b3 << 24)
    }
}

/// Reads the eight bytes at `off` in byte order `data`.
pub fn get_u64(bytes: &[u8], off: usize, data: u8) -> (r: u64)
    requires
        off + 8 <= bytes@.len(),
    ensures
        r == dec64(data, bytes@.subrange(off as int, off + 8)),
{
    let b0 = bytes[off] as u64;
    let b1 = bytes[off + 1] as u64;
    let b2 = bytes[off + 2] as u64;
    let b3 = bytes[off + 3] as u64;
    let b4 = bytes[off + 4] as u64;
    let b5 = bytes[off + 5] as u64;
    let b6 = bytes[off + 6] as u64;
    let b7 = bytes[off + 7] as u64;
    if data == EI_DATA_BE {
        b7 | (b6 << 8) | (b5 << 16) | (b4 << 24) | (b3 << 32) | (b2 << 40) | (b1 << 48) | (b0 << 56)
    } else {
        b0 | (b1 << 8) | (b2 << 16) | (b3 << 24) | (b4 << 32) | (b5 << 40) | (b6 << 48) | (b7 << 56)
    }
}

/// Appends `x` to `out` in byte order `data`.
pub fn put_u16(out: &mut Vec<u8>, x: u16, data: u8)
    ensures
        final(out)@ == old(out)@ + enc16(data, x),
{
    let lo = x as u8;
    let hi = (x >> 8) as u8;
    if data == EI_DATA_BE {
        out.push(hi);
        out.push(lo);
    } else {
        out.push(lo);
        out.push(hi);
    }
    assert(final(out)@ =~= old(out)@ + enc16(data, x));
}

/// Appends `x` to `out` in byte order `data`.
pub fn put_u32(out: &mut Vec<u8>, x: u32, data: u8)
    ensures
        final(out)@ == old(out)@ + enc32(data, x),
{
    let ghost start = out@;
    let b = [x as u8, (x >> 8) as u8, (x >> 16) as u8, (x >> 24) as u8];
    let mut i: usize = 0;
    while i < 4
        invariant
            0 <= i <= 4,
            out@ == start + enc32(data, x).subrange(0, i as int),
            b@ == le32_bytes(x),
        decreases 4 - i,
    {
        let k = if data == EI_DATA_BE { 3 - i } else { i };
        out.push(b[k]);
        i += 1;
        assert(out@ =~= start + enc32(data, x).subrange(0, i as int));
    }
    assert(enc32(data, x).subrange(0, 4) =~= enc32(data, x));
}

/// Appends `x` to `out` in byte order `data`.
pub fn put_u64(out: &mut Vec<u8>, x: u64, data: u8)
    ensures
        final(out)@ == old(out)@ + enc64(data, x),
{
    let ghost start = out@;
    let b = [
        x as u8,
        (x >> 8) as u8,
        (x >> 16) as u8,
        (x >> 24) as u8,
        (x >> 32) as u8,
        (x >> 40) as u8,
        (x >> 48) as u8,
        (x >> 56) as u8,
    ];
    let mut i: usize = 0;
    while i < 8
        invariant
            0 <= i <= 8,
            out@ == start + enc64(data, x).subrange(0, i as int),
            b@ == le64_bytes(x),
        decreases 8 - i,
    {
        let k = if data == EI_DATA_BE { 7 - i } else { i };
        out.push(b[k]);
        i += 1;
        assert(out@ =~= start + enc64(data, x).subrange(0, i as int));
    }
    assert(enc64(data, x).subrange(0, 8) =~= enc64(data, x));
}

} // verus!
