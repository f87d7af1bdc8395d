//! Endian-aware readers and writers for fixed-width unsigned integers.
//!
//! Every multi-byte field of the object file formats goes through the
//! functions of this module. The spec functions `u16_of`, `u32_of` and
//! `u64_of` say what value a group of bytes denotes under a byte order, and
//! `u16_bytes`, `u32_bytes` and `u64_bytes` say which bytes a value is
//! written as; the lemmas state that the two directions invert each other.

use vstd::prelude::*;

verus! {

/// Byte order of a file.
#[derive(Debug, Clone, Copy, PartialEq, Eq, Structural)]
pub enum Endianness {
    /// Little endian byte order.
    Little,
    /// Big endian byte order.
    Big,
}

/// The value that two bytes denote under the byte order `e`.
pub open spec fn u16_of(e: Endianness, b0: u8, b1: u8) -> u16 {
    match e {
        Endianness::Little => (b0 as u16) | ((b1 as u16) << 8),
        Endianness::Big => (b1 as u16) | ((b0 as u16) << 8),
    }
}

/// The value that four bytes denote under the byte order `e`.
pub open spec fn u32_of(e: Endianness, b0: u8, b1: u8, b2: u8, b3: u8) -> u32 {
    match e {
        Endianness::Little => (b0 as u32) | ((b1 as u32) << 8) | ((b2 as u32) << 16)
            | ((b3 as u32) << 24),
        Endianness::Big => (b3 as u32) | ((b2 as u32) << 8) | ((b1 as u32) << 16)
            | ((b0 as u32) << 24),
    }
}

/// The value that eight bytes denote under the byte order `e`.
pub open spec fn u64_of(
    e: Endianness,
    b0: u8,
    b1: u8,
    b2: u8,
    b3: u8,
    b4: u8,
    b5: u8,
    b6: u8,
    b7: u8,
) -> u64 {
    match e {
        Endianness::Little => (b0 as u64) | ((b1 as u64) << 8) | ((b2 as u64) << 16)
            | ((b3 as u64) << 24) | ((b4 as u64) << 32) | ((b5 as u64) << 40)
            | ((b6 as u64) << 48) | ((b7 as u64) << 56),
        Endianness::Big => (b7 as u64) | ((b6 as u64) << 8) | ((b5 as u64) << 16)
            | ((b4 as u64) << 24) | ((b3 as u64) << 32) | ((b2 as u64) << 40)
            | ((b1 as u64) << 48) | ((b0 as u64) << 56),
    }
}

/// The value of the two bytes of `s` starting at `pos`, under `e`.
pub open spec fn u16_at(e: Endianness, s: Seq<u8>, pos: int) -> u16
    recommends
        0 <= pos,
        pos + 2 <= s.len(),
{
    u16_of(e, s[pos], s[pos + 1])
}

/// The value of the four bytes of `s` starting at `pos`, under `e`.
pub open spec fn u32_at(e: Endianness, s: Seq<u8>, pos: int) -> u32
    recommends
        0 <= pos,
        pos + 4 <= s.len(),
{
    u32_of(e, s[pos], s[pos + 1], s[pos + 2], s[pos + 3])
}

/// The value of the eight bytes of `s` starting at `pos`, under `e`.
pub open spec fn u64_at(e: Endianness, s: Seq<u8>, pos: int) -> u64
    recommends
        0 <= pos,
        pos + 8 <= s.len(),
{
    u64_of(
        e,
        s[pos],
        s[pos + 1],
        s[pos + 2],
        s[pos + 3],
        s[pos + 4],
        s[pos + 5],
        s[pos + 6],
        s[pos + 7],
    )
}

/// The two bytes that `x` is written as under the byte order `e`.
pub open spec fn u16_bytes(e: Endianness, x: u16) -> Seq<u8> {
    match e {
        Endianness::Little => seq![(x & 0xff) as u8, ((x >> 8) & 0xff) as u8],
        Endianness::Big => seq![((x >> 8) & 0xff) as u8, (x & 0xff) as u8],
    }
}

/// The four bytes that `x` is written as under the byte order `e`.
pub open spec fn u32_bytes(e: Endianness, x: u32) -> Seq<u8> {
    match e {
        Endianness::Little => seq![
            (x & 0xff) as u8,
            ((x >> 8) & 0xff) as u8,
            ((x >> 16) & 0xff) as u8,
            ((x >> 24) & 0xff) as u8,
        ],
        Endianness::Big => seq![
            ((x >> 24) & 0xff) as u8,
            ((x >> 16) & 0xff) as u8,
            ((x >> 8) & 0xff) as u8,
            (x & 0xff) as u8,
        ],
    }
}

/// The eight bytes that `x` is written as under the byte order `e`.
pub open spec fn u64_bytes(e: Endianness, x: u64) -> Seq<u8> {
    match e {
        Endianness::Little => seq![
            (x & 0xff) as u8,
            ((x >> 8) & 0xff) as u8,
            ((x >> 16) & 0xff) as u8,
            ((x >> 24) & 0xff) as u8,
            ((x >> 32) & 0xff) as u8,
            ((x >> 40) & 0xff) as u8,
            ((x >> 48) & 0xff) as u8,
            ((x >> 56) & 0xff) as u8,
        ],
        Endianness::Big => seq![
            ((x >> 56) & 0xff) as u8,
            ((x >> 48) & 0xff) as u8,
            ((x >> 40) & 0xff) as u8,
            ((x >> 32) & 0xff) as u8,
            ((x >> 24) & 0xff) as u8,
            ((x >> 16) & 0xff) as u8,
            ((x >> 8) & 0xff) as u8,
            (x & 0xff) as u8,
        ],
    }
}

/// Reading back the bytes that a `u16` was written as yields that value.
pub proof fn lemma_u16_round_trip(e: Endianness, x: u16)
    ensures
        u16_bytes(e, x).len() == 2,
        u16_of(e, u16_bytes(e, x)[0], u16_bytes(e, x)[1]) == x,
{
    assert(((x & 0xff) as u8 as u16) | ((((x >> 8) & 0xff) as u8 as u16) << 8) == x)
        by (bit_vector);
}

/// Writing back the value that two bytes denote yields those bytes.
pub proof fn lemma_u16_bytes_inverse(e: Endianness, b0: u8, b1: u8)
    ensures
        u16_bytes(e, u16_of(e, b0, b1)) =~= seq![b0, b1],
{
    assert((((b0 as u16) | ((b1 as u16) << 8)) & 0xff) as u8 == b0 && ((((b0 as u16) | ((
    b1 as u16) << 8)) >> 8) & 0xff) as u8 == b1) by (bit_vector);
    assert((((b1 as u16) | ((b0 as u16) << 8)) & 0xff) as u8 == b1 && ((((b1 as u16) | ((
    b0 as u16) << 8)) >> 8) & 0xff) as u8 == b0) by (bit_vector);
}

/// Reading back the bytes that a `u32` was written as yields that value.
pub proof fn lemma_u32_round_trip(e: Endianness, x: u32)
    ensures
        u32_bytes(e, x).len() == 4,
        u32_of(
            e,
            u32_bytes(e, x)[0],
            u32_bytes(e, x)[1],
            u32_bytes(e, x)[2],
            u32_bytes(e, x)[3],
        ) == x,
{
    assert(((x & 0xff) as u8 as u32) | ((((x >> 8) & 0xff) as u8 as u32) << 8) | ((((x >> 16)
        & 0xff) as u8 as u32) << 16) | ((((x >> 24) & 0xff) as u8 as u32) << 24) == x)
        by (bit_vector);
}

/// Writing back the value that four bytes denote yields those bytes.
pub proof fn lemma_u32_bytes_inverse(e: Endianness, b0: u8, b1: u8, b2: u8, b3: u8)
    ensures
        u32_bytes(e, u32_of(e, b0, b1, b2, b3)) =~= seq![b0, b1, b2, b3],
{
    let x = u32_of(e, b0, b1, b2, b3);
    match e {
        Endianness::Little => {
            assert(x == (b0 as u32) | ((b1 as u32) << 8) | ((b2 as u32) << 16) | ((
            b3 as u32) << 24));
            assert((x & 0xff) as u8 == b0 && ((x >> 8) & 0xff) as u8 == b1 && ((x >> 16)
                & 0xff) as u8 == b2 && ((x >> 24) & 0xff) as u8 == b3) by (bit_vector)
                requires
                    x == (b0 as u32) | ((b1 as u32) << 8) | ((b2 as u32) << 16) | ((
                    b3 as u32) << 24),
            ;
        },
        Endianness::Big => {
            assert(x == (b3 as u32) | ((b2 as u32) << 8) | ((b1 as u32) << 16) | ((
            b0 as u32) << 24));
            assert((x & 0xff) as u8 == b3 && ((x >> 8) & 0xff) as u8 == b2 && ((x >> 16)
                & 0xff) as u8 == b1 && ((x >> 24) & 0xff) as u8 == b0) by (bit_vector)
                requires
                    x == (b3 as u32) | ((b2 as u32) << 8) | ((b1 as u32) << 16) | ((
                    b0 as u32) << 24),
            ;
        },
    }
}

/// Reading back the bytes that a `u64` was written as yields that value.
pub proof fn lemma_u64_round_trip(e: Endianness, x: u64)
    ensures
        u64_bytes(e, x).len() == 8,
        u64_of(
            e,
            u64_bytes(e, x)[0],
            u64_bytes(e, x)[1],
            u64_bytes(e, x)[2],
            u64_bytes(e, x)[3],
            u64_bytes(e, x)[4],
            u64_bytes(e, x)[5],
            u64_bytes(e, x)[6],
            u64_bytes(e, x)[7],
        ) == x,
{
    assert(((x & 0xff) as u8 as u64) | ((((x >> 8) & 0xff) as u8 as u64) << 8) | ((((x >> 16)
        & 0xff) as u8 as u64) << 16) | ((((x >> 24) & 0xff) as u8 as u64) << 24) | ((((x
        >> 32) & 0xff) as u8 as u64) << 32) | ((((x >> 40) & 0xff) as u8 as u64) << 40) | ((((
    x >> 48) & 0xff) as u8 as u64) << 48) | ((((x >> 56) & 0xff) as u8 as u64) << 56) == x)
        by (bit_vector);
}

/// Writing back the value that eight bytes denote yields those bytes.
pub proof fn lemma_u64_bytes_inverse(
    e: Endianness,
    b0: u8,
    b1: u8,
    b2: u8,
    b3: u8,
    b4: u8,
    b5: u8,
    b6: u8,
    b7: u8,
)
    ensures
        u64_bytes(e, u64_of(e, b0, b1, b2, b3, b4, b5, b6, b7)) =~= seq![
            b0,
            b1,
            b2,
            b3,
            b4,
            b5,
            b6,
            b7,
        ],
{
    let x = u64_of(e, b0, b1, b2, b3, b4, b5, b6, b7);
    match e {
        Endianness::Little => {
            assert((x & 0xff) as u8 == b0 && ((x >> 8) & 0xff) as u8 == b1 && ((x >> 16)
                & 0xff) as u8 == b2 && ((x >> 24) & 0xff) as u8 == b3 && ((x >> 32)
                & 0xff) as u8 == b4 && ((x >> 40) & 0xff) as u8 == b5 && ((x >> 48)
                & 0xff) as u8 == b6 && ((x >> 56) & 0xff) as u8 == b7) by (bit_vector)
                requires
                    x == (b0 as u64) | ((b1 as u64) << 8) | ((b2 as u64) << 16) | ((
                    b3 as u64) << 24) | ((b4 as u64) << 32) | ((b5 as u64) << 40) | ((
                    b6 as u64) << 48) | ((b7 as u64) << 56),
            ;
        },
        Endianness::Big => {
            assert((x & 0xff) as u8 == b7 && ((x >> 8) & 0xff) as u8 == b6 && ((x >> 16)
                & 0xff) as u8 == b5 && ((x >> 24) & 0xff) as u8 == b4 && ((x >> 32)
                & 0xff) as u8 == b3 && ((x >> 40) & 0xff) as u8 == b2 && ((x >> 48)
                & 0xff) as u8 == b1 && ((x >> 56) & 0xff) as u8 == b0) by (bit_vector)
                requires
                    x == (b7 as u64) | ((b6 as u64) << 8) | ((b5 as u64) << 16) | ((
                    b4 as u64) << 24) | ((b3 as u64) << 32) | ((b2 as u64) << 40) | ((
                    b1 as u64) << 48) | ((b0 as u64) << 56),
            ;
        },
    }
}

/// What a one-byte read returns: the byte at `pos` and the next position, or
/// nothing when the input is exhausted.
pub open spec fn read_u8_post(s: Seq<u8>, pos: int, r: Option<(u8, usize)>) -> bool {
    &&& (r matches Some((v, p)) ==> pos + 1 <= s.len() && v == s[pos] && p == pos + 1)
    &&& (r is None <==> pos + 1 > s.len())
}

/// What a two-byte read returns under the byte order `e`.
pub open spec fn read_u16_post(e: Endianness, s: Seq<u8>, pos: int, r: Option<(u16, usize)>) -> bool {
    &&& (r matches Some((v, p)) ==> pos + 2 <= s.len() && v == u16_at(e, s, pos) && p == pos + 2)
    &&& (r is None <==> pos + 2 > s.len())
}

/// What a four-byte read returns under the byte order `e`.
pub open spec fn read_u32_post(e: Endianness, s: Seq<u8>, pos: int, r: Option<(u32, usize)>) -> bool {
    &&& (r matches Some((v, p)) ==> pos + 4 <= s.len() && v == u32_at(e, s, pos) && p == pos + 4)
    &&& (r is None <==> pos + 4 > s.len())
}

/// What an eight-byte read returns under the byte order `e`.
pub open spec fn read_u64_post(e: Endianness, s: Seq<u8>, pos: int, r: Option<(u64, usize)>) -> bool {
    &&& (r matches Some((v, p)) ==> pos + 8 <= s.len() && v == u64_at(e, s, pos) && p == pos + 8)
    &&& (r is None <==> pos + 8 > s.len())
}

/// Read the byte at `pos`.
pub fn read_u8(e: Endianness, bytes: &[u8], pos: usize) -> (r: Option<(u8, usize)>)
    ensures
        read_u8_post(bytes@, pos as int, r),
{
    let n = bytes.len();
    if pos >= n {
        return None;
    }
    Some((bytes[pos], pos + 1))
}

/// Read the two bytes starting at `pos` as one value under `e`.
pub fn read_u16(e: Endianness, bytes: &[u8], pos: usize) -> (r: Option<(u16, usize)>)
    ensures
        read_u16_post(e, bytes@, pos as int, r),
{
    let n = bytes.len();
    if pos >= n || n - pos < 2 {
        return None;
    }
    let b0 = bytes[pos];
    let b1 = bytes[pos + 1];
    let x: u16 = match e {
        Endianness::Little => (b0 as u16) | ((b1 as u16) << 8u16),
        Endianness::Big => (b1 as u16) | ((b0 as u16) << 8u16),
    };
    Some((x, pos + 2))
}

/// Read the four bytes starting at `pos` as one value under `e`.
pub fn read_u32(e: Endianness, bytes: &[u8], pos: usize) -> (r: Option<(u32, usize)>)
    ensures
        read_u32_post(e, bytes@, pos as int, r),
{
    let n = bytes.len();
    if pos >= n || n - pos < 4 {
        return None;
    }
    let b0 = bytes[pos];
    let b1 = bytes[pos + 1];
    let b2 = bytes[pos + 2];
    let b3 = bytes[pos + 3];
    let x: u32 = match e {
        Endianness::Little => (b0 as u32) | ((b1 as u32) << 8u32) | ((b2 as u32) << 16u32) | ((
        b3 as u32) << 24u32),
        Endianness::Big => (b3 as u32) | ((b2 as u32) << 8u32) | ((b1 as u32) << 16u32) | ((
        b0 as u32) << 24u32),
    };
    Some((x, pos + 4))
}

/// Read the eight bytes starting at `pos` as one value under `e`.
pub fn read_u64(e: Endianness, bytes: &[u8], pos: usize) -> (r: Option<(u64, usize)>)
    ensures
        read_u64_post(e, bytes@, pos as int, r),
{
    let n = bytes.len();
    if pos >= n || n - pos < 8 {
        return None;
    }
    let b0 = bytes[pos];
    let b1 = bytes[pos + 1];
    let b2 = bytes[pos + 2];
    let b3 = bytes[pos + 3];
    let b4 = bytes[pos + 4];
    let b5 = bytes[pos + 5];
    let b6 = bytes[pos + 6];
    let b7 = bytes[pos + 7];
    let x: u64 = match e {
        Endianness::Little => (b0 as u64) | ((b1 as u64) << 8u64) | ((b2 as u64) << 16u64) | ((
        b3 as u64) << 24u64) | ((b4 as u64) << 32u64) | ((b5 as u64) << 40u64) | ((b6 as u64)
            << 48u64) | ((b7 as u64) << 56u64),
        Endianness::Big => (b7 as u64) | ((b6 as u64) << 8u64) | ((b5 as u64) << 16u64) | ((
        b4 as u64) << 24u64) | ((b3 as u64) << 32u64) | ((b2 as u64) << 40u64) | ((b1 as u64)
            << 48u64) | ((b0 as u64) << 56u64),
    };
    Some((x, pos + 8))
}

/// Append the single byte `x` to `out`.
pub fn write_u8(e: Endianness, x: u8, out: &mut Vec<u8>)
    ensures
        final(out)@ =~= old(out)@ + seq![x],
{
    out.push(x);
}

/// Append the two bytes of `x` under `e` to `out`.
pub fn write_u16(e: Endianness, x: u16, out: &mut Vec<u8>)
    ensures
        final(out)@ =~= old(out)@ + u16_bytes(e, x),
{
    match e {
        Endianness::Little => {
            out.push((x & 0xff) as u8);
            out.push(((x >> 8u16) & 0xff) as u8);
        },
        Endianness::Big => {
            out.push(((x >> 8u16) & 0xff) as u8);
            out.push((x & 0xff) as u8);
        },
    }
}

/// Append the four bytes of `x` under `e` to `out`.
pub fn write_u32(e: Endianness, x: u32, out: &mut Vec<u8>)
    ensures
        final(out)@ =~= old(out)@ + u32_bytes(e, x),
{
    match e {
        Endianness::Little => {
            out.push((x & 0xff) as u8);
            out.push(((x >> 8u32) & 0xff) as u8);
            out.push(((x >> 16u32) & 0xff) as u8);
            out.push(((x >> 24u32) & 0xff) as u8);
        },
        Endianness::Big => {
            out.push(((x >> 24u32) & 0xff) as u8);
            out.push(((x >> 16u32) & 0xff) as u8);
            out.push(((x >> 8u32) & 0xff) as u8);
            out.push((x & 0xff) as u8);
        },
    }
}

/// Append the eight bytes of `x` under `e` to `out`.
pub fn write_u64(e: Endianness, x: u64, out: &mut Vec<u8>)
    ensures
        final(out)@ =~= old(out)@ + u64_bytes(e, x),
{
    match e {
        Endianness::Little => {
            out.push((x & 0xff) as u8);
            out.push(((x >> 8u64) & 0xff) as u8);
            out.push(((x >> 16u64) & 0xff) as u8);
            out.push(((x >> 24u64) & 0xff) as u8);
            out.push(((x >> 32u64) & 0xff) as u8);
            out.push(((x >> 40u64) & 0xff) as u8);
            out.push(((x >> 48u64) & 0xff) as u8);
            out.push(((x >> 56u64) & 0xff) as u8);
        },
        Endianness::Big => {
            out.push(((x >> 56u64) & 0xff) as u8);
            out.push(((x >> 48u64) & 0xff) as u8);
            out.push(((x >> 40u64) & 0xff) as u8);
            out.push(((x >> 32u64) & 0xff) as u8);
            out.push(((x >> 24u64) & 0xff) as u8);
            out.push(((x >> 16u64) & 0xff) as u8);
            out.push(((x >> 8u64) & 0xff) as u8);
            out.push((x & 0xff) as u8);
        },
    }
}

/// Trait to read and write various numbers in one fixed byte order.
pub trait Number {
    /// The byte order that this strategy stands for.
    spec fn spec_endianness() -> Endianness;

    /// Get endianness of the number.
    fn endianness() -> (r: Endianness)
        ensures
            r == Self::spec_endianness(),
    ;

    /// Read a `u8`.
    fn read_u8(bytes: &[u8], pos: usize) -> (r: Option<(u8, usize)>)
        ensures
            read_u8_post(bytes@, pos as int, r),
    ;

    /// Read a `u16`.
    fn read_u16(bytes: &[u8], pos: usize) -> (r: Option<(u16, usize)>)
        ensures
            read_u16_post(Self::spec_endianness(), bytes@, pos as int, r),
    ;

    /// Read a `u32`.
    fn read_u32(bytes: &[u8], pos: usize) -> (r: Option<(u32, usize)>)
        ensures
            read_u32_post(Self::spec_endianness(), bytes@, pos as int, r),
    ;

    /// Read a `u64`.
    fn read_u64(bytes: &[u8], pos: usize) -> (r: Option<(u64, usize)>)
        ensures
            read_u64_post(Self::spec_endianness(), bytes@, pos as int, r),
    ;

    /// Write a `u8`.
    fn write_u8(x: u8, out: &mut Vec<u8>)
        ensures
            final(out)@ =~= old(out)@ + seq![x],
    ;

    /// Write a `u16`.
    fn write_u16(x: u16, out: &mut Vec<u8>)
        ensures
            final(out)@ =~= old(out)@ + u16_bytes(Self::spec_endianness(), x),
    ;

    /// Write a `u32`.
    fn write_u32(x: u32, out: &mut Vec<u8>)
        ensures
            final(out)@ =~= old(out)@ + u32_bytes(Self::spec_endianness(), x),
    ;

    /// Write a `u64`.
    fn write_u64(x: u64, out: &mut Vec<u8>)
        ensures
            final(out)@ =~= old(out)@ + u64_bytes(Self::spec_endianness(), x),
    ;
}

/// Type that implements [`Number`], which manipulates various little-endian
/// numbers.
pub struct LittleEndian;

impl Number for LittleEndian {
    open spec fn spec_endianness() -> Endianness {
        Endianness::Little
    }

    fn endianness() -> (r: Endianness) {
        Endianness::Little
    }

    fn read_u8(bytes: &[u8], pos: usize) -> (r: Option<(u8, usize)>) {
        crate::object::endianness::read_u8(Endianness::Little, bytes, pos)
    }

    fn read_u16(bytes: &[u8], pos: usize) -> (r: Option<(u16, usize)>) {
        crate::object::endianness::read_u16(Endianness::Little, bytes, pos)
    }

    fn read_u32(bytes: &[u8], pos: usize) -> (r: Option<(u32, usize)>) {
        crate::object::endianness::read_u32(Endianness::Little, bytes, pos)
    }

    fn read_u64(bytes: &[u8], pos: usize) -> (r: Option<(u64, usize)>) {
        crate::object::endianness::read_u64(Endianness::Little, bytes, pos)
    }

    fn write_u8(x: u8, out: &mut Vec<u8>) {
        crate::object::endianness::write_u8(Endianness::Little, x, out);
    }

    fn write_u16(x: u16, out: &mut Vec<u8>) {
        crate::object::endianness::write_u16(Endianness::Little, x, out);
    }

    fn write_u32(x: u32, out: &mut Vec<u8>) {
        crate::object::endianness::write_u32(Endianness::Little, x, out);
    }

    fn write_u64(x: u64, out: &mut Vec<u8>) {
        crate::object::endianness::write_u64(Endianness::Little, x, out);
    }
}

/// Type that implements [`Number`], which manipulates various big-endian
/// numbers.
pub struct BigEndian;

impl Number for BigEndian {
    open spec fn spec_endianness() -> Endianness {
        Endianness::Big
    }

    fn endianness() -> (r: Endianness) {
        Endianness::Big
    }

    fn read_u8(bytes: &[u8], pos: usize) -> (r: Option<(u8, usize)>) {
        crate::object::endianness::read_u8(Endianness::Big, bytes, pos)
    }

    fn read_u16(bytes: &[u8], pos: usize) -> (r: Option<(u16, usize)>) {
        crate::object::endianness::read_u16(Endianness::Big, bytes, pos)
    }

    fn read_u32(bytes: &[u8], pos: usize) -> (r: Option<(u32, usize)>) {
        crate::object::endianness::read_u32(Endianness::Big, bytes, pos)
    }

    fn read_u64(bytes: &[u8], pos: usize) -> (r: Option<(u64, usize)>) {
        crate::object::endianness::read_u64(Endianness::Big, bytes, pos)
    }

    fn write_u8(x: u8, out: &mut Vec<u8>) {
        crate::object::endianness::write_u8(Endianness::Big, x, out);
    }

    fn write_u16(x: u16, out: &mut Vec<u8>) {
        crate::object::endianness::write_u16(Endianness::Big, x, out);
    }

    fn write_u32(x: u32, out: &mut Vec<u8>) {
        crate::object::endianness::write_u32(Endianness::Big, x, out);
    }

    fn write_u64(x: u64, out: &mut Vec<u8>) {
        crate::object::endianness::write_u64(Endianness::Big, x, out);
    }
}

} // verus!
