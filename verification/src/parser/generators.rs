//! An alternative home of the number parsers, kept alongside
//! [`endianness`](crate::parser::endianness) with the generator-side
//! helpers.

use vstd::prelude::*;

use crate::object::endianness::{
    read_u16, read_u32, read_u64, read_u8, read_u16_post, read_u32_post, read_u64_post,
    read_u8_post,
};

verus! {

/// Trait to parse various numbers in one fixed byte order.
pub trait NumberParser {
    /// The byte order that this strategy stands for.
    spec fn spec_endianness() -> crate::object::endianness::Endianness;

    /// Parse a `u8`.
    fn u8(bytes: &[u8], pos: usize) -> (r: Option<(u8, usize)>)
        ensures
            read_u8_post(bytes@, pos as int, r),
    ;

    /// Parse a `u16`.
    fn u16(bytes: &[u8], pos: usize) -> (r: Option<(u16, usize)>)
        ensures
            read_u16_post(Self::spec_endianness(), bytes@, pos as int, r),
    ;

    /// Parse a `u32`.
    fn u32(bytes: &[u8], pos: usize) -> (r: Option<(u32, usize)>)
        ensures
            read_u32_post(Self::spec_endianness(), bytes@, pos as int, r),
    ;

    /// Parse a `u64`.
    fn u64(bytes: &[u8], pos: usize) -> (r: Option<(u64, usize)>)
        ensures
            read_u64_post(Self::spec_endianness(), bytes@, pos as int, r),
    ;
}

/// Type that implements [`NumberParser`], which parses various
/// little-endian numbers.
pub struct LittleEndian;

impl NumberParser for LittleEndian {
    open spec fn spec_endianness() -> crate::object::endianness::Endianness {
        crate::object::endianness::Endianness::Little
    }

    fn u8(bytes: &[u8], pos: usize) -> (r: Option<(u8, usize)>) {
        read_u8(crate::object::endianness::Endianness::Little, bytes, pos)
    }

    fn u16(bytes: &[u8], pos: usize) -> (r: Option<(u16, usize)>) {
        read_u16(crate::object::endianness::Endianness::Little, bytes, pos)
    }

    fn u32(bytes: &[u8], pos: usize) -> (r: Option<(u32, usize)>) {
        read_u32(crate::object::endianness::Endianness::Little, bytes, pos)
    }

    fn u64(bytes: &[u8], pos: usize) -> (r: Option<(u64, usize)>) {
        read_u64(crate::object::endianness::Endianness::Little, bytes, pos)
    }
}

/// Type that implements [`NumberParser`], which parses various big-endian
/// numbers.
pub struct BigEndian;

impl NumberParser for BigEndian {
    open spec fn spec_endianness() -> crate::object::endianness::Endianness {
        crate::object::endianness::Endianness::Big
    }

    fn u8(bytes: &[u8], pos: usize) -> (r: Option<(u8, usize)>) {
        read_u8(crate::object::endianness::Endianness::Big, bytes, pos)
    }

    fn u16(bytes: &[u8], pos: usize) -> (r: Option<(u16, usize)>) {
        read_u16(crate::object::endianness::Endianness::Big, bytes, pos)
    }

    fn u32(bytes: &[u8], pos: usize) -> (r: Option<(u32, usize)>) {
        read_u32(crate::object::endianness::Endianness::Big, bytes, pos)
    }

    fn u64(bytes: &[u8], pos: usize) -> (r: Option<(u64, usize)>) {
        read_u64(crate::object::endianness::Endianness::Big, bytes, pos)
    }
}

/// Advance the read position over `count` bytes without interpreting them,
/// failing when fewer than `count` bytes remain.
pub fn skip(bytes: &[u8], pos: usize, count: usize) -> (r: Option<usize>)
    ensures
        pos + count <= bytes@.len() ==> r == Some((pos + count) as usize),
        pos + count > bytes@.len() ==> r is None,
{
    let n = bytes.len();
    if pos > n || n - pos < count {
        return None;
    }
    Some(pos + count)
}

} // verus!
