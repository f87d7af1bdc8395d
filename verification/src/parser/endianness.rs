//! The number parsers of the read-only codec generation.

use vstd::prelude::*;

use crate::object::endianness::{
    read_u16, read_u32, read_u64, read_u8, read_u16_post, read_u32_post, read_u64_post,
    read_u8_post,
};

verus! {

/// Byte order of a file.
#[derive(Debug, Clone, Copy, PartialEq, Eq, Structural)]
pub enum Endianness {
    /// Little endian byte order.
    Little,
    /// Big endian byte order.
    Big,
}

impl Endianness {
    /// The byte-order strategy of the shared codec layer that this value
    /// stands for.
    pub open spec fn spec_order(self) -> crate::object::endianness::Endianness {
        match self {
            Endianness::Little => crate::object::endianness::Endianness::Little,
            Endianness::Big => crate::object::endianness::Endianness::Big,
        }
    }

    /// Turn this value into the byte-order strategy it stands for.
    pub fn order(self) -> (r: crate::object::endianness::Endianness)
        ensures
            r == self.spec_order(),
    {
        match self {
            Endianness::Little => crate::object::endianness::Endianness::Little,
            Endianness::Big => crate::object::endianness::Endianness::Big,
        }
    }
}

/// Trait to parse various numbers in one fixed byte order.
pub trait NumberParser {
    /// The byte order that this strategy stands for.
    spec fn spec_endianness() -> crate::object::endianness::Endianness;

    /// Get endianness used by the number parser.
    fn endianness() -> (r: Endianness)
        ensures
            r.spec_order() == Self::spec_endianness(),
    ;

    /// Parse a `u8`.
    fn u8(bytes: &[u8], pos: usize) -> (r: Option<(u8, usize)>)
        ensures
            read_u8_post(bytes@, pos as int, r),
    ;

    /// Parse a `u16`.
    fn u16(bytes: &[u8], pos: usize) -> (r: Option<(u16, usize)>)
        ensures
            read_u16_post(Self::spec_endianness(), bytes@, pos as int, r),
    ;

    /// Parse a `u32`.
    fn u32(bytes: &[u8], pos: usize) -> (r: Option<(u32, usize)>)
        ensures
            read_u32_post(Self::spec_endianness(), bytes@, pos as int, r),
    ;

    /// Parse a `u64`.
    fn u64(bytes: &[u8], pos: usize) -> (r: Option<(u64, usize)>)
        ensures
            read_u64_post(Self::spec_endianness(), bytes@, pos as int, r),
    ;
}

/// Type that implements [`NumberParser`], which parses various
/// little-endian numbers.
pub struct LittleEndian;

impl NumberParser for LittleEndian {
    open spec fn spec_endianness() -> crate::object::endianness::Endianness {
        crate::object::endianness::Endianness::Little
    }

    fn endianness() -> (r: Endianness) {
        Endianness::Little
    }

    fn u8(bytes: &[u8], pos: usize) -> (r: Option<(u8, usize)>) {
        read_u8(crate::object::endianness::Endianness::Little, bytes, pos)
    }

    fn u16(bytes: &[u8], pos: usize) -> (r: Option<(u16, usize)>) {
        read_u16(crate::object::endianness::Endianness::Little, bytes, pos)
    }

    fn u32(bytes: &[u8], pos: usize) -> (r: Option<(u32, usize)>) {
        read_u32(crate::object::endianness::Endianness::Little, bytes, pos)
    }

    fn u64(bytes: &[u8], pos: usize) -> (r: Option<(u64, usize)>) {
        read_u64(crate::object::endianness::Endianness::Little, bytes, pos)
    }
}

/// Type that implements [`NumberParser`], which parses various big-endian
/// numbers.
pub struct BigEndian;

impl NumberParser for BigEndian {
    open spec fn spec_endianness() -> crate::object::endianness::Endianness {
        crate::object::endianness::Endianness::Big
    }

    fn endianness() -> (r: Endianness) {
        Endianness::Big
    }

    fn u8(bytes: &[u8], pos: usize) -> (r: Option<(u8, usize)>) {
        read_u8(crate::object::endianness::Endianness::Big, bytes, pos)
    }

    fn u16(bytes: &[u8], pos: usize) -> (r: Option<(u16, usize)>) {
        read_u16(crate::object::endianness::Endianness::Big, bytes, pos)
    }

    fn u32(bytes: &[u8], pos: usize) -> (r: Option<(u32, usize)>) {
        read_u32(crate::object::endianness::Endianness::Big, bytes, pos)
    }

    fn u64(bytes: &[u8], pos: usize) -> (r: Option<(u64, usize)>) {
        read_u64(crate::object::endianness::Endianness::Big, bytes, pos)
    }
}

} // verus!
