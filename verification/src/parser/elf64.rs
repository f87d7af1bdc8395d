//! Elf64 support for the read-only codec generation.

use vstd::prelude::*;

use crate::object::elf64::{alignment_of_value, is_power_of_two};
use crate::object::endianness::{read_u64, u64_at, Endianness};

pub mod data;
pub mod file;
pub mod program;
pub mod section;
pub mod symbol;

verus! {

/// An address within the file.
#[derive(Debug, Clone, Copy, PartialEq, Eq, Structural)]
pub struct Address(pub u64);

/// The optional address that a `u64` field decodes to: zero stands for
/// absence.
pub open spec fn option_address_of_value(v: u64) -> Option<Address> {
    if v == 0 {
        None
    } else {
        Some(Address(v))
    }
}

impl Address {
    /// Parse an address from an eight-byte field.
    pub fn parse(e: Endianness, bytes: &[u8], pos: usize) -> (r: Option<(Address, usize)>)
        ensures
            r matches Some((a, p)) ==> pos + 8 <= bytes@.len() && a == Address(
                u64_at(e, bytes@, pos as int),
            ) && p == pos + 8,
            r is None <==> pos + 8 > bytes@.len(),
    {
        match read_u64(e, bytes, pos) {
            Some((value, next)) => Some((Address(value), next)),
            None => None,
        }
    }

    /// Parse an optional address from an eight-byte field; zero decodes to
    /// absence.
    pub fn maybe_parse(e: Endianness, bytes: &[u8], pos: usize) -> (r: Option<
        (Option<Address>, usize),
    >)
        ensures
            r matches Some((a, p)) ==> pos + 8 <= bytes@.len() && a == option_address_of_value(
                u64_at(e, bytes@, pos as int),
            ) && p == pos + 8,
            r is None <==> pos + 8 > bytes@.len(),
    {
        match Address::parse(e, bytes, pos) {
            Some((address, next)) => {
                if address.0 == 0 {
                    Some((None, next))
                } else {
                    Some((Some(address), next))
                }
            },
            None => None,
        }
    }
}

/// An alignment value.
///
/// It's guaranteed to be a non-zero power of two, when present at all.
#[derive(Debug, Clone, Copy, PartialEq, Eq)]
pub struct Alignment(pub Option<u64>);

/// The alignment that a `u64` field decodes to, in this generation's own
/// type: zero stands for no alignment, a power of two for itself, and
/// anything else is rejected.
pub open spec fn spec_alignment_of_value(v: u64) -> Option<Alignment> {
    if v == 0 {
        Some(Alignment(None))
    } else if is_power_of_two(v) {
        Some(Alignment(Some(v)))
    } else {
        None
    }
}

impl Alignment {
    /// A present alignment value is a power of two.
    pub open spec fn wf(self) -> bool {
        self.0 matches Some(v) ==> is_power_of_two(v)
    }

    /// Parse an alignment from an eight-byte field, rejecting values that
    /// are neither zero nor a power of two.
    pub fn parse(e: Endianness, bytes: &[u8], pos: usize) -> (r: Option<(Alignment, usize)>)
        ensures
            r matches Some((a, p)) ==> pos + 8 <= bytes@.len() && spec_alignment_of_value(
                u64_at(e, bytes@, pos as int),
            ) == Some(a) && p == pos + 8 && a.wf(),
            r is None <==> (pos + 8 > bytes@.len() || spec_alignment_of_value(
                u64_at(e, bytes@, pos as int),
            ) is None),
    {
        match read_u64(e, bytes, pos) {
            Some((value, next)) => {
                if value == 0 {
                    Some((Alignment(None), next))
                } else if value & (value - 1) == 0 {
                    Some((Alignment(Some(value)), next))
                } else {
                    None
                }
            },
            None => None,
        }
    }
}

} // verus!
