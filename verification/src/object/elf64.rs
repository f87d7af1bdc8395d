//! Elf64 support.

pub mod data;
pub mod file;
pub mod program;
pub mod section;
pub mod symbol;

use vstd::prelude::*;

use crate::object::endianness::{
    read_u32, read_u64, u32_at, u32_bytes, u64_at, u64_bytes, write_u32, write_u64,
    Endianness,
};

verus! {

/// An address within the file.
#[derive(Debug, Clone, Copy, PartialEq, Eq, Structural)]
pub struct Address(pub u64);

/// The value that an optional address is encoded as: zero stands for absence.
pub open spec fn option_address_value(a: Option<Address>) -> u64 {
    match a {
        Some(address) => address.0,
        None => 0,
    }
}

/// An optional address is canonical when absence, and only absence, is
/// encoded as zero.
pub open spec fn option_address_wf(a: Option<Address>) -> bool {
    a matches Some(address) ==> address.0 != 0
}

/// The optional address that a `u64` field decodes to.
pub open spec fn option_address_of_value(v: u64) -> Option<Address> {
    if v == 0 {
        None
    } else {
        Some(Address(v))
    }
}

impl Address {
    /// Read an address from an eight-byte field.
    pub fn read(e: Endianness, bytes: &[u8], pos: usize) -> (r: Option<(Address, usize)>)
        ensures
            r matches Some((a, p)) ==> pos + 8 <= bytes@.len() && a == Address(
                u64_at(e, bytes@, pos as int),
            ) && p == pos + 8,
            r is None <==> pos + 8 > bytes@.len(),
    {
        match read_u64(e, bytes, pos) {
            Some((value, next)) => Some((Address(value), next)),
            None => None,
        }
    }

    /// Read an address from a four-byte field, zero-extending it.
    pub fn read_u32(e: Endianness, bytes: &[u8], pos: usize) -> (r: Option<(Address, usize)>)
        ensures
            r matches Some((a, p)) ==> pos + 4 <= bytes@.len() && a == Address(
                u32_at(e, bytes@, pos as int) as u64,
            ) && p == pos + 4,
            r is None <==> pos + 4 > bytes@.len(),
    {
        match read_u32(e, bytes, pos) {
            Some((value, next)) => Some((Address(value as u64), next)),
            None => None,
        }
    }

    /// Read an optional address from an eight-byte field; zero decodes to
    /// absence.
    pub fn maybe_read(e: Endianness, bytes: &[u8], pos: usize) -> (r: Option<
        (Option<Address>, usize),
    >)
        ensures
            r matches Some((a, p)) ==> pos + 8 <= bytes@.len() && a == option_address_of_value(
                u64_at(e, bytes@, pos as int),
            ) && p == pos + 8,
            r is None <==> pos + 8 > bytes@.len(),
    {
        match read_u64(e, bytes, pos) {
            Some((value, next)) => {
                if value == 0 {
                    Some((None, next))
                } else {
                    Some((Some(Address(value)), next))
                }
            },
            None => None,
        }
    }

    /// Write the address as an eight-byte field.
    pub fn write(&self, e: Endianness, out: &mut Vec<u8>)
        ensures
            final(out)@ =~= old(out)@ + u64_bytes(e, self.0),
    {
        write_u64(e, self.0, out);
    }

    /// Write the address as a four-byte field; the value must fit in it.
    pub fn write_u32(&self, e: Endianness, out: &mut Vec<u8>)
        requires
            self.0 <= u32::MAX,
        ensures
            final(out)@ =~= old(out)@ + u32_bytes(e, self.0 as u32),
    {
        write_u32(e, self.0 as u32, out);
    }

    /// Write an optional address as an eight-byte field; absence is written
    /// as zero.
    pub fn maybe_write(a: &Option<Address>, e: Endianness, out: &mut Vec<u8>)
        ensures
            final(out)@ =~= old(out)@ + u64_bytes(e, option_address_value(*a)),
    {
        match a {
            Some(address) => address.write(e, out),
            None => write_u64(e, 0, out),
        }
    }

    /// Checked addition; the sum must not overflow the address width.
    pub fn add(self, other: Self) -> (r: Self)
        requires
            self.0 + other.0 <= u64::MAX,
        ensures
            r.0 == self.0 + other.0,
    {
        Address(self.0 + other.0)
    }
}

/// Reading back the eight bytes that an address was written as yields the
/// same address.
pub proof fn lemma_address_round_trip(e: Endianness, a: Address)
    ensures
        u64_bytes(e, a.0).len() == 8,
        Address(u64_at(e, u64_bytes(e, a.0), 0)) == a,
{
    crate::object::endianness::lemma_u64_round_trip(e, a.0);
}

/// Reading back the eight bytes that a canonical optional address was
/// written as yields the same optional address.
pub proof fn lemma_option_address_round_trip(e: Endianness, a: Option<Address>)
    requires
        option_address_wf(a),
    ensures
        option_address_of_value(u64_at(e, u64_bytes(e, option_address_value(a)), 0)) == a,
{
    crate::object::endianness::lemma_u64_round_trip(e, option_address_value(a));
}

/// An alignment value.
///
/// It's guaranteed to be a non-zero power of two, when present at all.
#[derive(Debug, Clone, Copy, PartialEq, Eq)]
pub struct Alignment(pub Option<u64>);

/// Whether `v` is a power of two.
pub open spec fn is_power_of_two(v: u64) -> bool {
    v != 0 && v & (v - 1) as u64 == 0
}

/// The alignment that a `u64` field decodes to: zero stands for no
/// alignment, a power of two for itself, and anything else is rejected.
pub open spec fn alignment_of_value(v: u64) -> Option<Alignment> {
    if v == 0 {
        Some(Alignment(None))
    } else if is_power_of_two(v) {
        Some(Alignment(Some(v)))
    } else {
        None
    }
}

impl Alignment {
    /// An alignment is well formed when a present value is a power of two.
    pub open spec fn wf(self) -> bool {
        self.0 matches Some(v) ==> is_power_of_two(v)
    }

    /// The value that the alignment is encoded as: absence is encoded as
    /// zero.
    pub open spec fn encoded_value(self) -> u64 {
        match self.0 {
            Some(v) => v,
            None => 0,
        }
    }

    /// Make an alignment from a raw value, if the value is zero or a power
    /// of two.
    pub fn new(v: u64) -> (r: Option<Alignment>)
        ensures
            r == alignment_of_value(v),
            r matches Some(a) ==> a.wf(),
    {
        if v == 0 {
            Some(Alignment(None))
        } else if v & (v - 1) == 0 {
            Some(Alignment(Some(v)))
        } else {
            None
        }
    }

    /// Read an alignment from an eight-byte field, rejecting values that are
    /// neither zero nor a power of two.
    pub fn read(e: Endianness, bytes: &[u8], pos: usize) -> (r: Option<(Alignment, usize)>)
        ensures
            r matches Some((a, p)) ==> pos + 8 <= bytes@.len() && alignment_of_value(
                u64_at(e, bytes@, pos as int),
            ) == Some(a) && p == pos + 8 && a.wf(),
            r is None <==> (pos + 8 > bytes@.len() || alignment_of_value(
                u64_at(e, bytes@, pos as int),
            ) is None),
    {
        match read_u64(e, bytes, pos) {
            Some((value, next)) => {
                match Alignment::new(value) {
                    Some(alignment) => Some((alignment, next)),
                    None => None,
                }
            },
            None => None,
        }
    }

    /// Write the alignment as an eight-byte field; absence is written as
    /// zero.
    pub fn write(&self, e: Endianness, out: &mut Vec<u8>)
        ensures
            final(out)@ =~= old(out)@ + u64_bytes(e, self.encoded_value()),
    {
        match self.0 {
            Some(v) => write_u64(e, v, out),
            None => write_u64(e, 0, out),
        }
    }
}

/// Reading back the eight bytes that a well-formed alignment was written as
/// yields the same alignment.
pub proof fn lemma_alignment_round_trip(e: Endianness, a: Alignment)
    requires
        a.wf(),
    ensures
        alignment_of_value(u64_at(e, u64_bytes(e, a.encoded_value()), 0)) == Some(a),
{
    crate::object::endianness::lemma_u64_round_trip(e, a.encoded_value());
}

} // verus!
