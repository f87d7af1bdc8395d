//! The byte contents of a program or section in the read-only codec
//! generation.

use vstd::prelude::*;

use crate::object::combinators::copy_bytes;
use crate::object::elf64::data::{find_nul, string_table_lookup};
use crate::parser::elf64::section::SectionType;
use crate::parser::endianness::Endianness;

verus! {

/// The type of `Data`.
#[derive(Debug, Clone, Copy, PartialEq, Eq, Structural)]
pub enum DataType {
    /// `Data` represents a string table.
    StringTable,
    /// `Data` represents a symbol table.
    SymbolTable,
    /// `Data` has unspecified data.
    Unspecified,
}

/// The interpretation that a section type gives to the bytes of its
/// section.
pub open spec fn data_type_of(value: SectionType) -> DataType {
    match value {
        SectionType::StringTable => DataType::StringTable,
        SectionType::SymbolTable => DataType::SymbolTable,
        _ => DataType::Unspecified,
    }
}

impl From<SectionType> for DataType {
    fn from(value: SectionType) -> (r: Self) {
        match value {
            SectionType::StringTable => DataType::StringTable,
            SectionType::SymbolTable => DataType::SymbolTable,
            _ => DataType::Unspecified,
        }
    }
}

impl vstd::std_specs::convert::FromSpecImpl<SectionType> for DataType {
    open spec fn obeys_from_spec() -> bool {
        true
    }

    open spec fn from_spec(value: SectionType) -> DataType {
        data_type_of(value)
    }
}

/// The mathematical image of a [`Data`] value.
pub struct DataModel {
    /// The bytes.
    pub bytes: Seq<u8>,
    /// How the bytes are to be interpreted.
    pub data_type: DataType,
    /// The byte order that multi-byte fields inside the bytes use.
    pub endianness: Endianness,
}

/// `Data` is a wrapper around owned bytes.
///
/// It represents the data owned by a [`Program`][super::program::Program]
/// or a [`Section`][super::section::Section].
#[derive(Debug, PartialEq, Eq)]
pub struct Data {
    /// Inner bytes.
    pub inner: Vec<u8>,
    /// The type of the data represented by the bytes.
    pub data_type: DataType,
    /// The endianness of the data.
    pub endianness: Endianness,
}

impl View for Data {
    type V = DataModel;

    open spec fn view(&self) -> DataModel {
        DataModel { bytes: self.inner@, data_type: self.data_type, endianness: self.endianness }
    }
}

impl Data {
    /// Create a new `Data` type, wrapping some bytes.
    pub fn new(inner: Vec<u8>, data_type: DataType, endianness: Endianness) -> (r: Self)
        ensures
            r@ == (DataModel { bytes: inner@, data_type, endianness }),
    {
        Self { inner, data_type, endianness }
    }

    /// Get the string at a specific offset, if and only if (i) the data
    /// type is [`DataType::StringTable`] and (ii) the string is
    /// null-terminated.
    ///
    /// The string is not guaranteed to be valid UTF-8. It is a byte vector.
    pub fn get_string_at_offset(&self, offset: usize) -> (r: Option<Vec<u8>>)
        ensures
            self.data_type != DataType::StringTable ==> r is None,
            self.data_type == DataType::StringTable ==> (match string_table_lookup(
                self.inner@,
                offset as int,
            ) {
                Some(s) => r matches Some(v) && v@ == s,
                None => r is None,
            }),
    {
        if !matches!(self.data_type, DataType::StringTable) {
            return None;
        }
        let n = self.inner.len();
        if offset >= n {
            return None;
        }
        let mut j = offset;
        while j < n && self.inner[j] != 0
            invariant
                offset <= j <= n,
                n == self.inner@.len(),
                find_nul(self.inner@, offset as int) == find_nul(self.inner@, j as int),
            decreases n - j,
        {
            j = j + 1;
        }
        if j == n {
            proof {
                assert(find_nul(self.inner@, j as int) is None);
            }
            return None;
        }
        proof {
            assert(find_nul(self.inner@, j as int) == Some(j as int));
        }
        Some(copy_bytes(self.inner.as_slice(), offset, j))
    }
}

} // verus!
