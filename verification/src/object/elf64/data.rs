//! The byte contents of a program or section, together with the tag that
//! says how those bytes are to be interpreted.

use vstd::prelude::*;

use crate::object::combinators::copy_bytes;
use crate::object::elf64::section::SectionType;
use crate::object::endianness::Endianness;

verus! {

/// The type of `Data`.
#[derive(Debug, Clone, Copy, PartialEq, Eq, Structural)]
pub enum DataType {
    /// `Data` represents a string table.
    StringTable,
    /// `Data` represents a symbol table.
    SymbolTable,
    /// `Data` represents program data.
    ProgramData,
    /// `Data` has unspecified data.
    Unspecified,
}

/// The interpretation that a section type gives to the bytes of its
/// section.
pub open spec fn data_type_of(value: SectionType) -> DataType {
    match value {
        SectionType::StringTable => DataType::StringTable,
        SectionType::SymbolTable => DataType::SymbolTable,
        SectionType::ProgramData => DataType::ProgramData,
        _ => DataType::Unspecified,
    }
}

impl From<SectionType> for DataType {
    fn from(value: SectionType) -> (r: Self) {
        match value {
            SectionType::StringTable => DataType::StringTable,
            SectionType::SymbolTable => DataType::SymbolTable,
            SectionType::ProgramData => DataType::ProgramData,
            _ => DataType::Unspecified,
        }
    }
}

impl vstd::std_specs::convert::FromSpecImpl<SectionType> for DataType {
    open spec fn obeys_from_spec() -> bool {
        true
    }

    open spec fn from_spec(value: SectionType) -> DataType {
        data_type_of(value)
    }
}

/// The mathematical image of a [`Data`] value.
pub struct DataModel {
    /// The bytes.
    pub bytes: Seq<u8>,
    /// How the bytes are to be interpreted.
    pub data_type: DataType,
    /// The byte order that multi-byte fields inside the bytes use.
    pub endianness: Endianness,
    /// The size of each entry, for fixed-sized entries.
    pub entity_size: Option<u64>,
}

impl DataModel {
    /// An entry size, when present, is never zero.
    pub open spec fn wf(self) -> bool {
        self.entity_size matches Some(v) ==> v != 0
    }
}

/// `Data` is a wrapper around owned bytes.
///
/// It represents the data owned by a [`Program`][super::program::Program] or
/// a [`Section`][super::section::Section].
#[derive(Debug, PartialEq, Eq)]
pub struct Data {
    /// Inner bytes.
    pub inner: Vec<u8>,
    /// The type of the data represented by the bytes.
    pub data_type: DataType,
    /// The endianness of the data.
    pub endianness: Endianness,
    /// The size, in bytes, of each entry, if the data represents fixed-sized
    /// entries.
    pub entity_size: Option<u64>,
}

impl View for Data {
    type V = DataModel;

    open spec fn view(&self) -> DataModel {
        DataModel {
            bytes: self.inner@,
            data_type: self.data_type,
            endianness: self.endianness,
            entity_size: self.entity_size,
        }
    }
}

/// The position of the first zero byte of `b` at or after `i`, if there is
/// one.
pub open spec fn find_nul(b: Seq<u8>, i: int) -> Option<int>
    decreases b.len() - i,
    when 0 <= i <= b.len()
{
    if i >= b.len() {
        None
    } else if b[i] == 0 {
        Some(i)
    } else {
        find_nul(b, i + 1)
    }
}

/// The string that a string table holds at `offset`: the bytes from
/// `offset` up to, but not including, the first zero byte, if the offset is
/// in range and a zero byte follows it.
pub open spec fn string_table_lookup(b: Seq<u8>, offset: int) -> Option<Seq<u8>> {
    if 0 <= offset < b.len() {
        match find_nul(b, offset) {
            Some(end) => Some(b.subrange(offset, end)),
            None => None,
        }
    } else {
        None
    }
}

impl Data {
    /// An entry size, when present, is never zero.
    pub open spec fn wf(self) -> bool {
        self@.wf()
    }

    /// Create a new `Data` type, wrapping some bytes.
    pub fn new(
        inner: Vec<u8>,
        data_type: DataType,
        endianness: Endianness,
        entity_size: Option<u64>,
    ) -> (r: Self)
        requires
            entity_size matches Some(v) ==> v != 0,
        ensures
            r@ == (DataModel { bytes: inner@, data_type, endianness, entity_size }),
            r.wf(),
    {
        Self { inner, data_type, endianness, entity_size }
    }

    /// Get the string at a specific offset, if and only if (i) the data type
    /// is [`DataType::StringTable`], (ii) the string is null-terminated, and
    /// (iii) the offset exists.
    ///
    /// The string is not guaranteed to be valid UTF-8. It is a byte vector.
    pub fn string_at_offset(&self, offset: usize) -> (r: Option<Vec<u8>>)
        ensures
            self.data_type != DataType::StringTable ==> r is None,
            self.data_type == DataType::StringTable ==> (match string_table_lookup(
                self.inner@,
                offset as int,
            ) {
                Some(s) => r matches Some(v) && v@ == s,
                None => r is None,
            }),
    {
        if !matches!(self.data_type, DataType::StringTable) {
            return None;
        }
        let n = self.inner.len();
        if offset >= n {
            return None;
        }
        let mut j = offset;
        while j < n && self.inner[j] != 0
            invariant
                offset <= j <= n,
                n == self.inner@.len(),
                find_nul(self.inner@, offset as int) == find_nul(self.inner@, j as int),
            decreases n - j,
        {
            j = j + 1;
        }
        if j == n {
            proof {
                assert(find_nul(self.inner@, j as int) is None);
            }
            return None;
        }
        proof {
            assert(find_nul(self.inner@, j as int) == Some(j as int));
        }
        Some(copy_bytes(self.inner.as_slice(), offset, j))
    }
}

} // verus!
