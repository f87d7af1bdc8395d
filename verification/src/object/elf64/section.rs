//! Section headers.

use vstd::prelude::*;

use crate::object::combinators::copy_bytes;
use crate::object::elf64::data::{data_type_of, Data, DataModel, DataType};
use crate::object::elf64::{alignment_of_value, Address, Alignment};
use crate::object::endianness::{
    read_u16, read_u32, read_u64, u16_at, u16_bytes, u32_at, u32_bytes, u64_at, u64_bytes,
    write_u16, write_u32, write_u64, Endianness,
};

verus! {

/// Section type.
#[derive(Debug, Clone, Copy, PartialEq, Eq, Structural)]
pub enum SectionType {
    /// Mark an unused section header.
    Null,
    /// The section contains information defined by the program.
    ProgramData,
    /// The section contains a linker symbol table.
    SymbolTable,
    /// The section contains a string table.
    StringTable,
    /// The section contains relocation entries with addends.
    RelocationWithAddends,
    /// The section contains a symbol hash table.
    SymbolHashTable,
    /// The section contains dynamic linking tables.
    DynamicLinkingTable,
    /// The section contains note information.
    Note,
    /// The section contains uninitialized space; it does not occupy any space in the file.
    NoBits,
    /// The section contains relocation entries without addends.
    Relocation,
    /// Reserved.
    Shlib,
    /// The section contains a dynamic loader symbol table.
    DynamicLoaderSymbolTable,
    /// Array of constructors.
    ArrayOfConstructors,
    /// Array of destructors.
    ArrayOfDestructors,
    /// Array of pre-constructors.
    ArrayOfPreConstructors,
    /// Section group.
    Group,
    /// Extended section indices.
    ExtendedSectionIndices,
    /// Number of defined types.
    NumberOfDefinedTypes,
    /// Low environment-specific use.
    LowEnvironmentSpecific,
    /// High environment-specific use.
    HighEnvironmentSpecific,
    /// Low processor-specific use.
    LowProcessorSpecific,
    /// High processor-specific use.
    HighProcessorSpecific,
}

impl SectionType {
    /// The on-disk discriminant of this variant.
    pub open spec fn code(self) -> u32 {
        match self {
            SectionType::Null => 0x00,
            SectionType::ProgramData => 0x01,
            SectionType::SymbolTable => 0x02,
            SectionType::StringTable => 0x03,
            SectionType::RelocationWithAddends => 0x04,
            SectionType::SymbolHashTable => 0x05,
            SectionType::DynamicLinkingTable => 0x06,
            SectionType::Note => 0x07,
            SectionType::NoBits => 0x08,
            SectionType::Relocation => 0x09,
            SectionType::Shlib => 0x0a,
            SectionType::DynamicLoaderSymbolTable => 0x0b,
            SectionType::ArrayOfConstructors => 0x0e,
            SectionType::ArrayOfDestructors => 0x0f,
            SectionType::ArrayOfPreConstructors => 0x10,
            SectionType::Group => 0x11,
            SectionType::ExtendedSectionIndices => 0x12,
            SectionType::NumberOfDefinedTypes => 0x13,
            SectionType::LowEnvironmentSpecific => 0x6000_0000,
            SectionType::HighEnvironmentSpecific => 0x6fff_ffff,
            SectionType::LowProcessorSpecific => 0x7000_0000,
            SectionType::HighProcessorSpecific => 0x7fff_ffff,
        }
    }

    /// The variant that a discriminant decodes to, if it is recognised.
    pub open spec fn from_code(v: u32) -> Option<SectionType> {
        if v == 0x00 {
            Some(SectionType::Null)
        } else if v == 0x01 {
            Some(SectionType::ProgramData)
        } else if v == 0x02 {
            Some(SectionType::SymbolTable)
        } else if v == 0x03 {
            Some(SectionType::StringTable)
        } else if v == 0x04 {
            Some(SectionType::RelocationWithAddends)
        } else if v == 0x05 {
            Some(SectionType::SymbolHashTable)
        } else if v == 0x06 {
            Some(SectionType::DynamicLinkingTable)
        } else if v == 0x07 {
            Some(SectionType::Note)
        } else if v == 0x08 {
            Some(SectionType::NoBits)
        } else if v == 0x09 {
            Some(SectionType::Relocation)
        } else if v == 0x0a {
            Some(SectionType::Shlib)
        } else if v == 0x0b {
            Some(SectionType::DynamicLoaderSymbolTable)
        } else if v == 0x0e {
            Some(SectionType::ArrayOfConstructors)
        } else if v == 0x0f {
            Some(SectionType::ArrayOfDestructors)
        } else if v == 0x10 {
            Some(SectionType::ArrayOfPreConstructors)
        } else if v == 0x11 {
            Some(SectionType::Group)
        } else if v == 0x12 {
            Some(SectionType::ExtendedSectionIndices)
        } else if v == 0x13 {
            Some(SectionType::NumberOfDefinedTypes)
        } else if v == 0x6000_0000 {
            Some(SectionType::LowEnvironmentSpecific)
        } else if v == 0x6fff_ffff {
            Some(SectionType::HighEnvironmentSpecific)
        } else if v == 0x7000_0000 {
            Some(SectionType::LowProcessorSpecific)
        } else if v == 0x7fff_ffff {
            Some(SectionType::HighProcessorSpecific)
        } else {
            None
        }
    }

    /// Decode a `SectionType` from its 4-byte discriminant field.
    pub fn read(e: Endianness, bytes: &[u8], pos: usize) -> (r: Option<(SectionType, usize)>)
        ensures
            r matches Some((v, p)) ==> pos + 4 <= bytes@.len() && SectionType::from_code(
                u32_at(e, bytes@, pos as int),
            ) == Some(v) && p == pos + 4,
            r is None <==> (pos + 4 > bytes@.len() || SectionType::from_code(u32_at(e, bytes@, pos as int)) is None),
    {
        match read_u32(e, bytes, pos) {
            Some((value, next)) => {
                let decoded = match value {
                    0x00 => Some(SectionType::Null),
                    0x01 => Some(SectionType::ProgramData),
                    0x02 => Some(SectionType::SymbolTable),
                    0x03 => Some(SectionType::StringTable),
                    0x04 => Some(SectionType::RelocationWithAddends),
                    0x05 => Some(SectionType::SymbolHashTable),
                    0x06 => Some(SectionType::DynamicLinkingTable),
                    0x07 => Some(SectionType::Note),
                    0x08 => Some(SectionType::NoBits),
                    0x09 => Some(SectionType::Relocation),
                    0x0a => Some(SectionType::Shlib),
                    0x0b => Some(SectionType::DynamicLoaderSymbolTable),
                    0x0e => Some(SectionType::ArrayOfConstructors),
                    0x0f => Some(SectionType::ArrayOfDestructors),
                    0x10 => Some(SectionType::ArrayOfPreConstructors),
                    0x11 => Some(SectionType::Group),
                    0x12 => Some(SectionType::ExtendedSectionIndices),
                    0x13 => Some(SectionType::NumberOfDefinedTypes),
                    0x6000_0000 => Some(SectionType::LowEnvironmentSpecific),
                    0x6fff_ffff => Some(SectionType::HighEnvironmentSpecific),
                    0x7000_0000 => Some(SectionType::LowProcessorSpecific),
                    0x7fff_ffff => Some(SectionType::HighProcessorSpecific),
                    _ => None,
                };
                match decoded {
                    Some(v) => Some((v, next)),
                    None => None,
                }
            },
            None => None,
        }
    }

    /// Encode the discriminant of this variant as a 4-byte field.
    pub fn write(&self, e: Endianness, out: &mut Vec<u8>)
        ensures
            final(out)@ =~= old(out)@ + u32_bytes(e, self.code()),
    {
        let v: u32 = match self {
            SectionType::Null => 0x00,
            SectionType::ProgramData => 0x01,
            SectionType::SymbolTable => 0x02,
            SectionType::StringTable => 0x03,
            SectionType::RelocationWithAddends => 0x04,
            SectionType::SymbolHashTable => 0x05,
            SectionType::DynamicLinkingTable => 0x06,
            SectionType::Note => 0x07,
            SectionType::NoBits => 0x08,
            SectionType::Relocation => 0x09,
            SectionType::Shlib => 0x0a,
            SectionType::DynamicLoaderSymbolTable => 0x0b,
            SectionType::ArrayOfConstructors => 0x0e,
            SectionType::ArrayOfDestructors => 0x0f,
            SectionType::ArrayOfPreConstructors => 0x10,
            SectionType::Group => 0x11,
            SectionType::ExtendedSectionIndices => 0x12,
            SectionType::NumberOfDefinedTypes => 0x13,
            SectionType::LowEnvironmentSpecific => 0x6000_0000,
            SectionType::HighEnvironmentSpecific => 0x6fff_ffff,
            SectionType::LowProcessorSpecific => 0x7000_0000,
            SectionType::HighProcessorSpecific => 0x7fff_ffff,
        };
        write_u32(e, v, out);
    }
}

/// Decoding the written discriminant of any `SectionType` variant yields that
/// variant back.
pub proof fn lemma_section_type_round_trip(e: Endianness, v: SectionType)
    ensures
        SectionType::from_code(u32_at(e, u32_bytes(e, v.code()), 0)) == Some(v),
{
    crate::object::endianness::lemma_u32_round_trip(e, v.code());
}


/// Section flag.
#[derive(Debug, Clone, Copy, PartialEq, Eq, Structural)]
pub enum SectionFlag {
    /// The section contains writable data.
    Writable,
    /// The section is allocated in memory image of program.
    Allocable,
    /// The section contains executable instructions.
    Executable,
    /// The section might be merged.
    Merge,
    /// The section contains null-terminated strings.
    Strings,
    /// `sh_info` contains SHT index.
    InfoLink,
    /// Preserve order after combining.
    LinkOrder,
    /// Non-standard OS specific handling required.
    OsNonConforming,
    /// Section is member of a group.
    IsPartOfAGroup,
    /// Section hold thread-local data.
    HasThreadLocalData,
}

impl SectionFlag {
    /// The bit of the flag word that this flag stands for.
    pub open spec fn spec_bit(self) -> u64 {
        match self {
            SectionFlag::Writable => 0x01,
            SectionFlag::Allocable => 0x02,
            SectionFlag::Executable => 0x04,
            SectionFlag::Merge => 0x10,
            SectionFlag::Strings => 0x20,
            SectionFlag::InfoLink => 0x40,
            SectionFlag::LinkOrder => 0x80,
            SectionFlag::OsNonConforming => 0x100,
            SectionFlag::IsPartOfAGroup => 0x200,
            SectionFlag::HasThreadLocalData => 0x400,
        }
    }

    /// The bit of the flag word that this flag stands for.
    pub fn bit(self) -> (r: u64)
        ensures
            r == self.spec_bit(),
    {
        match self {
            SectionFlag::Writable => 0x01,
            SectionFlag::Allocable => 0x02,
            SectionFlag::Executable => 0x04,
            SectionFlag::Merge => 0x10,
            SectionFlag::Strings => 0x20,
            SectionFlag::InfoLink => 0x40,
            SectionFlag::LinkOrder => 0x80,
            SectionFlag::OsNonConforming => 0x100,
            SectionFlag::IsPartOfAGroup => 0x200,
            SectionFlag::HasThreadLocalData => 0x400,
        }
    }
}

/// A set of section flags, stored as the bit mask it is written as.
#[derive(Debug, Clone, Copy, PartialEq, Eq, Structural)]
pub struct SectionFlags {
    /// The raw bit mask.
    pub bits: u64,
}

impl SectionFlags {
    /// Flags are well formed when only declared bits are present.
    pub open spec fn wf(self) -> bool {
        self.bits & !0x7f7u64 == 0
    }

    /// The set of flags that a flag word decodes to, if no bit outside the
    /// declared set is present.
    pub open spec fn spec_from_bits(v: u64) -> Option<SectionFlags> {
        if v & !0x7f7u64 == 0 {
            Some(SectionFlags { bits: v })
        } else {
            None
        }
    }

    /// The empty set of flags.
    pub fn empty() -> (r: Self)
        ensures
            r.bits == 0,
            r.wf(),
    {
        proof {
            assert(0u64 & !0x7f7u64 == 0) by (bit_vector);
        }
        SectionFlags { bits: 0 }
    }

    /// Make a set of flags from a flag word, if no bit outside the declared
    /// set is present.
    pub fn from_bits(v: u64) -> (r: Option<Self>)
        ensures
            r == Self::spec_from_bits(v),
            r matches Some(f) ==> f.wf(),
    {
        if v & !0x7f7u64 == 0 {
            Some(SectionFlags { bits: v })
        } else {
            None
        }
    }

    /// The raw bit mask.
    pub fn bits(&self) -> (r: u64)
        ensures
            r == self.bits,
    {
        self.bits
    }

    /// Whether `flag` is in the set.
    pub fn contains(&self, flag: SectionFlag) -> (r: bool)
        ensures
            r == (self.bits & flag.spec_bit() != 0),
    {
        self.bits & flag.bit() != 0
    }

    /// Read section flags from an eight-byte field, rejecting any bit
    /// outside the declared set.
    pub fn read(e: Endianness, bytes: &[u8], pos: usize) -> (r: Option<(SectionFlags, usize)>)
        ensures
            r matches Some((f, p)) ==> pos + 8 <= bytes@.len() && Self::spec_from_bits(
                u64_at(e, bytes@, pos as int),
            ) == Some(f) && p == pos + 8 && f.wf(),
            r is None <==> (pos + 8 > bytes@.len() || Self::spec_from_bits(
                u64_at(e, bytes@, pos as int),
            ) is None),
    {
        match read_u64(e, bytes, pos) {
            Some((value, next)) => {
                match Self::from_bits(value) {
                    Some(flags) => Some((flags, next)),
                    None => None,
                }
            },
            None => None,
        }
    }

    /// Write the flag word as an eight-byte field.
    pub fn write(&self, e: Endianness, out: &mut Vec<u8>)
        ensures
            final(out)@ =~= old(out)@ + u64_bytes(e, self.bits),
    {
        write_u64(e, self.bits, out);
    }
}

/// Decoding the written flag word of any well-formed set of section flags
/// yields that set back.
pub proof fn lemma_section_flags_round_trip(e: Endianness, f: SectionFlags)
    requires
        f.wf(),
    ensures
        SectionFlags::spec_from_bits(u64_at(e, u64_bytes(e, f.bits), 0)) == Some(f),
{
    crate::object::endianness::lemma_u64_round_trip(e, f.bits);
}

/// Section index.
#[derive(Debug, Clone, Copy, PartialEq, Eq, Structural)]
pub enum SectionIndex {
    /// A valid section index.
    Index(usize),
    /// An undefined or meaningless section reference.
    Undefined,
    /// Processor-specific use.
    LowProcessorSpecific,
    /// Processor-specific use.
    HighProcessorSpecific,
    /// Environment-specific use.
    LowEnvironmentSpecific,
    /// Environment-specific use.
    HighEnvironmentSpecific,
    /// The corresponding reference is an absolute value.
    Absolute,
    /// A symbol that has been declared as a common block (Fortran COMMON or
    /// C tentative declaration).
    Common,
}

impl SectionIndex {
    /// Whether `v` is one of the reserved index values.
    pub open spec fn is_reserved_value(v: u32) -> bool {
        v == 0x0000 || v == 0xff00 || v == 0xff1f || v == 0xff20 || v == 0xff3f || v == 0xfff1
            || v == 0xfff2
    }

    /// The section index that a raw value decodes to.
    pub open spec fn of_value(v: u32) -> SectionIndex {
        if v == 0x0000 {
            SectionIndex::Undefined
        } else if v == 0xff00 {
            SectionIndex::LowProcessorSpecific
        } else if v == 0xff1f {
            SectionIndex::HighProcessorSpecific
        } else if v == 0xff20 {
            SectionIndex::LowEnvironmentSpecific
        } else if v == 0xff3f {
            SectionIndex::HighEnvironmentSpecific
        } else if v == 0xfff1 {
            SectionIndex::Absolute
        } else if v == 0xfff2 {
            SectionIndex::Common
        } else {
            SectionIndex::Index(v as usize)
        }
    }

    /// The raw value that the section index is written as.
    pub open spec fn spec_value(self) -> int {
        match self {
            SectionIndex::Undefined => 0x0000,
            SectionIndex::LowProcessorSpecific => 0xff00,
            SectionIndex::HighProcessorSpecific => 0xff1f,
            SectionIndex::LowEnvironmentSpecific => 0xff20,
            SectionIndex::HighEnvironmentSpecific => 0xff3f,
            SectionIndex::Absolute => 0xfff1,
            SectionIndex::Common => 0xfff2,
            SectionIndex::Index(index) => index as int,
        }
    }

    /// A plain index is canonical for a two-byte field when it fits the
    /// field and collides with no reserved value.
    pub open spec fn wf_u16(self) -> bool {
        self matches SectionIndex::Index(index) ==> index <= 0xffff
            && !Self::is_reserved_value(index as u32)
    }

    /// A plain index is canonical for a four-byte field when it fits the
    /// field and collides with no reserved value.
    pub open spec fn wf_u32(self) -> bool {
        self matches SectionIndex::Index(index) ==> index <= 0xffff_ffffu32
            && !Self::is_reserved_value(index as u32)
    }

    /// Classify a raw index value.
    pub fn _read(index: u32) -> (r: Self)
        ensures
            r == Self::of_value(index),
    {
        match index {
            0x0000 => SectionIndex::Undefined,
            0xff00 => SectionIndex::LowProcessorSpecific,
            0xff1f => SectionIndex::HighProcessorSpecific,
            0xff20 => SectionIndex::LowEnvironmentSpecific,
            0xff3f => SectionIndex::HighEnvironmentSpecific,
            0xfff1 => SectionIndex::Absolute,
            0xfff2 => SectionIndex::Common,
            _ => SectionIndex::Index(index as usize),
        }
    }

    /// Read a section index from a two-byte field.
    pub fn read_u16(e: Endianness, bytes: &[u8], pos: usize) -> (r: Option<(SectionIndex, usize)>)
        ensures
            r matches Some((s, p)) ==> pos + 2 <= bytes@.len() && s == Self::of_value(
                u16_at(e, bytes@, pos as int) as u32,
            ) && p == pos + 2,
            r is None <==> pos + 2 > bytes@.len(),
    {
        match read_u16(e, bytes, pos) {
            Some((value, next)) => Some((Self::_read(value as u32), next)),
            None => None,
        }
    }

    /// Read a section index from a four-byte field.
    pub fn read_u32(e: Endianness, bytes: &[u8], pos: usize) -> (r: Option<(SectionIndex, usize)>)
        ensures
            r matches Some((s, p)) ==> pos + 4 <= bytes@.len() && s == Self::of_value(
                u32_at(e, bytes@, pos as int),
            ) && p == pos + 4,
            r is None <==> pos + 4 > bytes@.len(),
    {
        match read_u32(e, bytes, pos) {
            Some((value, next)) => Some((Self::_read(value), next)),
            None => None,
        }
    }

    /// Write the section index as a two-byte field; a plain index must fit
    /// in it.
    pub fn write_u16(&self, e: Endianness, out: &mut Vec<u8>)
        requires
            self matches SectionIndex::Index(index) ==> index <= 0xffff,
        ensures
            final(out)@ =~= old(out)@ + u16_bytes(e, self.spec_value() as u16),
    {
        let v: u16 = match self {
            SectionIndex::Undefined => 0x0000,
            SectionIndex::LowProcessorSpecific => 0xff00,
            SectionIndex::HighProcessorSpecific => 0xff1f,
            SectionIndex::LowEnvironmentSpecific => 0xff20,
            SectionIndex::HighEnvironmentSpecific => 0xff3f,
            SectionIndex::Absolute => 0xfff1,
            SectionIndex::Common => 0xfff2,
            SectionIndex::Index(index) => *index as u16,
        };
        write_u16(e, v, out);
    }

    /// Write the section index as a four-byte field; a plain index must fit
    /// in it.
    pub fn write_u32(&self, e: Endianness, out: &mut Vec<u8>)
        requires
            self matches SectionIndex::Index(index) ==> index <= 0xffff_ffffu32,
        ensures
            final(out)@ =~= old(out)@ + u32_bytes(e, self.spec_value() as u32),
    {
        let v: u32 = match self {
            SectionIndex::Undefined => 0x0000,
            SectionIndex::LowProcessorSpecific => 0xff00,
            SectionIndex::HighProcessorSpecific => 0xff1f,
            SectionIndex::LowEnvironmentSpecific => 0xff20,
            SectionIndex::HighEnvironmentSpecific => 0xff3f,
            SectionIndex::Absolute => 0xfff1,
            SectionIndex::Common => 0xfff2,
            SectionIndex::Index(index) => *index as u32,
        };
        write_u32(e, v, out);
    }
}

/// Decoding the written two-byte value of any canonical section index
/// yields that index back.
pub proof fn lemma_section_index_round_trip_u16(e: Endianness, s: SectionIndex)
    requires
        s.wf_u16(),
    ensures
        SectionIndex::of_value(
            u16_at(e, u16_bytes(e, s.spec_value() as u16), 0) as u32,
        ) == s,
{
    crate::object::endianness::lemma_u16_round_trip(e, s.spec_value() as u16);
}

/// Decoding the written four-byte value of any canonical section index
/// yields that index back.
pub proof fn lemma_section_index_round_trip_u32(e: Endianness, s: SectionIndex)
    requires
        s.wf_u32(),
    ensures
        SectionIndex::of_value(u32_at(e, u32_bytes(e, s.spec_value() as u32), 0)) == s,
{
    crate::object::endianness::lemma_u32_round_trip(e, s.spec_value() as u32);
}


/// The value that an optional entry size is encoded as: absence is encoded
/// as zero.
pub open spec fn option_entity_value(o: Option<u64>) -> u64 {
    match o {
        Some(v) => v,
        None => 0,
    }
}

/// The mathematical image of a [`Section`] value.
pub struct SectionModel {
    /// Name of the section, if any.
    pub name: Option<Seq<u8>>,
    /// An offset to a string in the section that holds the section names.
    pub name_offset: Address,
    /// Type of the section header.
    pub section_type: SectionType,
    /// Flags.
    pub flags: SectionFlags,
    /// Virtual address of the section in memory, for sections that are
    /// loaded.
    pub virtual_address: Address,
    /// Offset of the section in the file image.
    pub offset: Address,
    /// Size in bytes of the section in the file image.
    pub segment_size_in_file_image: Address,
    /// The section index of an associated section.
    pub link: SectionIndex,
    /// Extra information about the section.
    pub information: u32,
    /// The required alignment of the section.
    pub alignment: Alignment,
    /// The size of each entry, for sections that contain fixed-sized
    /// entries.
    pub entity_size: Option<u64>,
    /// The bytes of the section in the file image.
    pub data: DataModel,
}

/// Section header.
#[derive(Debug, PartialEq, Eq)]
pub struct Section {
    /// Name of the section, if any.
    pub name: Option<Vec<u8>>,
    /// An offset to a string in the `.shstrtab` section that represents the
    /// name of this section.
    pub name_offset: Address,
    /// Type of the section header.
    pub section_type: SectionType,
    /// Flags.
    pub flags: SectionFlags,
    /// Virtual address of the section in memory, for sections that are
    /// loaded.
    pub virtual_address: Address,
    /// Offset of the section in the file image.
    pub offset: Address,
    /// Size in bytes of the section in the file image. May be 0.
    pub segment_size_in_file_image: Address,
    /// Contains the section index of an associated section. This field is
    /// used for several purposes, depending on the type of section.
    pub link: SectionIndex,
    /// Contains extra information about the section. This field is used for
    /// several purposes, depending on the type of section.
    pub information: u32,
    /// Contains the required alignment of the section.
    pub alignment: Alignment,
    /// Contains some size, in bytes, of each entry, for sections that
    /// contain fixed-sized entries.
    pub entity_size: Option<u64>,
    /// Data.
    pub data: Data,
}

impl View for Section {
    type V = SectionModel;

    open spec fn view(&self) -> SectionModel {
        SectionModel {
            name: match self.name {
                Some(ref n) => Some(n@),
                None => None,
            },
            name_offset: self.name_offset,
            section_type: self.section_type,
            flags: self.flags,
            virtual_address: self.virtual_address,
            offset: self.offset,
            segment_size_in_file_image: self.segment_size_in_file_image,
            link: self.link,
            information: self.information,
            alignment: self.alignment,
            entity_size: self.entity_size,
            data: self.data@,
        }
    }
}

/// The section header that 64 bytes of `input` starting at `pos` decode to,
/// if they decode at all; the section's data view is cut out of `file` and
/// tagged after the section type. The name is left unresolved.
#[verifier::opaque]
pub open spec fn spec_parse_section(
    e: Endianness,
    input: Seq<u8>,
    pos: int,
    file: Seq<u8>,
) -> Option<SectionModel> {
    if pos + 64 <= input.len() {
        match SectionType::from_code(u32_at(e, input, pos + 4)) {
            Some(section_type) => match SectionFlags::spec_from_bits(u64_at(e, input, pos + 8)) {
                Some(flags) => match alignment_of_value(u64_at(e, input, pos + 48)) {
                    Some(alignment) => {
                        let offset = u64_at(e, input, pos + 24);
                        let size = u64_at(e, input, pos + 32);
                        let entity = u64_at(e, input, pos + 56);
                        if offset + size <= file.len() {
                            Some(
                                SectionModel {
                                    name: None,
                                    name_offset: Address(u32_at(e, input, pos) as u64),
                                    section_type,
                                    flags,
                                    virtual_address: Address(u64_at(e, input, pos + 16)),
                                    offset: Address(offset),
                                    segment_size_in_file_image: Address(size),
                                    link: SectionIndex::of_value(u32_at(e, input, pos + 40)),
                                    information: u32_at(e, input, pos + 44),
                                    alignment,
                                    entity_size: if entity == 0 {
                                        None
                                    } else {
                                        Some(entity)
                                    },
                                    data: DataModel {
                                        bytes: file.subrange(offset as int, offset + size),
                                        data_type: data_type_of(section_type),
                                        endianness: e,
                                        entity_size: if entity == 0 {
                                            None
                                        } else {
                                            Some(entity)
                                        },
                                    },
                                },
                            )
                        } else {
                            None
                        }
                    },
                    None => None,
                },
                None => None,
            },
            None => None,
        }
    } else {
        None
    }
}

/// The 64 bytes that a section header is written as. The data view is not
/// part of the header.
pub open spec fn spec_section_bytes(e: Endianness, m: SectionModel) -> Seq<u8> {
    u32_bytes(e, m.name_offset.0 as u32) + u32_bytes(e, m.section_type.code()) + u64_bytes(
        e,
        m.flags.bits,
    ) + u64_bytes(e, m.virtual_address.0) + u64_bytes(e, m.offset.0) + u64_bytes(
        e,
        m.segment_size_in_file_image.0,
    ) + u32_bytes(e, m.link.spec_value() as u32) + u32_bytes(e, m.information) + u64_bytes(
        e,
        m.alignment.encoded_value(),
    ) + u64_bytes(e, option_entity_value(m.entity_size))
}

impl Section {
    /// Read one section header from `input` at `pos`; the section's bytes
    /// are cut out of `file`.
    pub fn read(e: Endianness, input: &[u8], pos: usize, file: &[u8]) -> (r: Option<
        (Section, usize),
    >)
        ensures
            r matches Some((section, p)) ==> spec_parse_section(e, input@, pos as int, file@)
                == Some(section@) && p == pos + 64,
            r is None <==> spec_parse_section(e, input@, pos as int, file@) is None,
    {
        proof {
            reveal(spec_parse_section);
        }
        let (name_offset, p) = match Address::read_u32(e, input, pos) {
            Some(v) => v,
            None => { return None },
        };
        let (section_type, p) = match SectionType::read(e, input, p) {
            Some(v) => v,
            None => { return None },
        };
        let (flags, p) = match SectionFlags::read(e, input, p) {
            Some(v) => v,
            None => { return None },
        };
        let (virtual_address, p) = match Address::read(e, input, p) {
            Some(v) => v,
            None => { return None },
        };
        let (offset, p) = match Address::read(e, input, p) {
            Some(v) => v,
            None => { return None },
        };
        let (segment_size_in_file_image, p) = match Address::read(e, input, p) {
            Some(v) => v,
            None => { return None },
        };
        let (link, p) = match SectionIndex::read_u32(e, input, p) {
            Some(v) => v,
            None => { return None },
        };
        let (information, p) = match crate::object::endianness::read_u32(e, input, p) {
            Some(v) => v,
            None => { return None },
        };
        let (alignment, p) = match Alignment::read(e, input, p) {
            Some(v) => v,
            None => { return None },
        };
        let (entity, p) = match crate::object::endianness::read_u64(e, input, p) {
            Some(v) => v,
            None => { return None },
        };
        let entity_size = if entity == 0 {
            None
        } else {
            Some(entity)
        };
        let file_len = file.len() as u64;
        if offset.0 > file_len || segment_size_in_file_image.0 > file_len - offset.0 {
            return None;
        }
        let start = offset.0 as usize;
        let end = start + segment_size_in_file_image.0 as usize;
        let data = Data {
            inner: copy_bytes(file, start, end),
            data_type: DataType::from(section_type),
            endianness: e,
            entity_size,
        };
        Some(
            (
                Section {
                    name: None,
                    name_offset,
                    section_type,
                    flags,
                    virtual_address,
                    offset,
                    segment_size_in_file_image,
                    link,
                    information,
                    alignment,
                    entity_size,
                    data,
                },
                p,
            ),
        )
    }

    /// Write the 64-byte section header. The data view is not part of the
    /// header and is not written.
    #[verifier::rlimit(100)]
    pub fn write(&self, e: Endianness, out: &mut Vec<u8>)
        requires
            self.name_offset.0 <= u32::MAX,
            self.link matches SectionIndex::Index(index) ==> index <= 0xffff_ffffu32,
        ensures
            final(out)@ =~= old(out)@ + spec_section_bytes(e, self@),
    {
        self.name_offset.write_u32(e, out);
        self.section_type.write(e, out);
        self.flags.write(e, out);
        self.virtual_address.write(e, out);
        self.offset.write(e, out);
        self.segment_size_in_file_image.write(e, out);
        self.link.write_u32(e, out);
        crate::object::endianness::write_u32(e, self.information, out);
        self.alignment.write(e, out);
        crate::object::endianness::write_u64(
            e,
            match self.entity_size {
                Some(v) => v,
                None => 0,
            },
            out,
        );
    }
}

/// Encoding a section header and decoding it again yields the original
/// header, with no name resolved and the data view cut afresh out of the
/// backing file.
#[verifier::rlimit(100)]
pub proof fn lemma_section_round_trip(e: Endianness, m: SectionModel, file: Seq<u8>)
    requires
        m.flags.wf(),
        m.alignment.wf(),
        m.link.wf_u32(),
        m.name_offset.0 <= u32::MAX,
        m.entity_size matches Some(v) ==> v != 0,
        m.offset.0 + m.segment_size_in_file_image.0 <= file.len(),
    ensures
        spec_parse_section(e, spec_section_bytes(e, m), 0, file) == Some(
            SectionModel {
                name: None,
                data: DataModel {
                    bytes: file.subrange(
                        m.offset.0 as int,
                        m.offset.0 + m.segment_size_in_file_image.0,
                    ),
                    data_type: data_type_of(m.section_type),
                    endianness: e,
                    entity_size: m.entity_size,
                },
                ..m
            },
        ),
{
    reveal(spec_parse_section);
    let b = spec_section_bytes(e, m);
    crate::object::endianness::lemma_u32_round_trip(e, m.name_offset.0 as u32);
    crate::object::endianness::lemma_u32_round_trip(e, m.section_type.code());
    crate::object::endianness::lemma_u64_round_trip(e, m.flags.bits);
    crate::object::endianness::lemma_u64_round_trip(e, m.virtual_address.0);
    crate::object::endianness::lemma_u64_round_trip(e, m.offset.0);
    crate::object::endianness::lemma_u64_round_trip(e, m.segment_size_in_file_image.0);
    crate::object::endianness::lemma_u32_round_trip(e, m.link.spec_value() as u32);
    crate::object::endianness::lemma_u32_round_trip(e, m.information);
    crate::object::endianness::lemma_u64_round_trip(e, m.alignment.encoded_value());
    crate::object::endianness::lemma_u64_round_trip(e, option_entity_value(m.entity_size));
    assert(b.len() == 64);
    assert(u32_at(e, b, 0) == u32_at(e, u32_bytes(e, m.name_offset.0 as u32), 0));
    assert(u32_at(e, b, 4) == u32_at(e, u32_bytes(e, m.section_type.code()), 0));
    assert(u64_at(e, b, 8) == u64_at(e, u64_bytes(e, m.flags.bits), 0));
    assert(u64_at(e, b, 16) == u64_at(e, u64_bytes(e, m.virtual_address.0), 0));
    assert(u64_at(e, b, 24) == u64_at(e, u64_bytes(e, m.offset.0), 0));
    assert(u64_at(e, b, 32) == u64_at(e, u64_bytes(e, m.segment_size_in_file_image.0), 0));
    assert(u32_at(e, b, 40) == u32_at(e, u32_bytes(e, m.link.spec_value() as u32), 0));
    assert(u32_at(e, b, 44) == u32_at(e, u32_bytes(e, m.information), 0));
    assert(u64_at(e, b, 48) == u64_at(e, u64_bytes(e, m.alignment.encoded_value()), 0));
    assert(u64_at(e, b, 56) == u64_at(e, u64_bytes(e, option_entity_value(m.entity_size)), 0));
}


/// What holds of every section header that decodes: its data view lies
/// inside the backing file, is tagged after the section type, shares the
/// byte order of the read, and a present entry size is never zero.
pub proof fn lemma_parse_section_props(e: Endianness, input: Seq<u8>, pos: int, file: Seq<u8>)
    ensures
        spec_parse_section(e, input, pos, file) matches Some(m) ==> (m.data.bytes.len()
            <= file.len() && m.data.data_type == data_type_of(m.section_type)
            && m.data.endianness == e && m.data.entity_size == m.entity_size && m.name is None
            && (m.entity_size matches Some(v) ==> v != 0)),
{
    reveal(spec_parse_section);
}

} // verus!
