//! Section headers in the read-only codec generation.

use vstd::prelude::*;

use crate::object::combinators::copy_bytes;
use crate::object::endianness::{
    read_u16, read_u32, read_u64, u16_at, u32_at, u32_bytes, u64_at, Endianness,
};
use crate::parser::elf64::data::{data_type_of, Data, DataModel};
use crate::parser::elf64::program::{parser_endianness, spec_parser_endianness};
use crate::parser::elf64::Address;

verus! {

/// Section type.
#[derive(Debug, Clone, Copy, PartialEq, Eq, Structural)]
pub enum SectionType {
    /// Mark an unused section header.
    Null,
    /// The section contains information defined by the program.
    ProgramData,
    /// The section contains a linker symbol table.
    SymbolTable,
    /// The section contains a string table.
    StringTable,
    /// The section contains relocation entries with addends.
    RelocationWithAddends,
    /// The section contains a symbol hash table.
    SymbolHashTable,
    /// The section contains dynamic linking tables.
    DynamicLinkingInformation,
    /// The section contains note information.
    Note,
    /// The section contains uninitialized space; it does not occupy any space in the file.
    NoBits,
    /// The section contains relocation entries without addends.
    Relocation,
    /// Reserved.
    Shlib,
    /// The section contains a dynamic loader symbol table.
    DynamicLinkerSymbolTable,
    /// Array of constructors.
    ArrayOfConstructors,
    /// Array of destructors.
    ArrayOfDestructors,
    /// Array of pre-constructors.
    ArrayOfPreConstructors,
    /// Section group.
    Group,
    /// Extended section indices.
    ExtendedSectionIndices,
    /// Number of defined types.
    NumberOfDefinedTypes,
    /// Low environment-specific use.
    LowEnvironmentSpecific,
    /// High environment-specific use.
    HighEnvironmentSpecific,
    /// Low processor-specific use.
    LowProcessorSpecific,
    /// High processor-specific use.
    HighProcessorSpecific,
}

impl SectionType {
    /// The on-disk discriminant of this variant.
    pub open spec fn code(self) -> u32 {
        match self {
            SectionType::Null => 0x00,
            SectionType::ProgramData => 0x01,
            SectionType::SymbolTable => 0x02,
            SectionType::StringTable => 0x03,
            SectionType::RelocationWithAddends => 0x04,
            SectionType::SymbolHashTable => 0x05,
            SectionType::DynamicLinkingInformation => 0x06,
            SectionType::Note => 0x07,
            SectionType::NoBits => 0x08,
            SectionType::Relocation => 0x09,
            SectionType::Shlib => 0x0a,
            SectionType::DynamicLinkerSymbolTable => 0x0b,
            SectionType::ArrayOfConstructors => 0x0e,
            SectionType::ArrayOfDestructors => 0x0f,
            SectionType::ArrayOfPreConstructors => 0x10,
            SectionType::Group => 0x11,
            SectionType::ExtendedSectionIndices => 0x12,
            SectionType::NumberOfDefinedTypes => 0x13,
            SectionType::LowEnvironmentSpecific => 0x6000_0000,
            SectionType::HighEnvironmentSpecific => 0x6fff_ffff,
            SectionType::LowProcessorSpecific => 0x7000_0000,
            SectionType::HighProcessorSpecific => 0x7fff_ffff,
        }
    }

    /// The variant that a discriminant decodes to, if it is recognised.
    pub open spec fn from_code(v: u32) -> Option<SectionType> {
        if v == 0x00 {
            Some(SectionType::Null)
        } else if v == 0x01 {
            Some(SectionType::ProgramData)
        } else if v == 0x02 {
            Some(SectionType::SymbolTable)
        } else if v == 0x03 {
            Some(SectionType::StringTable)
        } else if v == 0x04 {
            Some(SectionType::RelocationWithAddends)
        } else if v == 0x05 {
            Some(SectionType::SymbolHashTable)
        } else if v == 0x06 {
            Some(SectionType::DynamicLinkingInformation)
        } else if v == 0x07 {
            Some(SectionType::Note)
        } else if v == 0x08 {
            Some(SectionType::NoBits)
        } else if v == 0x09 {
            Some(SectionType::Relocation)
        } else if v == 0x0a {
            Some(SectionType::Shlib)
        } else if v == 0x0b {
            Some(SectionType::DynamicLinkerSymbolTable)
        } else if v == 0x0e {
            Some(SectionType::ArrayOfConstructors)
        } else if v == 0x0f {
            Some(SectionType::ArrayOfDestructors)
        } else if v == 0x10 {
            Some(SectionType::ArrayOfPreConstructors)
        } else if v == 0x11 {
            Some(SectionType::Group)
        } else if v == 0x12 {
            Some(SectionType::ExtendedSectionIndices)
        } else if v == 0x13 {
            Some(SectionType::NumberOfDefinedTypes)
        } else if v == 0x6000_0000 {
            Some(SectionType::LowEnvironmentSpecific)
        } else if v == 0x6fff_ffff {
            Some(SectionType::HighEnvironmentSpecific)
        } else if v == 0x7000_0000 {
            Some(SectionType::LowProcessorSpecific)
        } else if v == 0x7fff_ffff {
            Some(SectionType::HighProcessorSpecific)
        } else {
            None
        }
    }

    /// Decode a `SectionType` from its 4-byte discriminant field.
    pub fn parse(e: Endianness, bytes: &[u8], pos: usize) -> (r: Option<(SectionType, usize)>)
        ensures
            r matches Some((v, p)) ==> pos + 4 <= bytes@.len() && SectionType::from_code(
                u32_at(e, bytes@, pos as int),
            ) == Some(v) && p == pos + 4,
            r is None <==> (pos + 4 > bytes@.len() || SectionType::from_code(u32_at(e, bytes@, pos as int)) is None),
    {
        match read_u32(e, bytes, pos) {
            Some((value, next)) => {
                let decoded = match value {
                    0x00 => Some(SectionType::Null),
                    0x01 => Some(SectionType::ProgramData),
                    0x02 => Some(SectionType::SymbolTable),
                    0x03 => Some(SectionType::StringTable),
                    0x04 => Some(SectionType::RelocationWithAddends),
                    0x05 => Some(SectionType::SymbolHashTable),
                    0x06 => Some(SectionType::DynamicLinkingInformation),
                    0x07 => Some(SectionType::Note),
                    0x08 => Some(SectionType::NoBits),
                    0x09 => Some(SectionType::Relocation),
                    0x0a => Some(SectionType::Shlib),
                    0x0b => Some(SectionType::DynamicLinkerSymbolTable),
                    0x0e => Some(SectionType::ArrayOfConstructors),
                    0x0f => Some(SectionType::ArrayOfDestructors),
                    0x10 => Some(SectionType::ArrayOfPreConstructors),
                    0x11 => Some(SectionType::Group),
                    0x12 => Some(SectionType::ExtendedSectionIndices),
                    0x13 => Some(SectionType::NumberOfDefinedTypes),
                    0x6000_0000 => Some(SectionType::LowEnvironmentSpecific),
                    0x6fff_ffff => Some(SectionType::HighEnvironmentSpecific),
                    0x7000_0000 => Some(SectionType::LowProcessorSpecific),
                    0x7fff_ffff => Some(SectionType::HighProcessorSpecific),
                    _ => None,
                };
                match decoded {
                    Some(v) => Some((v, next)),
                    None => None,
                }
            },
            None => None,
        }
    }
}

/// Decoding the written discriminant of any `SectionType` variant yields that
/// variant back.
pub proof fn lemma_section_type_round_trip(e: Endianness, v: SectionType)
    ensures
        SectionType::from_code(u32_at(e, u32_bytes(e, v.code()), 0)) == Some(v),
{
    crate::object::endianness::lemma_u32_round_trip(e, v.code());
}

/// Section flag.
#[derive(Debug, Clone, Copy, PartialEq, Eq, Structural)]
pub enum SectionFlag {
    /// Writable.
    Writable,
    /// Occupies memory during execution.
    Allocable,
    /// Executable.
    Executable,
    /// Might be merged.
    Merge,
    /// Contains null-terminated strings.
    Strings,
    /// `sh_info` contains SHT index.
    InfoLink,
    /// Preserve order after combining.
    LinkOrder,
    /// Non-standard OS specific handling required.
    OsNonConforming,
    /// Section is member of a group.
    IsPartOfAGroup,
    /// Section hold thread-local data.
    HasThreadLocalData,
}

/// A set of section flags, stored as the bit mask it is written as.
#[derive(Debug, Clone, Copy, PartialEq, Eq, Structural)]
pub struct SectionFlags {
    /// The raw bit mask.
    pub bits: u64,
}

impl SectionFlags {
    /// The set of flags that a flag word decodes to, if no bit outside the
    /// declared set is present.
    pub open spec fn spec_from_bits(v: u64) -> Option<SectionFlags> {
        if v & !0x7f7u64 == 0 {
            Some(SectionFlags { bits: v })
        } else {
            None
        }
    }
}

impl SectionFlag {
    /// Parse a set of section flags from an eight-byte field, rejecting any
    /// bit outside the declared set.
    pub fn parse_bits(e: Endianness, bytes: &[u8], pos: usize) -> (r: Option<
        (SectionFlags, usize),
    >)
        ensures
            r matches Some((f, p)) ==> pos + 8 <= bytes@.len() && SectionFlags::spec_from_bits(
                u64_at(e, bytes@, pos as int),
            ) == Some(f) && p == pos + 8,
            r is None <==> (pos + 8 > bytes@.len() || SectionFlags::spec_from_bits(
                u64_at(e, bytes@, pos as int),
            ) is None),
    {
        match read_u64(e, bytes, pos) {
            Some((value, next)) => {
                if value & !0x7f7u64 == 0 {
                    Some((SectionFlags { bits: value }, next))
                } else {
                    None
                }
            },
            None => None,
        }
    }
}

/// Section index.
#[derive(Debug, Clone, Copy, PartialEq, Eq, Structural)]
pub enum SectionIndex {
    /// A valid section index.
    Index(usize),
    /// An undefined or meaningless section reference.
    Undefined,
    /// Processor-specific use.
    LowProcessorSpecific,
    /// Processor-specific use.
    HighProcessorSpecific,
    /// Environment-specific use.
    LowEnvironmentSpecific,
    /// Environment-specific use.
    HighEnvironmentSpecific,
    /// The corresponding reference is an absolute value.
    Absolute,
    /// A symbol that has been declared as a common block (Fortran COMMON or
    /// C tentative declaration).
    Common,
}

impl SectionIndex {
    /// The section index that a raw value decodes to.
    pub open spec fn of_value(v: u16) -> SectionIndex {
        if v == 0x0000 {
            SectionIndex::Undefined
        } else if v == 0xff00 {
            SectionIndex::LowProcessorSpecific
        } else if v == 0xff1f {
            SectionIndex::HighProcessorSpecific
        } else if v == 0xff20 {
            SectionIndex::LowEnvironmentSpecific
        } else if v == 0xff3f {
            SectionIndex::HighEnvironmentSpecific
        } else if v == 0xfff1 {
            SectionIndex::Absolute
        } else if v == 0xfff2 {
            SectionIndex::Common
        } else {
            SectionIndex::Index(v as usize)
        }
    }

    /// Parse a section index from a two-byte field.
    pub fn parse(e: Endianness, bytes: &[u8], pos: usize) -> (r: Option<(SectionIndex, usize)>)
        ensures
            r matches Some((s, p)) ==> pos + 2 <= bytes@.len() && s == Self::of_value(
                u16_at(e, bytes@, pos as int),
            ) && p == pos + 2,
            r is None <==> pos + 2 > bytes@.len(),
    {
        match read_u16(e, bytes, pos) {
            Some((value, next)) => {
                let decoded = match value {
                    0x0000 => SectionIndex::Undefined,
                    0xff00 => SectionIndex::LowProcessorSpecific,
                    0xff1f => SectionIndex::HighProcessorSpecific,
                    0xff20 => SectionIndex::LowEnvironmentSpecific,
                    0xff3f => SectionIndex::HighEnvironmentSpecific,
                    0xfff1 => SectionIndex::Absolute,
                    0xfff2 => SectionIndex::Common,
                    _ => SectionIndex::Index(value as usize),
                };
                Some((decoded, next))
            },
            None => None,
        }
    }
}

/// The mathematical image of a [`Section`] value.
pub struct SectionModel {
    /// Name of the section, if any.
    pub name: Option<Seq<u8>>,
    /// An offset to a string in the section that holds the section names.
    pub name_offset: Address,
    /// Type of the section header.
    pub section_type: SectionType,
    /// Flags.
    pub flags: SectionFlags,
    /// Virtual address of the section in memory.
    pub virtual_address: Address,
    /// Offset of the section in the file image.
    pub offset: Address,
    /// Size in bytes of the section in the file image.
    pub segment_size_in_file_image: Address,
    /// The raw section index of an associated section.
    pub link: u32,
    /// Extra information about the section.
    pub information: u32,
    /// The raw alignment of the section.
    pub alignment: u64,
    /// The size of each entry, for sections that contain fixed-sized
    /// entries.
    pub entity_size: Option<u64>,
    /// The bytes of the section in the file image.
    pub data: DataModel,
}

/// Section header.
#[derive(Debug, PartialEq, Eq)]
pub struct Section {
    /// Name of the section, if any.
    pub name: Option<Vec<u8>>,
    /// An offset to a string in the `.shstrtab` section that represents the
    /// name of this section.
    pub name_offset: Address,
    /// Type of the section header.
    pub section_type: SectionType,
    /// Flags.
    pub flags: SectionFlags,
    /// Virtual address of the section in memory, for sections that are
    /// loaded.
    pub virtual_address: Address,
    /// Offset of the section in the file image.
    pub offset: Address,
    /// Size in bytes of the section in the file image. May be 0.
    pub segment_size_in_file_image: Address,
    /// Contains the section index of an associated section. This field is
    /// used for several purposes, depending on the type of section.
    pub link: u32,
    /// Contains extra information about the section. This field is used for
    /// several purposes, depending on the type of section.
    pub information: u32,
    /// Contains the required alignment of the section. This field must be a
    /// power of two.
    pub alignment: u64,
    /// Contains some size, in bytes, of each entry, for sections that
    /// contain fixed-sized entries.
    pub entity_size: Option<u64>,
    /// Data.
    pub data: Data,
}

impl View for Section {
    type V = SectionModel;

    open spec fn view(&self) -> SectionModel {
        SectionModel {
            name: match self.name {
                Some(ref n) => Some(n@),
                None => None,
            },
            name_offset: self.name_offset,
            section_type: self.section_type,
            flags: self.flags,
            virtual_address: self.virtual_address,
            offset: self.offset,
            segment_size_in_file_image: self.segment_size_in_file_image,
            link: self.link,
            information: self.information,
            alignment: self.alignment,
            entity_size: self.entity_size,
            data: self.data@,
        }
    }
}

/// The section header that 64 bytes of `input` starting at `pos` decode to,
/// if they decode at all; the section's data view is cut out of `file` and
/// tagged after the section type. The name is left unresolved.
#[verifier::opaque]
pub open spec fn spec_parse_section(
    e: Endianness,
    input: Seq<u8>,
    pos: int,
    file: Seq<u8>,
) -> Option<SectionModel> {
    if pos + 64 <= input.len() {
        match SectionType::from_code(u32_at(e, input, pos + 4)) {
            Some(section_type) => match SectionFlags::spec_from_bits(u64_at(e, input, pos + 8)) {
                Some(flags) => {
                    let offset = u64_at(e, input, pos + 24);
                    let size = u64_at(e, input, pos + 32);
                    let entity = u64_at(e, input, pos + 56);
                    if offset + size <= file.len() {
                        Some(
                            SectionModel {
                                name: None,
                                name_offset: Address(u32_at(e, input, pos) as u64),
                                section_type,
                                flags,
                                virtual_address: Address(u64_at(e, input, pos + 16)),
                                offset: Address(offset),
                                segment_size_in_file_image: Address(size),
                                link: u32_at(e, input, pos + 40),
                                information: u32_at(e, input, pos + 44),
                                alignment: u64_at(e, input, pos + 48),
                                entity_size: if entity == 0 {
                                    None
                                } else {
                                    Some(entity)
                                },
                                data: DataModel {
                                    bytes: file.subrange(offset as int, offset + size),
                                    data_type: data_type_of(section_type),
                                    endianness: spec_parser_endianness(e),
                                },
                            },
                        )
                    } else {
                        None
                    }
                },
                None => None,
            },
            None => None,
        }
    } else {
        None
    }
}

impl Section {
    /// Parse one section header from `input` at `pos`; the section's bytes
    /// are cut out of `file`.
    pub fn parse(e: Endianness, file: &[u8], input: &[u8], pos: usize) -> (r: Option<
        (Section, usize),
    >)
        ensures
            r matches Some((section, p)) ==> spec_parse_section(e, input@, pos as int, file@)
                == Some(section@) && p == pos + 64,
            r is None <==> spec_parse_section(e, input@, pos as int, file@) is None,
    {
        proof {
            reveal(spec_parse_section);
        }
        let (name_offset, p) = match read_u32(e, input, pos) {
            Some(v) => v,
            None => { return None },
        };
        let (section_type, p) = match SectionType::parse(e, input, p) {
            Some(v) => v,
            None => { return None },
        };
        let (flags, p) = match SectionFlag::parse_bits(e, input, p) {
            Some(v) => v,
            None => { return None },
        };
        let (virtual_address, p) = match Address::parse(e, input, p) {
            Some(v) => v,
            None => { return None },
        };
        let (offset, p) = match Address::parse(e, input, p) {
            Some(v) => v,
            None => { return None },
        };
        let (segment_size_in_file_image, p) = match Address::parse(e, input, p) {
            Some(v) => v,
            None => { return None },
        };
        let (link, p) = match read_u32(e, input, p) {
            Some(v) => v,
            None => { return None },
        };
        let (information, p) = match read_u32(e, input, p) {
            Some(v) => v,
            None => { return None },
        };
        let (alignment, p) = match read_u64(e, input, p) {
            Some(v) => v,
            None => { return None },
        };
        let (entity, p) = match read_u64(e, input, p) {
            Some(v) => v,
            None => { return None },
        };
        let entity_size = if entity == 0 {
            None
        } else {
            Some(entity)
        };
        let file_len = file.len() as u64;
        if offset.0 > file_len || segment_size_in_file_image.0 > file_len - offset.0 {
            return None;
        }
        let start = offset.0 as usize;
        let end = start + segment_size_in_file_image.0 as usize;
        let data = Data {
            inner: copy_bytes(file, start, end),
            data_type: crate::parser::elf64::data::DataType::from(section_type),
            endianness: parser_endianness(e),
        };
        Some(
            (
                Section {
                    name: None,
                    name_offset: Address(name_offset as u64),
                    section_type,
                    flags,
                    virtual_address,
                    offset,
                    segment_size_in_file_image,
                    link,
                    information,
                    alignment,
                    entity_size,
                    data,
                },
                p,
            ),
        )
    }
}

/// What holds of every section header that decodes: its data view lies
/// inside the backing file, is tagged after the section type, its name is
/// unresolved, and its name offset fits four bytes.
pub proof fn lemma_parse_section_props(e: Endianness, input: Seq<u8>, pos: int, file: Seq<u8>)
    ensures
        spec_parse_section(e, input, pos, file) matches Some(m) ==> (m.data.bytes.len()
            <= file.len() && m.data.data_type == data_type_of(m.section_type)
            && m.data.endianness == spec_parser_endianness(e) && m.name is None
            && m.name_offset.0 <= u32::MAX),
{
    reveal(spec_parse_section);
}

} // verus!
