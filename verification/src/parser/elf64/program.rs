//! Program headers (segments) in the read-only codec generation.

use vstd::prelude::*;

use crate::object::combinators::copy_bytes;
use crate::object::endianness::{read_u32, read_u64, u32_at, u32_bytes, u64_at, Endianness};
use crate::parser::elf64::data::{Data, DataModel, DataType};
use crate::parser::elf64::{
    option_address_of_value, spec_alignment_of_value, Address, Alignment,
};

verus! {

/// Type of program.
#[derive(Debug, Clone, Copy, PartialEq, Eq, Structural)]
pub enum ProgramType {
    /// Program header table entry unused.
    Null,
    /// Loadable segment.
    Load,
    /// Dynamic linking information.
    Dynamic,
    /// Interpreter information.
    Interpreter,
    /// Auxiliary information.
    Note,
    /// Reserved.
    Shlib,
    /// Segment containing program header table itself.
    ProgramHeader,
    /// Thread-Local Storage template.
    ThreadLocalStorage,
}

impl ProgramType {
    /// The on-disk discriminant of this variant.
    pub open spec fn code(self) -> u32 {
        match self {
            ProgramType::Null => 0x00,
            ProgramType::Load => 0x01,
            ProgramType::Dynamic => 0x02,
            ProgramType::Interpreter => 0x03,
            ProgramType::Note => 0x04,
            ProgramType::Shlib => 0x05,
            ProgramType::ProgramHeader => 0x06,
            ProgramType::ThreadLocalStorage => 0x07,
        }
    }

    /// The variant that a discriminant decodes to, if it is recognised.
    pub open spec fn from_code(v: u32) -> Option<ProgramType> {
        if v == 0x00 {
            Some(ProgramType::Null)
        } else if v == 0x01 {
            Some(ProgramType::Load)
        } else if v == 0x02 {
            Some(ProgramType::Dynamic)
        } else if v == 0x03 {
            Some(ProgramType::Interpreter)
        } else if v == 0x04 {
            Some(ProgramType::Note)
        } else if v == 0x05 {
            Some(ProgramType::Shlib)
        } else if v == 0x06 {
            Some(ProgramType::ProgramHeader)
        } else if v == 0x07 {
            Some(ProgramType::ThreadLocalStorage)
        } else {
            None
        }
    }

    /// Decode a `ProgramType` from its 4-byte discriminant field.
    pub fn parse(e: Endianness, bytes: &[u8], pos: usize) -> (r: Option<(ProgramType, usize)>)
        ensures
            r matches Some((v, p)) ==> pos + 4 <= bytes@.len() && ProgramType::from_code(
                u32_at(e, bytes@, pos as int),
            ) == Some(v) && p == pos + 4,
            r is None <==> (pos + 4 > bytes@.len() || ProgramType::from_code(u32_at(e, bytes@, pos as int)) is None),
    {
        match read_u32(e, bytes, pos) {
            Some((value, next)) => {
                let decoded = match value {
                    0x00 => Some(ProgramType::Null),
                    0x01 => Some(ProgramType::Load),
                    0x02 => Some(ProgramType::Dynamic),
                    0x03 => Some(ProgramType::Interpreter),
                    0x04 => Some(ProgramType::Note),
                    0x05 => Some(ProgramType::Shlib),
                    0x06 => Some(ProgramType::ProgramHeader),
                    0x07 => Some(ProgramType::ThreadLocalStorage),
                    _ => None,
                };
                match decoded {
                    Some(v) => Some((v, next)),
                    None => None,
                }
            },
            None => None,
        }
    }
}

/// Decoding the written discriminant of any `ProgramType` variant yields that
/// variant back.
pub proof fn lemma_program_type_round_trip(e: Endianness, v: ProgramType)
    ensures
        ProgramType::from_code(u32_at(e, u32_bytes(e, v.code()), 0)) == Some(v),
{
    crate::object::endianness::lemma_u32_round_trip(e, v.code());
}

/// Program flag.
#[derive(Debug, Clone, Copy, PartialEq, Eq, Structural)]
pub enum ProgramFlag {
    /// The segment may be executed.
    Execute,
    /// The segment may be written to.
    Write,
    /// The segment may be read.
    Read,
}

/// A set of program flags, stored as the bit mask it is written as.
#[derive(Debug, Clone, Copy, PartialEq, Eq, Structural)]
pub struct ProgramFlags {
    /// The raw bit mask.
    pub bits: u32,
}

impl ProgramFlags {
    /// The set of flags that a flag word decodes to, if no bit outside the
    /// declared set is present.
    pub open spec fn spec_from_bits(v: u32) -> Option<ProgramFlags> {
        if v & !0x7u32 == 0 {
            Some(ProgramFlags { bits: v })
        } else {
            None
        }
    }
}

impl ProgramFlag {
    /// Parse a set of program flags from a four-byte field, rejecting any
    /// bit outside the declared set.
    pub fn parse_bits(e: Endianness, bytes: &[u8], pos: usize) -> (r: Option<
        (ProgramFlags, usize),
    >)
        ensures
            r matches Some((f, p)) ==> pos + 4 <= bytes@.len() && ProgramFlags::spec_from_bits(
                u32_at(e, bytes@, pos as int),
            ) == Some(f) && p == pos + 4,
            r is None <==> (pos + 4 > bytes@.len() || ProgramFlags::spec_from_bits(
                u32_at(e, bytes@, pos as int),
            ) is None),
    {
        match read_u32(e, bytes, pos) {
            Some((value, next)) => {
                if value & !0x7u32 == 0 {
                    Some((ProgramFlags { bits: value }, next))
                } else {
                    None
                }
            },
            None => None,
        }
    }
}

/// The mathematical image of a [`Program`] value.
pub struct ProgramModel {
    /// Identifies the type of the segment.
    pub program_type: ProgramType,
    /// Segment-dependent flags.
    pub segment_flags: ProgramFlags,
    /// Offset of the segment in the file image.
    pub offset: Address,
    /// Virtual address of the segment in memory.
    pub virtual_address: Address,
    /// The segment's physical address, where that is relevant.
    pub physical_address: Option<Address>,
    /// Size in bytes of the segment in the file image.
    pub segment_size_in_file_image: u64,
    /// Size in bytes of the segment in memory.
    pub segment_size_in_memory: u64,
    /// The segment's alignment.
    pub alignment: Alignment,
    /// The bytes of the segment in the file image.
    pub data: DataModel,
}

/// Program.
#[derive(Debug, PartialEq, Eq)]
pub struct Program {
    /// Identifies the type of the segment.
    pub program_type: ProgramType,
    /// Segment-dependent flags.
    pub segment_flags: ProgramFlags,
    /// Offset of the segment in the file image.
    pub offset: Address,
    /// Virtual address of the segment in memory.
    pub virtual_address: Address,
    /// On systems where physical address is relevant, reserved for
    /// segment's physical address.
    pub physical_address: Option<Address>,
    /// Size in bytes of the segment in the file image. May be 0.
    pub segment_size_in_file_image: u64,
    /// Size in bytes of the segment in memory. May be 0.
    pub segment_size_in_memory: u64,
    /// 0 and 1 specify no alignment. Otherwise should be a positive,
    /// integral power of 2.
    pub alignment: Alignment,
    /// Data.
    pub data: Data,
}

impl View for Program {
    type V = ProgramModel;

    open spec fn view(&self) -> ProgramModel {
        ProgramModel {
            program_type: self.program_type,
            segment_flags: self.segment_flags,
            offset: self.offset,
            virtual_address: self.virtual_address,
            physical_address: self.physical_address,
            segment_size_in_file_image: self.segment_size_in_file_image,
            segment_size_in_memory: self.segment_size_in_memory,
            alignment: self.alignment,
            data: self.data@,
        }
    }
}

/// The program header that 56 bytes of `input` starting at `pos` decode to,
/// if they decode at all; the segment's data view is cut out of `file` and
/// left untagged.
#[verifier::opaque]
pub open spec fn spec_parse_program(
    e: Endianness,
    input: Seq<u8>,
    pos: int,
    file: Seq<u8>,
) -> Option<ProgramModel> {
    if pos + 56 <= input.len() {
        match ProgramType::from_code(u32_at(e, input, pos)) {
            Some(program_type) => match ProgramFlags::spec_from_bits(u32_at(e, input, pos + 4)) {
                Some(segment_flags) => match spec_alignment_of_value(u64_at(e, input, pos + 48)) {
                    Some(alignment) => {
                        let offset = u64_at(e, input, pos + 8);
                        let size = u64_at(e, input, pos + 32);
                        if offset + size <= file.len() {
                            Some(
                                ProgramModel {
                                    program_type,
                                    segment_flags,
                                    offset: Address(offset),
                                    virtual_address: Address(u64_at(e, input, pos + 16)),
                                    physical_address: option_address_of_value(
                                        u64_at(e, input, pos + 24),
                                    ),
                                    segment_size_in_file_image: size,
                                    segment_size_in_memory: u64_at(e, input, pos + 40),
                                    alignment,
                                    data: DataModel {
                                        bytes: file.subrange(offset as int, offset + size),
                                        data_type: DataType::Unspecified,
                                        endianness: spec_parser_endianness(e),
                                    },
                                },
                            )
                        } else {
                            None
                        }
                    },
                    None => None,
                },
                None => None,
            },
            None => None,
        }
    } else {
        None
    }
}

/// The value of this generation's own byte-order type that a codec byte
/// order stands for.
pub open spec fn spec_parser_endianness(
    e: Endianness,
) -> crate::parser::endianness::Endianness {
    match e {
        Endianness::Little => crate::parser::endianness::Endianness::Little,
        Endianness::Big => crate::parser::endianness::Endianness::Big,
    }
}

/// Turn a codec byte order back into this generation's own type.
pub fn parser_endianness(e: Endianness) -> (r: crate::parser::endianness::Endianness)
    ensures
        r == spec_parser_endianness(e),
{
    match e {
        Endianness::Little => crate::parser::endianness::Endianness::Little,
        Endianness::Big => crate::parser::endianness::Endianness::Big,
    }
}

impl Program {
    /// Parse one program header from `input` at `pos`; the segment's bytes
    /// are cut out of `file`.
    pub fn parse(e: Endianness, file: &[u8], input: &[u8], pos: usize) -> (r: Option<
        (Program, usize),
    >)
        ensures
            r matches Some((program, p)) ==> spec_parse_program(e, input@, pos as int, file@)
                == Some(program@) && p == pos + 56,
            r is None <==> spec_parse_program(e, input@, pos as int, file@) is None,
    {
        proof {
            reveal(spec_parse_program);
        }
        let (program_type, p) = match ProgramType::parse(e, input, pos) {
            Some(v) => v,
            None => { return None },
        };
        let (segment_flags, p) = match ProgramFlag::parse_bits(e, input, p) {
            Some(v) => v,
            None => { return None },
        };
        let (offset, p) = match Address::parse(e, input, p) {
            Some(v) => v,
            None => { return None },
        };
        let (virtual_address, p) = match Address::parse(e, input, p) {
            Some(v) => v,
            None => { return None },
        };
        let (physical_address, p) = match Address::maybe_parse(e, input, p) {
            Some(v) => v,
            None => { return None },
        };
        let (segment_size_in_file_image, p) = match read_u64(e, input, p) {
            Some(v) => v,
            None => { return None },
        };
        let (segment_size_in_memory, p) = match read_u64(e, input, p) {
            Some(v) => v,
            None => { return None },
        };
        let (alignment, p) = match Alignment::parse(e, input, p) {
            Some(v) => v,
            None => { return None },
        };
        let file_len = file.len() as u64;
        if offset.0 > file_len || segment_size_in_file_image > file_len - offset.0 {
            return None;
        }
        let start = offset.0 as usize;
        let end = start + segment_size_in_file_image as usize;
        let data = Data {
            inner: copy_bytes(file, start, end),
            data_type: DataType::Unspecified,
            endianness: parser_endianness(e),
        };
        Some(
            (
                Program {
                    program_type,
                    segment_flags,
                    offset,
                    virtual_address,
                    physical_address,
                    segment_size_in_file_image,
                    segment_size_in_memory,
                    alignment,
                    data,
                },
                p,
            ),
        )
    }
}

} // verus!
