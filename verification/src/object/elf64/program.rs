//! Program headers (segments).

use vstd::prelude::*;

use crate::object::combinators::copy_bytes;
use crate::object::elf64::data::{Data, DataModel, DataType};
use crate::object::elf64::{
    alignment_of_value, option_address_of_value, option_address_value, Address, Alignment,
};
use crate::object::endianness::{
    read_u32, u32_at, u32_bytes, u64_at, u64_bytes, write_u32, Endianness,
};

verus! {

/// Type of program.
#[derive(Debug, Clone, Copy, PartialEq, Eq, Structural)]
pub enum ProgramType {
    /// Program header table entry unused.
    Null,
    /// Loadable segment.
    Load,
    /// Dynamic linking information.
    Dynamic,
    /// Interpreter information.
    Interpreter,
    /// Auxiliary information.
    Note,
    /// Reserved.
    Shlib,
    /// Segment containing program header table itself.
    ProgramHeader,
    /// Thread-Local Storage template.
    ThreadLocalStorage,
}

impl ProgramType {
    /// The on-disk discriminant of this variant.
    pub open spec fn code(self) -> u32 {
        match self {
            ProgramType::Null => 0x00,
            ProgramType::Load => 0x01,
            ProgramType::Dynamic => 0x02,
            ProgramType::Interpreter => 0x03,
            ProgramType::Note => 0x04,
            ProgramType::Shlib => 0x05,
            ProgramType::ProgramHeader => 0x06,
            ProgramType::ThreadLocalStorage => 0x07,
        }
    }

    /// The variant that a discriminant decodes to, if it is recognised.
    pub open spec fn from_code(v: u32) -> Option<ProgramType> {
        if v == 0x00 {
            Some(ProgramType::Null)
        } else if v == 0x01 {
            Some(ProgramType::Load)
        } else if v == 0x02 {
            Some(ProgramType::Dynamic)
        } else if v == 0x03 {
            Some(ProgramType::Interpreter)
        } else if v == 0x04 {
            Some(ProgramType::Note)
        } else if v == 0x05 {
            Some(ProgramType::Shlib)
        } else if v == 0x06 {
            Some(ProgramType::ProgramHeader)
        } else if v == 0x07 {
            Some(ProgramType::ThreadLocalStorage)
        } else {
            None
        }
    }

    /// Decode a `ProgramType` from its 4-byte discriminant field.
    pub fn read(e: Endianness, bytes: &[u8], pos: usize) -> (r: Option<(ProgramType, usize)>)
        ensures
            r matches Some((v, p)) ==> pos + 4 <= bytes@.len() && ProgramType::from_code(
                u32_at(e, bytes@, pos as int),
            ) == Some(v) && p == pos + 4,
            r is None <==> (pos + 4 > bytes@.len() || ProgramType::from_code(u32_at(e, bytes@, pos as int)) is None),
    {
        match read_u32(e, bytes, pos) {
            Some((value, next)) => {
                let decoded = match value {
                    0x00 => Some(ProgramType::Null),
                    0x01 => Some(ProgramType::Load),
                    0x02 => Some(ProgramType::Dynamic),
                    0x03 => Some(ProgramType::Interpreter),
                    0x04 => Some(ProgramType::Note),
                    0x05 => Some(ProgramType::Shlib),
                    0x06 => Some(ProgramType::ProgramHeader),
                    0x07 => Some(ProgramType::ThreadLocalStorage),
                    _ => None,
                };
                match decoded {
                    Some(v) => Some((v, next)),
                    None => None,
                }
            },
            None => None,
        }
    }

    /// Encode the discriminant of this variant as a 4-byte field.
    pub fn write(&self, e: Endianness, out: &mut Vec<u8>)
        ensures
            final(out)@ =~= old(out)@ + u32_bytes(e, self.code()),
    {
        let v: u32 = match self {
            ProgramType::Null => 0x00,
            ProgramType::Load => 0x01,
            ProgramType::Dynamic => 0x02,
            ProgramType::Interpreter => 0x03,
            ProgramType::Note => 0x04,
            ProgramType::Shlib => 0x05,
            ProgramType::ProgramHeader => 0x06,
            ProgramType::ThreadLocalStorage => 0x07,
        };
        write_u32(e, v, out);
    }
}

/// Decoding the written discriminant of any `ProgramType` variant yields that
/// variant back.
pub proof fn lemma_program_type_round_trip(e: Endianness, v: ProgramType)
    ensures
        ProgramType::from_code(u32_at(e, u32_bytes(e, v.code()), 0)) == Some(v),
{
    crate::object::endianness::lemma_u32_round_trip(e, v.code());
}


/// Program flag.
#[derive(Debug, Clone, Copy, PartialEq, Eq, Structural)]
pub enum ProgramFlag {
    /// The segment may be executed.
    Execute,
    /// The segment may be written to.
    Write,
    /// The segment may be read.
    Read,
}

impl ProgramFlag {
    /// The bit of the flag word that this flag stands for.
    pub open spec fn spec_bit(self) -> u32 {
        match self {
            ProgramFlag::Execute => 0x1,
            ProgramFlag::Write => 0x2,
            ProgramFlag::Read => 0x4,
        }
    }

    /// The bit of the flag word that this flag stands for.
    pub fn bit(self) -> (r: u32)
        ensures
            r == self.spec_bit(),
    {
        match self {
            ProgramFlag::Execute => 0x1,
            ProgramFlag::Write => 0x2,
            ProgramFlag::Read => 0x4,
        }
    }
}

/// A set of program flags, stored as the bit mask it is written as.
#[derive(Debug, Clone, Copy, PartialEq, Eq, Structural)]
pub struct ProgramFlags {
    /// The raw bit mask.
    pub bits: u32,
}

impl ProgramFlags {
    /// Flags are well formed when only declared bits are present.
    pub open spec fn wf(self) -> bool {
        self.bits & !0x7u32 == 0
    }

    /// The set of flags that a flag word decodes to, if no bit outside the
    /// declared set is present.
    pub open spec fn spec_from_bits(v: u32) -> Option<ProgramFlags> {
        if v & !0x7u32 == 0 {
            Some(ProgramFlags { bits: v })
        } else {
            None
        }
    }

    /// The empty set of flags.
    pub fn empty() -> (r: Self)
        ensures
            r.bits == 0,
            r.wf(),
    {
        proof {
            assert(0u32 & !0x7u32 == 0) by (bit_vector);
        }
        ProgramFlags { bits: 0 }
    }

    /// Make a set of flags from a flag word, if no bit outside the declared
    /// set is present.
    pub fn from_bits(v: u32) -> (r: Option<Self>)
        ensures
            r == Self::spec_from_bits(v),
            r matches Some(f) ==> f.wf(),
    {
        if v & !0x7u32 == 0 {
            Some(ProgramFlags { bits: v })
        } else {
            None
        }
    }

    /// The raw bit mask.
    pub fn bits(&self) -> (r: u32)
        ensures
            r == self.bits,
    {
        self.bits
    }

    /// Whether `flag` is in the set.
    pub fn contains(&self, flag: ProgramFlag) -> (r: bool)
        ensures
            r == (self.bits & flag.spec_bit() != 0),
    {
        self.bits & flag.bit() != 0
    }

    /// Add `flag` to the set.
    pub fn insert(&mut self, flag: ProgramFlag)
        ensures
            final(self).bits == old(self).bits | flag.spec_bit(),
            old(self).wf() ==> final(self).wf(),
    {
        proof {
            let b = self.bits;
            assert(b & !0x7u32 == 0 ==> ((b | 0x1u32) & !0x7u32 == 0 && (b | 0x2u32) & !0x7u32 == 0
                && (b | 0x4u32) & !0x7u32 == 0)) by (bit_vector);
        }
        self.bits = self.bits | flag.bit();
    }

    /// Read program flags from a four-byte field, rejecting any bit outside
    /// the declared set.
    pub fn read(e: Endianness, bytes: &[u8], pos: usize) -> (r: Option<(ProgramFlags, usize)>)
        ensures
            r matches Some((f, p)) ==> pos + 4 <= bytes@.len() && Self::spec_from_bits(
                u32_at(e, bytes@, pos as int),
            ) == Some(f) && p == pos + 4 && f.wf(),
            r is None <==> (pos + 4 > bytes@.len() || Self::spec_from_bits(
                u32_at(e, bytes@, pos as int),
            ) is None),
    {
        match read_u32(e, bytes, pos) {
            Some((value, next)) => {
                match Self::from_bits(value) {
                    Some(flags) => Some((flags, next)),
                    None => None,
                }
            },
            None => None,
        }
    }

    /// Write the flag word as a four-byte field.
    pub fn write(&self, e: Endianness, out: &mut Vec<u8>)
        ensures
            final(out)@ =~= old(out)@ + u32_bytes(e, self.bits),
    {
        write_u32(e, self.bits, out);
    }
}

/// Decoding the written flag word of any well-formed set of program flags
/// yields that set back.
pub proof fn lemma_program_flags_round_trip(e: Endianness, f: ProgramFlags)
    requires
        f.wf(),
    ensures
        ProgramFlags::spec_from_bits(u32_at(e, u32_bytes(e, f.bits), 0)) == Some(f),
{
    crate::object::endianness::lemma_u32_round_trip(e, f.bits);
}


/// The mathematical image of a [`Program`] value.
pub struct ProgramModel {
    /// Identifies the type of the segment.
    pub program_type: ProgramType,
    /// Segment-dependent flags.
    pub segment_flags: ProgramFlags,
    /// Offset of the segment in the file image.
    pub offset: Address,
    /// Virtual address of the segment in memory.
    pub virtual_address: Address,
    /// The segment's physical address, where that is relevant.
    pub physical_address: Option<Address>,
    /// Size in bytes of the segment in the file image.
    pub segment_size_in_file_image: Address,
    /// Size in bytes of the segment in memory.
    pub segment_size_in_memory: Address,
    /// The segment's alignment.
    pub alignment: Alignment,
    /// The bytes of the segment in the file image.
    pub data: DataModel,
}

/// Program.
#[derive(Debug, PartialEq, Eq)]
pub struct Program {
    /// Identifies the type of the segment.
    pub program_type: ProgramType,
    /// Segment-dependent flags.
    pub segment_flags: ProgramFlags,
    /// Offset of the segment in the file image.
    pub offset: Address,
    /// Virtual address of the segment in memory.
    pub virtual_address: Address,
    /// On systems where physical address is relevant, reserved for segment's
    /// physical address.
    pub physical_address: Option<Address>,
    /// Size in bytes of the segment in the file image. May be 0.
    pub segment_size_in_file_image: Address,
    /// Size in bytes of the segment in memory. May be 0.
    pub segment_size_in_memory: Address,
    /// 0 and 1 specify no alignment. Otherwise should be a positive,
    /// integral power of 2, with `virtual_address` equating `offset` modulus
    /// `alignment`.
    pub alignment: Alignment,
    /// Data.
    pub data: Data,
}

impl View for Program {
    type V = ProgramModel;

    open spec fn view(&self) -> ProgramModel {
        ProgramModel {
            program_type: self.program_type,
            segment_flags: self.segment_flags,
            offset: self.offset,
            virtual_address: self.virtual_address,
            physical_address: self.physical_address,
            segment_size_in_file_image: self.segment_size_in_file_image,
            segment_size_in_memory: self.segment_size_in_memory,
            alignment: self.alignment,
            data: self.data@,
        }
    }
}

/// The program header that 56 bytes of `input` starting at `pos` decode to,
/// if they decode at all; the segment's data view is cut out of `file`.
#[verifier::opaque]
pub open spec fn spec_parse_program(
    e: Endianness,
    input: Seq<u8>,
    pos: int,
    file: Seq<u8>,
) -> Option<ProgramModel> {
    if pos + 56 <= input.len() {
        match ProgramType::from_code(u32_at(e, input, pos)) {
            Some(program_type) => match ProgramFlags::spec_from_bits(u32_at(e, input, pos + 4)) {
                Some(segment_flags) => match alignment_of_value(u64_at(e, input, pos + 48)) {
                    Some(alignment) => {
                        let offset = u64_at(e, input, pos + 8);
                        let size = u64_at(e, input, pos + 32);
                        if offset + size <= file.len() {
                            Some(
                                ProgramModel {
                                    program_type,
                                    segment_flags,
                                    offset: Address(offset),
                                    virtual_address: Address(u64_at(e, input, pos + 16)),
                                    physical_address: option_address_of_value(
                                        u64_at(e, input, pos + 24),
                                    ),
                                    segment_size_in_file_image: Address(size),
                                    segment_size_in_memory: Address(u64_at(e, input, pos + 40)),
                                    alignment,
                                    data: DataModel {
                                        bytes: file.subrange(offset as int, offset + size),
                                        data_type: DataType::ProgramData,
                                        endianness: e,
                                        entity_size: None,
                                    },
                                },
                            )
                        } else {
                            None
                        }
                    },
                    None => None,
                },
                None => None,
            },
            None => None,
        }
    } else {
        None
    }
}

/// The 56 bytes that a program header is written as. The data view is not
/// part of the header.
pub open spec fn spec_program_bytes(e: Endianness, m: ProgramModel) -> Seq<u8> {
    u32_bytes(e, m.program_type.code()) + u32_bytes(e, m.segment_flags.bits) + u64_bytes(
        e,
        m.offset.0,
    ) + u64_bytes(e, m.virtual_address.0) + u64_bytes(e, option_address_value(m.physical_address))
        + u64_bytes(e, m.segment_size_in_file_image.0) + u64_bytes(e, m.segment_size_in_memory.0)
        + u64_bytes(e, m.alignment.encoded_value())
}

impl Program {
    /// Read one program header from `input` at `pos`; the segment's bytes
    /// are cut out of `file`.
    pub fn read(e: Endianness, input: &[u8], pos: usize, file: &[u8]) -> (r: Option<
        (Program, usize),
    >)
        ensures
            r matches Some((program, p)) ==> spec_parse_program(e, input@, pos as int, file@)
                == Some(program@) && p == pos + 56,
            r is None <==> spec_parse_program(e, input@, pos as int, file@) is None,
    {
        proof {
            reveal(spec_parse_program);
        }
        let (program_type, p) = match ProgramType::read(e, input, pos) {
            Some(v) => v,
            None => { return None },
        };
        let (segment_flags, p) = match ProgramFlags::read(e, input, p) {
            Some(v) => v,
            None => { return None },
        };
        let (offset, p) = match Address::read(e, input, p) {
            Some(v) => v,
            None => { return None },
        };
        let (virtual_address, p) = match Address::read(e, input, p) {
            Some(v) => v,
            None => { return None },
        };
        let (physical_address, p) = match Address::maybe_read(e, input, p) {
            Some(v) => v,
            None => { return None },
        };
        let (segment_size_in_file_image, p) = match Address::read(e, input, p) {
            Some(v) => v,
            None => { return None },
        };
        let (segment_size_in_memory, p) = match Address::read(e, input, p) {
            Some(v) => v,
            None => { return None },
        };
        let (alignment, p) = match Alignment::read(e, input, p) {
            Some(v) => v,
            None => { return None },
        };
        let file_len = file.len() as u64;
        if offset.0 > file_len || segment_size_in_file_image.0 > file_len - offset.0 {
            return None;
        }
        let start = offset.0 as usize;
        let end = start + segment_size_in_file_image.0 as usize;
        let data = Data {
            inner: copy_bytes(file, start, end),
            data_type: DataType::ProgramData,
            endianness: e,
            entity_size: None,
        };
        Some(
            (
                Program {
                    program_type,
                    segment_flags,
                    offset,
                    virtual_address,
                    physical_address,
                    segment_size_in_file_image,
                    segment_size_in_memory,
                    alignment,
                    data,
                },
                p,
            ),
        )
    }

    /// Write the 56-byte program header. The data view is not part of the
    /// header and is not written.
    pub fn write(&self, e: Endianness, out: &mut Vec<u8>)
        ensures
            final(out)@ =~= old(out)@ + spec_program_bytes(e, self@),
    {
        self.program_type.write(e, out);
        self.segment_flags.write(e, out);
        self.offset.write(e, out);
        self.virtual_address.write(e, out);
        Address::maybe_write(&self.physical_address, e, out);
        self.segment_size_in_file_image.write(e, out);
        self.segment_size_in_memory.write(e, out);
        self.alignment.write(e, out);
    }
}

/// Encoding a program header and decoding it again yields the original
/// header, with the data view cut afresh out of the backing file.
pub proof fn lemma_program_round_trip(e: Endianness, m: ProgramModel, file: Seq<u8>)
    requires
        m.segment_flags.wf(),
        m.alignment.wf(),
        crate::object::elf64::option_address_wf(m.physical_address),
        m.offset.0 + m.segment_size_in_file_image.0 <= file.len(),
    ensures
        spec_parse_program(e, spec_program_bytes(e, m), 0, file) == Some(
            ProgramModel {
                data: DataModel {
                    bytes: file.subrange(
                        m.offset.0 as int,
                        m.offset.0 + m.segment_size_in_file_image.0,
                    ),
                    data_type: DataType::ProgramData,
                    endianness: e,
                    entity_size: None,
                },
                ..m
            },
        ),
{
    reveal(spec_parse_program);
    let b = spec_program_bytes(e, m);
    crate::object::endianness::lemma_u32_round_trip(e, m.program_type.code());
    crate::object::endianness::lemma_u32_round_trip(e, m.segment_flags.bits);
    crate::object::endianness::lemma_u64_round_trip(e, m.offset.0);
    crate::object::endianness::lemma_u64_round_trip(e, m.virtual_address.0);
    crate::object::endianness::lemma_u64_round_trip(e, option_address_value(m.physical_address));
    crate::object::endianness::lemma_u64_round_trip(e, m.segment_size_in_file_image.0);
    crate::object::endianness::lemma_u64_round_trip(e, m.segment_size_in_memory.0);
    crate::object::endianness::lemma_u64_round_trip(e, m.alignment.encoded_value());
    assert(b.len() == 56);
    assert(u32_at(e, b, 0) == u32_at(e, u32_bytes(e, m.program_type.code()), 0));
    assert(u32_at(e, b, 4) == u32_at(e, u32_bytes(e, m.segment_flags.bits), 0));
    assert(u64_at(e, b, 8) == u64_at(e, u64_bytes(e, m.offset.0), 0));
    assert(u64_at(e, b, 16) == u64_at(e, u64_bytes(e, m.virtual_address.0), 0));
    assert(u64_at(e, b, 24) == u64_at(
        e,
        u64_bytes(e, option_address_value(m.physical_address)),
        0,
    ));
    assert(u64_at(e, b, 32) == u64_at(e, u64_bytes(e, m.segment_size_in_file_image.0), 0));
    assert(u64_at(e, b, 40) == u64_at(e, u64_bytes(e, m.segment_size_in_memory.0), 0));
    assert(u64_at(e, b, 48) == u64_at(e, u64_bytes(e, m.alignment.encoded_value()), 0));
}

} // verus!

