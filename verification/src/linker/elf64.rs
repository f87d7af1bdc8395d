//! The ELF64 linking driver: per-file processing and the builder that
//! assembles the output image.

use vstd::prelude::*;

use crate::object::combinators::{append_bytes, copy_bytes};
use crate::object::elf64::data::{DataModel, DataType};
use crate::object::elf64::file::{
    lemma_fetch_names_preserves_sections, lemma_parse_file_section_props, spec_fetch_names,
    spec_parse_file, Endianness, File, FileModel, FileType, Machine, OsAbi, Version,
};
use crate::object::elf64::program::{
    spec_program_bytes, ProgramFlags, ProgramModel, ProgramType,
};
use crate::object::elf64::section::{SectionFlags, SectionIndex, SectionModel, SectionType};
use crate::object::elf64::symbol::symbol_table_ok;
use crate::object::elf64::{Address, Alignment};
use crate::object::endianness::{
    u16_bytes, u32_bytes, u64_bytes, write_u16, write_u32, write_u64, write_u8,
};

verus! {

/// Elf64 errors.
#[derive(Debug, PartialEq, Eq)]
pub enum Error {
    /// The thread pool could not be created; the payload carries the host's
    /// description of the failure.
    ThreadPool(String),
    /// The thread pool's sender channel was closed prematurely.
    ThreadPoolChannelClosed,
    /// The named object file could not be parsed.
    ParsingFile(String),
    /// A symbol could not be parsed in the named object file.
    ParsingSymbol(String),
    /// The named object file is not a relocatable file. The kind is
    /// defined, but the check that would raise it is not enforced yet.
    NotRelocatable(String),
}

impl Error {
    /// The stable code of this error kind, where one is assigned.
    pub fn code(&self) -> (r: Option<&'static str>)
        ensures
            self matches Error::ParsingFile(_) ==> (r matches Some(c) && c@ == "E004"@),
            self matches Error::ParsingSymbol(_) ==> (r matches Some(c) && c@ == "E005"@),
            self matches Error::NotRelocatable(_) ==> (r matches Some(c) && c@ == "E006"@),
            self matches Error::ThreadPool(_) ==> r is None,
            self matches Error::ThreadPoolChannelClosed ==> r is None,
    {
        match self {
            Error::ThreadPool(_) => None,
            Error::ThreadPoolChannelClosed => None,
            Error::ParsingFile(_) => Some("E004"),
            Error::ParsingSymbol(_) => Some("E005"),
            Error::NotRelocatable(_) => Some("E006"),
        }
    }
}

/// The mathematical image of a [`Segment`].
pub struct SegmentModel {
    /// The flags of the emitted program header.
    pub flags: ProgramFlags,
    /// The payload bytes.
    pub data: Seq<u8>,
}

/// A segment that the builder will emit: its program flags and its payload.
#[derive(Debug, PartialEq, Eq)]
pub struct Segment {
    /// The flags of the emitted program header.
    pub flags: ProgramFlags,
    /// The payload bytes.
    pub data: Vec<u8>,
}

impl View for Segment {
    type V = SegmentModel;

    open spec fn view(&self) -> SegmentModel {
        SegmentModel { flags: self.flags, data: self.data@ }
    }
}

/// The mathematical image of a [`FileBuilder`].
pub struct FileBuilderModel {
    /// Byte order of the output.
    pub endianness: Endianness,
    /// Version carried over from the input.
    pub version: Version,
    /// OS ABI carried over from the input.
    pub os_abi: OsAbi,
    /// Machine carried over from the input.
    pub machine: Machine,
    /// Processor flags carried over from the input.
    pub processor_flags: u32,
    /// The segments appended so far, in order.
    pub segments: Seq<SegmentModel>,
}

/// Builds an ELF executable in a single pass: a 64-byte file header, one
/// 56-byte program header per appended segment, and the segment payloads
/// concatenated after the headers.
#[derive(Debug)]
pub struct FileBuilder {
    /// Byte order of the output.
    pub endianness: Endianness,
    /// Version carried over from the input.
    pub version: Version,
    /// OS ABI carried over from the input.
    pub os_abi: OsAbi,
    /// Machine carried over from the input.
    pub machine: Machine,
    /// Processor flags carried over from the input.
    pub processor_flags: u32,
    /// The segments appended so far, in order.
    pub segments: Vec<Segment>,
}

impl View for FileBuilder {
    type V = FileBuilderModel;

    open spec fn view(&self) -> FileBuilderModel {
        FileBuilderModel {
            endianness: self.endianness,
            version: self.version,
            os_abi: self.os_abi,
            machine: self.machine,
            processor_flags: self.processor_flags,
            segments: self.segments@.map_values(|s: Segment| s@),
        }
    }
}

/// The program flags that a segment inherits from the flags of the section
/// it came from: an allocable section is readable, an executable one
/// executable, a writable one writable; other section flags select no
/// program flag.
pub open spec fn map_section_flags(f: SectionFlags) -> ProgramFlags {
    ProgramFlags {
        bits: (if f.bits & 0x2 != 0 {
            0x4u32
        } else {
            0u32
        }) | (if f.bits & 0x4 != 0 {
            0x1u32
        } else {
            0u32
        }) | (if f.bits & 0x1 != 0 {
            0x2u32
        } else {
            0u32
        }),
    }
}

/// The 64-byte file header that the builder emits. The layout is fixed: an
/// executable file whose entry point sits just past the file header and the
/// first program header, whose program header table follows the file header
/// with one entry per appended segment, and which carries no section table.
pub open spec fn spec_built_header(m: FileBuilderModel) -> Seq<u8> {
    let e = m.endianness.spec_order();
    seq![0x7fu8, 0x45u8, 0x4cu8, 0x46u8, 0x02u8] + seq![
        m.endianness.code(),
        m.version.code(),
        m.os_abi.code(),
    ] + seq![0u8, 0u8, 0u8, 0u8, 0u8, 0u8, 0u8, 0u8] + u16_bytes(
        e,
        FileType::ExecutableFile.code(),
    ) + u16_bytes(e, m.machine.code()) + seq![0u8, 0u8, 0u8, 0u8] + u64_bytes(e, 0x1078)
        + u64_bytes(e, 64) + u64_bytes(e, 0) + u32_bytes(e, m.processor_flags) + u16_bytes(e, 64)
        + u16_bytes(e, 56) + u16_bytes(e, m.segments.len() as u16) + u16_bytes(e, 64)
        + u16_bytes(e, 0) + u16_bytes(e, 0)
}

/// The program header that the builder emits for one segment: a loadable
/// segment mapped at the fixed load address, sized to cover the file
/// header, one program header and the payload.
pub open spec fn spec_segment_header(
    e: crate::object::endianness::Endianness,
    s: SegmentModel,
) -> ProgramModel {
    ProgramModel {
        program_type: ProgramType::Load,
        segment_flags: s.flags,
        offset: Address(0),
        virtual_address: Address(0x1000),
        physical_address: Some(Address(0x1000)),
        segment_size_in_file_image: Address((120 + s.data.len()) as u64),
        segment_size_in_memory: Address((120 + s.data.len()) as u64),
        alignment: Alignment(Some(0x1000)),
        data: DataModel {
            bytes: s.data,
            data_type: DataType::ProgramData,
            endianness: e,
            entity_size: None,
        },
    }
}

/// The program header table that the builder emits.
pub open spec fn spec_segment_headers(
    e: crate::object::endianness::Endianness,
    segs: Seq<SegmentModel>,
) -> Seq<u8>
    decreases segs.len(),
{
    if segs.len() == 0 {
        Seq::empty()
    } else {
        spec_segment_headers(e, segs.drop_last()) + spec_program_bytes(
            e,
            spec_segment_header(e, segs.last()),
        )
    }
}

/// The concatenated segment payloads that the builder emits.
pub open spec fn spec_segment_payloads(segs: Seq<SegmentModel>) -> Seq<u8>
    decreases segs.len(),
{
    if segs.len() == 0 {
        Seq::empty()
    } else {
        spec_segment_payloads(segs.drop_last()) + segs.last().data
    }
}

/// Everything the builder emits: file header, program header table, then
/// the payloads.
pub open spec fn spec_build(m: FileBuilderModel) -> Seq<u8> {
    spec_built_header(m) + spec_segment_headers(m.endianness.spec_order(), m.segments)
        + spec_segment_payloads(m.segments)
}

impl FileBuilder {
    /// The segment count fits the header's count field, and every payload
    /// is small enough for its segment size, which also covers the file
    /// header and one program header, to fit the size field.
    pub open spec fn wf(self) -> bool {
        &&& self@.segments.len() <= 0xffff
        &&& forall|i: int|
            0 <= i < self@.segments.len() ==> (#[trigger] self@.segments[i]).data.len() + 120
                <= u64::MAX
    }

    /// Start a builder that carries the identity of the input file over to
    /// the output. The hint says how many segments are expected.
    pub fn new(
        endianness: Endianness,
        version: Version,
        os_abi: OsAbi,
        machine: Machine,
        processor_flags: u32,
        number_of_segments_hint: usize,
    ) -> (r: Self)
        ensures
            r@ == (FileBuilderModel {
                endianness,
                version,
                os_abi,
                machine,
                processor_flags,
                segments: Seq::<SegmentModel>::empty(),
            }),
            r.wf(),
    {
        let r = Self {
            endianness,
            version,
            os_abi,
            machine,
            processor_flags,
            segments: Vec::with_capacity(number_of_segments_hint),
        };
        proof {
            assert(r@.segments =~= Seq::<SegmentModel>::empty());
        }
        r
    }

    /// Append one segment, with the program flags that the originating
    /// section's flags map to.
    pub fn push_segment(&mut self, section_flags: SectionFlags, data: Vec<u8>)
        requires
            data@.len() + 120 <= u64::MAX,
            old(self)@.segments.len() < 0xffff,
        ensures
            final(self)@ == (FileBuilderModel {
                segments: old(self)@.segments.push(
                    SegmentModel { flags: map_section_flags(section_flags), data: data@ },
                ),
                ..old(self)@
            }),
            old(self).wf() ==> final(self).wf(),
    {
        let bits = section_flags.bits();
        let mapped = ProgramFlags {
            bits: (if bits & 0x2 != 0 {
                0x4u32
            } else {
                0u32
            }) | (if bits & 0x4 != 0 {
                0x1u32
            } else {
                0u32
            }) | (if bits & 0x1 != 0 {
                0x2u32
            } else {
                0u32
            }),
        };
        self.segments.push(Segment { flags: mapped, data });
        proof {
            assert(final(self)@.segments =~= old(self)@.segments.push(
                SegmentModel { flags: map_section_flags(section_flags), data: data@ },
            ));
        }
    }

    /// Serialise the builder to the bytes of the output image.
    #[verifier::loop_isolation(false)]
    #[verifier::rlimit(100)]
    pub fn build(self) -> (r: Vec<u8>)
        requires
            self.wf(),
        ensures
            r@ == spec_build(self@),
    {
        let e = self.endianness.order();
        let mut buffer: Vec<u8> = Vec::with_capacity(256);
        // Magic.
        write_u8(e, 0x7f, &mut buffer);
        write_u8(e, 0x45, &mut buffer);
        write_u8(e, 0x4c, &mut buffer);
        write_u8(e, 0x46, &mut buffer);
        // Elf64 class.
        write_u8(e, 0x02, &mut buffer);
        // Endianness.
        self.endianness.write(e, &mut buffer);
        // Version.
        self.version.write(e, &mut buffer);
        // OS ABI.
        self.os_abi.write(e, &mut buffer);
        // Padding.
        write_u8(e, 0, &mut buffer);
        write_u8(e, 0, &mut buffer);
        write_u8(e, 0, &mut buffer);
        write_u8(e, 0, &mut buffer);
        write_u8(e, 0, &mut buffer);
        write_u8(e, 0, &mut buffer);
        write_u8(e, 0, &mut buffer);
        write_u8(e, 0, &mut buffer);
        // File type.
        FileType::ExecutableFile.write(e, &mut buffer);
        // Machine.
        self.machine.write(e, &mut buffer);
        // Padding.
        write_u8(e, 0, &mut buffer);
        write_u8(e, 0, &mut buffer);
        write_u8(e, 0, &mut buffer);
        write_u8(e, 0, &mut buffer);
        // Entry point: the load address plus one file header and one
        // program header.
        write_u64(e, 0x1078, &mut buffer);
        // Program headers offset: right after the file header.
        write_u64(e, 64, &mut buffer);
        // Section headers offset: this builder emits no section table.
        write_u64(e, 0, &mut buffer);
        // Processor flags.
        write_u32(e, self.processor_flags, &mut buffer);
        // File header size.
        write_u16(e, 64, &mut buffer);
        // Program header size.
        write_u16(e, 56, &mut buffer);
        // Number of program headers: one per appended segment.
        write_u16(e, self.segments.len() as u16, &mut buffer);
        // Section header size.
        write_u16(e, 64, &mut buffer);
        // Number of section headers.
        write_u16(e, 0, &mut buffer);
        // Section index of the section names.
        SectionIndex::Undefined.write_u16(e, &mut buffer);
        proof {
            assert(buffer@ =~= spec_built_header(self@));
        }
        let segment_count = self.segments.len();
        let mut i: usize = 0;
        while i < segment_count
            invariant
                segment_count == self.segments@.len(),
                0 <= i <= segment_count,
                buffer@ == spec_built_header(self@) + spec_segment_headers(
                    e,
                    self@.segments.subrange(0, i as int),
                ),
            decreases segment_count - i,
        {
            let seg = &self.segments[i];
            let segment_size: u64 = 64 + 56 + seg.data.len() as u64;
            ProgramType::Load.write(e, &mut buffer);
            seg.flags.write(e, &mut buffer);
            // Offset.
            write_u64(e, 0, &mut buffer);
            // Virtual address.
            write_u64(e, 0x1000, &mut buffer);
            // Physical address.
            write_u64(e, 0x1000, &mut buffer);
            // Segment size in file image.
            write_u64(e, segment_size, &mut buffer);
            // Segment size in memory.
            write_u64(e, segment_size, &mut buffer);
            // Alignment.
            write_u64(e, 0x1000, &mut buffer);
            proof {
                assert(self@.segments.subrange(0, i + 1).drop_last() =~= self@.segments.subrange(
                    0,
                    i as int,
                ));
                assert(self@.segments.subrange(0, i + 1).last() == self@.segments[i as int]);
                assert(buffer@ =~= spec_built_header(self@) + spec_segment_headers(
                    e,
                    self@.segments.subrange(0, i + 1),
                ));
            }
            i = i + 1;
        }
        proof {
            assert(self@.segments.subrange(0, segment_count as int) =~= self@.segments);
        }
        let ghost headers_done = buffer@;
        let mut i: usize = 0;
        while i < segment_count
            invariant
                segment_count == self.segments@.len(),
                0 <= i <= segment_count,
                buffer@ == headers_done + spec_segment_payloads(
                    self@.segments.subrange(0, i as int),
                ),
            decreases segment_count - i,
        {
            append_bytes(&mut buffer, self.segments[i].data.as_slice());
            proof {
                assert(self@.segments.subrange(0, i + 1).drop_last() =~= self@.segments.subrange(
                    0,
                    i as int,
                ));
                assert(self@.segments.subrange(0, i + 1).last() == self@.segments[i as int]);
                assert(buffer@ =~= headers_done + spec_segment_payloads(
                    self@.segments.subrange(0, i + 1),
                ));
            }
            i = i + 1;
        }
        proof {
            assert(buffer@ =~= spec_build(self@));
        }
        buffer
    }
}


/// The segments that the builder gets from a file's sections: one per
/// section that holds program data, in section order, with its flags
/// mapped to program flags.
pub open spec fn spec_segments_of(sections: Seq<SectionModel>) -> Seq<SegmentModel>
    decreases sections.len(),
{
    if sections.len() == 0 {
        Seq::empty()
    } else {
        spec_segments_of(sections.drop_last()) + (if sections.last().section_type
            == SectionType::ProgramData {
            seq![
                SegmentModel {
                    flags: map_section_flags(sections.last().flags),
                    data: sections.last().data.bytes,
                },
            ]
        } else {
            Seq::empty()
        })
    }
}

/// A file's sections give the builder at most one segment each.
pub proof fn lemma_segments_of_len(sections: Seq<SectionModel>)
    ensures
        spec_segments_of(sections).len() <= sections.len(),
    decreases sections.len(),
{
    if sections.len() > 0 {
        lemma_segments_of_len(sections.drop_last());
    }
}

/// Whether every symbol table of the file decodes whole.
pub open spec fn spec_file_symbols_ok(m: FileModel) -> bool {
    forall|i: int|
        0 <= i < m.sections.len() && (#[trigger] m.sections[i]).section_type
            == SectionType::SymbolTable ==> symbol_table_ok(
            m.sections[i].data.endianness,
            m.sections[i].data.bytes,
            m.sections[i].data.entity_size,
            0,
        )
}

/// The output image that the driver emits for a parsed file: what the
/// builder, fed the file's identity and its program-data sections, builds.
pub open spec fn spec_output_bytes(m: FileModel) -> Seq<u8> {
    spec_build(
        FileBuilderModel {
            endianness: m.endianness,
            version: m.version,
            os_abi: m.os_abi,
            machine: m.machine,
            processor_flags: m.processor_flags,
            segments: spec_segments_of(m.sections),
        },
    )
}

/// Link one object file: parse it, fetch its section names, check its
/// symbol tables, and build the output image from its program-data
/// sections.
///
/// The result is exact: a file that does not parse gives `ParsingFile`, a
/// file with a broken symbol table gives `ParsingSymbol`, and any other
/// file gives the built output. `input_file_name` only names the file in
/// errors.
#[verifier::loop_isolation(false)]
#[verifier::rlimit(100)]
pub fn process_object(input_file_name: String, bytes: &[u8]) -> (r: Result<Vec<u8>, Error>)
    requires
        bytes@.len() + 120 <= u64::MAX,
    ensures
        spec_parse_file(bytes@) is None ==> r == Err::<Vec<u8>, Error>(
            Error::ParsingFile(input_file_name),
        ),
        spec_parse_file(bytes@) matches Some(m) ==> {
            let fetched = spec_fetch_names(m);
            if spec_file_symbols_ok(fetched) {
                r matches Ok(out) && out@ == spec_output_bytes(fetched)
            } else {
                r == Err::<Vec<u8>, Error>(Error::ParsingSymbol(input_file_name))
            }
        },
{
    let mut file = match File::read(bytes) {
        Some(file) => file.0,
        None => { return Err(Error::ParsingFile(input_file_name)) },
    };
    proof {
        lemma_parse_file_section_props(bytes@);
        crate::object::elf64::file::lemma_parse_file_table_counts(bytes@);
        lemma_fetch_names_preserves_sections(file@);
    }
    let ghost parsed = file@;
    file.fetch_section_names();
    let ghost fetched = file@;
    proof {
        assert(forall|i: int|
            0 <= i < fetched.sections.len() ==> (#[trigger] fetched.sections[i]).data
                == parsed.sections[i].data && fetched.sections[i].section_type
                == parsed.sections[i].section_type && fetched.sections[i].flags
                == parsed.sections[i].flags);
    }

    // Check every symbol table, resolving names against the string section.
    let strings_section = file.strings_section();
    let strings_data = match strings_section {
        Some(section) => Some(&section.data),
        None => None,
    };
    let section_count = file.sections.len();
    let mut i: usize = 0;
    while i < section_count
        invariant
            forall|j: int|
                0 <= j < i && (#[trigger] fetched.sections[j]).section_type
                    == SectionType::SymbolTable ==> symbol_table_ok(
                    fetched.sections[j].data.endianness,
                    fetched.sections[j].data.bytes,
                    fetched.sections[j].data.entity_size,
                    0,
                ),
            0 <= i <= section_count,
        decreases section_count - i,
    {
        if matches!(file.sections[i].section_type, SectionType::SymbolTable) {
            let mut iterator = match file.sections[i].data.symbols(strings_data) {
                Some(iterator) => iterator,
                // A parsed section of symbol-table type always carries
                // symbol-table data, so this arm cannot be reached.
                None => {
                    proof {
                        assert(false);
                    }
                    return Err(Error::ParsingSymbol(input_file_name));
                },
            };
            let ghost table = fetched.sections[i as int].data;
            let mut done = false;
            while !done
                invariant
                    iterator@.bytes == table.bytes,
                    iterator@.endianness == table.endianness,
                    iterator@.entity_size == table.entity_size,
                    0 <= iterator@.pos,
                    !done ==> (symbol_table_ok(table.endianness, table.bytes, table.entity_size, 0)
                        <==> symbol_table_ok(
                        table.endianness,
                        table.bytes,
                        table.entity_size,
                        iterator@.pos,
                    )),
                    done ==> symbol_table_ok(table.endianness, table.bytes, table.entity_size, 0),
                decreases iterator@.bytes.len() + 24 - iterator@.pos, (if done {
                    0int
                } else {
                    1int
                }),
            {
                match iterator.next() {
                    None => { done = true },
                    Some(Ok(_)) => {},
                    Some(Err(_)) => { return Err(Error::ParsingSymbol(input_file_name)) },
                }
            }
        }
        i = i + 1;
    }
    proof {
        assert(spec_file_symbols_ok(fetched));
    }

    // Assemble the output image from the program-data sections.
    let mut builder = FileBuilder::new(
        file.endianness,
        file.version,
        file.os_abi,
        file.machine,
        file.processor_flags,
        file.sections.len(),
    );
    let mut i: usize = 0;
    while i < section_count
        invariant
            0 <= i <= section_count,
            builder@ == (FileBuilderModel {
                endianness: fetched.endianness,
                version: fetched.version,
                os_abi: fetched.os_abi,
                machine: fetched.machine,
                processor_flags: fetched.processor_flags,
                segments: spec_segments_of(fetched.sections.subrange(0, i as int)),
            }),
            builder.wf(),
        decreases section_count - i,
    {
        proof {
            assert(fetched.sections.subrange(0, i + 1).drop_last() =~= fetched.sections.subrange(
                0,
                i as int,
            ));
            assert(fetched.sections.subrange(0, i + 1).last() == fetched.sections[i as int]);
            lemma_segments_of_len(fetched.sections.subrange(0, i as int));
        }
        if matches!(file.sections[i].section_type, SectionType::ProgramData) {
            let data = copy_bytes(
                file.sections[i].data.inner.as_slice(),
                0,
                file.sections[i].data.inner.len(),
            );
            proof {
                assert(data@ =~= fetched.sections[i as int].data.bytes);
            }
            builder.push_segment(file.sections[i].flags, data);
        }
        proof {
            assert(builder@.segments =~= spec_segments_of(fetched.sections.subrange(0, i + 1)));
        }
        i = i + 1;
    }
    proof {
        assert(fetched.sections.subrange(0, section_count as int) =~= fetched.sections);
    }
    let output = builder.build();
    proof {
        assert(output@ == spec_output_bytes(fetched));
    }
    Ok(output)
}


/// Whatever the builder holds, what it emits is a non-empty image that
/// opens with the ELF64 magic and class bytes.
pub proof fn lemma_build_starts_with_magic(m: FileBuilderModel)
    ensures
        spec_build(m).len() >= 64,
        spec_build(m)[0] == 0x7f,
        spec_build(m)[1] == 0x45,
        spec_build(m)[2] == 0x4c,
        spec_build(m)[3] == 0x46,
        spec_build(m)[4] == 0x02,
{
    let e = m.endianness.spec_order();
    crate::object::endianness::lemma_u16_round_trip(e, FileType::ExecutableFile.code());
    crate::object::endianness::lemma_u16_round_trip(e, m.machine.code());
    crate::object::endianness::lemma_u32_round_trip(e, m.processor_flags);
    crate::object::endianness::lemma_u64_round_trip(e, 0x1078);
    crate::object::endianness::lemma_u64_round_trip(e, 64);
    crate::object::endianness::lemma_u64_round_trip(e, 0);
    crate::object::endianness::lemma_u16_round_trip(e, 64);
    crate::object::endianness::lemma_u16_round_trip(e, 56);
    crate::object::endianness::lemma_u16_round_trip(e, m.segments.len() as u16);
    crate::object::endianness::lemma_u16_round_trip(e, 0);
    assert(spec_built_header(m).len() == 64);
}

} // verus!
