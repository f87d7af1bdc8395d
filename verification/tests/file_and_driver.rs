//! Tests for whole-file reading, section name fetching, the builder, and
//! the linker driver.

use weld::linker::configuration::Configuration;
use weld::linker::elf64::{process_object, Error as Elf64Error, FileBuilder};
use weld::linker::linker::{Error, Linker};
use weld::linker::target::{BinaryFormat, Triple};
use weld::object::elf64::file::{Endianness as HeaderEndianness, File, Machine, OsAbi, Version};
use weld::object::elf64::section::{SectionFlags, SectionType};
use weld::scheduler::worker_count;

fn put_u16_le(bytes: &mut [u8], at: usize, v: u16) {
    bytes[at..at + 2].copy_from_slice(&v.to_le_bytes());
}

fn put_u64_le(bytes: &mut [u8], at: usize, v: u64) {
    bytes[at..at + 8].copy_from_slice(&v.to_le_bytes());
}

/// A minimal little-endian relocatable object: the 64-byte header declares
/// no program table and no section table.
fn minimal_object() -> Vec<u8> {
    let mut bytes = vec![0u8; 64];
    bytes[0] = 0x7f;
    bytes[1] = 0x45;
    bytes[2] = 0x4c;
    bytes[3] = 0x46;
    bytes[4] = 0x02;
    bytes[5] = 0x01; // little endian
    bytes[6] = 0x01; // current version
    bytes[7] = 0x00; // System V
    put_u16_le(&mut bytes, 16, 0x01); // relocatable file
    put_u16_le(&mut bytes, 18, 0x3e); // x86-64
    bytes
}

/// A little-endian object with three sections: a null section, a string
/// table named `.strtab` holding `hello`, and the table of section names.
fn object_with_sections() -> Vec<u8> {
    let strtab: &[u8] = b"\0hello\0";
    let shstrtab: &[u8] = b"\0.strtab\0";
    let mut bytes = vec![0u8; 64 + 3 * 64];
    let strtab_offset = bytes.len() as u64;
    bytes.extend_from_slice(strtab);
    let shstrtab_offset = bytes.len() as u64;
    bytes.extend_from_slice(shstrtab);

    bytes[0] = 0x7f;
    bytes[1] = 0x45;
    bytes[2] = 0x4c;
    bytes[3] = 0x46;
    bytes[4] = 0x02;
    bytes[5] = 0x01;
    bytes[6] = 0x01;
    put_u16_le(&mut bytes, 16, 0x01);
    put_u16_le(&mut bytes, 18, 0x3e);
    put_u64_le(&mut bytes, 40, 64); // section table right after the header
    put_u16_le(&mut bytes, 58, 64); // section entry size
    put_u16_le(&mut bytes, 60, 3); // three sections
    put_u16_le(&mut bytes, 62, 2); // names live in section 2

    // Section 1: the string table named ".strtab".
    let s1 = 64 + 64;
    put_u64_le(&mut bytes, s1 + 0, 0x0000_0003_0000_0001); // name offset 1, type 3
    put_u64_le(&mut bytes, s1 + 24, strtab_offset);
    put_u64_le(&mut bytes, s1 + 32, strtab.len() as u64);

    // Section 2: the table of section names.
    let s2 = 64 + 2 * 64;
    put_u64_le(&mut bytes, s2 + 0, 0x0000_0003_0000_0000); // name offset 0, type 3
    put_u64_le(&mut bytes, s2 + 24, shstrtab_offset);
    put_u64_le(&mut bytes, s2 + 32, shstrtab.len() as u64);

    bytes
}

#[test]
fn file_read_minimal_object() {
    let bytes = minimal_object();
    let (file, consumed) = File::read(&bytes).unwrap();
    // The file-level read consumes the entire byte range.
    assert_eq!(consumed, bytes.len());
    assert_eq!(file.endianness, HeaderEndianness::Little);
    assert_eq!(file.version, Version::Current);
    assert_eq!(file.os_abi, OsAbi::SystemV);
    assert_eq!(file.machine, Machine::X86_64);
    assert_eq!(file.entry_point, None);
    assert_eq!(file.programs.len(), 0);
    assert_eq!(file.sections.len(), 0);
}

#[test]
fn file_read_rejects_bad_magic() {
    let mut bytes = minimal_object();
    bytes[0] = 0x7e;
    assert!(File::read(&bytes).is_none());
    assert!(File::read(&[]).is_none());
    assert!(File::read(&minimal_object()[..63]).is_none());
}

#[test]
fn file_read_rejects_unknown_discriminants() {
    let mut bytes = minimal_object();
    bytes[5] = 0x03; // no such byte order
    assert!(File::read(&bytes).is_none());
    let mut bytes = minimal_object();
    put_u16_le(&mut bytes, 16, 0x09); // no such file type
    assert!(File::read(&bytes).is_none());
}

#[test]
fn fetch_section_names_resolves_names() {
    let bytes = object_with_sections();
    let (mut file, consumed) = File::read(&bytes).unwrap();
    assert_eq!(consumed, bytes.len());
    assert_eq!(file.sections.len(), 3);
    assert_eq!(file.sections[1].section_type, SectionType::StringTable);
    assert!(file.sections[1].name.is_none());

    file.fetch_section_names();
    assert_eq!(file.sections[0].name, Some(b"".to_vec()));
    assert_eq!(file.sections[1].name, Some(b".strtab".to_vec()));
    // The section holding the names keeps its own fields untouched.
    assert_eq!(file.sections[2].name, None);
    assert_eq!(file.sections[2].data.inner, b"\0.strtab\0".to_vec());

    let strings = file.strings_section().unwrap();
    assert_eq!(strings.data.inner, b"\0hello\0".to_vec());
}

#[test]
fn builder_emits_header_and_segments() {
    let mut builder = FileBuilder::new(
        HeaderEndianness::Little,
        Version::Current,
        OsAbi::SystemV,
        Machine::X86_64,
        0,
        1,
    );
    builder.push_segment(SectionFlags::from_bits(0x6).unwrap(), vec![1, 2, 3]);
    let out = builder.build();

    assert_eq!(out.len(), 64 + 56 + 3);
    assert_eq!(&out[0..6], &[0x7f, 0x45, 0x4c, 0x46, 0x02, 0x01]);
    // Entry point points just past the header, one program header and the
    // load address.
    assert_eq!(out[24..32], 0x1078u64.to_le_bytes());
    // One program header, right after the file header.
    assert_eq!(out[32..40], 64u64.to_le_bytes());
    assert_eq!(out[54..56], 56u16.to_le_bytes());
    assert_eq!(out[56..58], 1u16.to_le_bytes());
    // The segment: a loadable segment, readable and executable.
    assert_eq!(out[64..68], 1u32.to_le_bytes()); // type
    assert_eq!(out[68..72], 5u32.to_le_bytes()); // flags: Allocable -> Read, Executable -> Execute
    assert_eq!(out[96..104], 123u64.to_le_bytes()); // 64 + 56 + 3 bytes
    assert_eq!(&out[120..123], &[1, 2, 3]);
}

#[test]
fn builder_counts_its_segments() {
    let mut builder = FileBuilder::new(
        HeaderEndianness::Little,
        Version::Current,
        OsAbi::SystemV,
        Machine::X86_64,
        0,
        2,
    );
    builder.push_segment(SectionFlags::from_bits(0x2).unwrap(), vec![1, 2, 3]);
    builder.push_segment(SectionFlags::from_bits(0x1).unwrap(), vec![4, 5]);
    let out = builder.build();

    assert_eq!(out.len(), 64 + 2 * 56 + 3 + 2);
    // The header's count field carries the number of appended segments.
    assert_eq!(out[56..58], 2u16.to_le_bytes());
    // Both program headers are loadable segments.
    assert_eq!(out[64..68], 1u32.to_le_bytes());
    assert_eq!(out[120..124], 1u32.to_le_bytes());
    // The payloads follow the headers, concatenated.
    assert_eq!(&out[176..181], &[1, 2, 3, 4, 5]);
}

#[test]
fn process_object_emits_output() {
    let bytes = minimal_object();
    let out = process_object(String::from("exit.o"), &bytes).unwrap();
    assert!(!out.is_empty());
    assert_eq!(&out[0..5], &[0x7f, 0x45, 0x4c, 0x46, 0x02]);
    // The output parses again as an executable.
    let (again, _) = File::read(&out).unwrap();
    assert_eq!(again.machine, Machine::X86_64);
}

#[test]
fn process_object_reports_parse_failure() {
    let r = process_object(String::from("broken.o"), &[0x7f, 0x45]);
    assert_eq!(r, Err(Elf64Error::ParsingFile(String::from("broken.o"))));
}

#[test]
fn process_object_reports_symbol_failure() {
    // Turn the string table of the richer object into a symbol table: its
    // seven bytes are no whole number of 24-byte records.
    let mut bytes = object_with_sections();
    bytes[64 + 64 + 4] = 0x02;
    let r = process_object(String::from("symbols.o"), &bytes);
    assert_eq!(r, Err(Elf64Error::ParsingSymbol(String::from("symbols.o"))));
}

fn configuration(format: BinaryFormat, inputs: Vec<String>) -> Configuration {
    Configuration::new(
        Triple::new(String::from("x86_64-unknown-linux"), format),
        inputs,
        String::from("a.out"),
    )
}

#[test]
fn link_with_empty_inputs_is_refused() {
    let linker = configuration(BinaryFormat::Elf, vec![]).linker();
    assert_eq!(linker.plan(), Err(Error::NoInputFile));
}

#[test]
fn link_with_unsupported_format_is_refused() {
    let linker = Configuration::new(
        Triple::new(String::from("wasm32-unknown-unknown"), BinaryFormat::Wasm),
        vec![String::from("exit.o")],
        String::from("a.out"),
    )
    .linker();
    let r = linker.plan();
    match r {
        Err(Error::UnsupportedBinaryFormat(triple)) => {
            assert_eq!(triple.text, String::from("wasm32-unknown-unknown"));
        }
        other => panic!("expected an unsupported-format error, got {:?}", other),
    }
}

#[test]
fn link_plan_lists_the_inputs() {
    let linker = configuration(BinaryFormat::Elf, vec![String::from("exit.o")]).linker();
    let plan = linker.plan().unwrap();
    assert_eq!(plan.input_files, vec![String::from("exit.o")]);
    assert_eq!(plan.output_file, String::from("a.out"));
    assert_eq!(plan.desired_pool_size, 4);
}

#[test]
fn error_codes_are_stable() {
    assert_eq!(Error::NoInputFile.code(), Some("E002"));
    assert_eq!(
        Error::UnsupportedBinaryFormat(Triple::new(String::from("t"), BinaryFormat::Wasm)).code(),
        Some("E003"),
    );
    assert_eq!(Elf64Error::ParsingFile(String::from("a")).code(), Some("E004"));
    assert_eq!(Elf64Error::ParsingSymbol(String::from("a")).code(), Some("E005"));
    assert_eq!(Elf64Error::NotRelocatable(String::from("a")).code(), Some("E006"));
    assert_eq!(Elf64Error::ThreadPoolChannelClosed.code(), None);
    assert_eq!(Error::Elf64(Elf64Error::ParsingFile(String::from("a"))).code(), Some("E004"));
}

#[test]
fn worker_count_is_clamped_by_parallelism() {
    assert_eq!(worker_count(4, 16), 4);
    assert_eq!(worker_count(4, 2), 2);
    assert_eq!(worker_count(1, 1), 1);
    assert_eq!(worker_count(7, 7), 7);
}
