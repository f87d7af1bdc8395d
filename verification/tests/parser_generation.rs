//! Tests for the read-only codec generation.

use weld::parser::elf64::data::{Data, DataType};
use weld::parser::elf64::file::{FileHeader, FileType, Machine};
use weld::parser::elf64::section::{SectionIndex, SectionType};
use weld::parser::elf64::symbol::{Symbol, SymbolBinding, SymbolIterator, SymbolType};
use weld::parser::elf64::{Address, Alignment};
use weld::parser::endianness::{
    BigEndian, Endianness as ParserEndianness, LittleEndian, NumberParser,
};
use weld::object::endianness::Endianness;
use weld::parser::generators;

#[test]
fn parser_number_parsers() {
    assert_eq!(LittleEndian::endianness(), ParserEndianness::Little);
    assert_eq!(BigEndian::endianness(), ParserEndianness::Big);
    assert_eq!(LittleEndian::u16(&42u16.to_le_bytes(), 0), Some((42, 2)));
    assert_eq!(BigEndian::u32(&42u32.to_be_bytes(), 0), Some((42, 4)));
    assert_eq!(BigEndian::u64(&42u64.to_be_bytes(), 0), Some((42, 8)));
    assert_eq!(LittleEndian::u8(&[7], 0), Some((7, 1)));
}

#[test]
fn parser_generator_parsers() {
    assert_eq!(
        <generators::LittleEndian as generators::NumberParser>::u16(&42u16.to_le_bytes(), 0),
        Some((42, 2)),
    );
    assert_eq!(
        <generators::BigEndian as generators::NumberParser>::u64(&42u64.to_be_bytes(), 0),
        Some((42, 8)),
    );
    assert_eq!(generators::skip(&[1, 2, 3], 0, 2), Some(2));
}

#[test]
fn parser_address() {
    assert_eq!(
        Address::parse(Endianness::Big, &42u64.to_be_bytes(), 0),
        Some((Address(42), 8)),
    );
    assert_eq!(
        Address::maybe_parse(Endianness::Big, &42u64.to_be_bytes(), 0),
        Some((Some(Address(42)), 8)),
    );
    assert_eq!(
        Address::maybe_parse(Endianness::Big, &0u64.to_be_bytes(), 0),
        Some((None, 8)),
    );
}

#[test]
fn parser_alignment() {
    assert_eq!(
        Alignment::parse(Endianness::Big, &0u64.to_be_bytes(), 0),
        Some((Alignment(None), 8)),
    );
    assert_eq!(
        Alignment::parse(Endianness::Big, &512u64.to_be_bytes(), 0),
        Some((Alignment(Some(512)), 8)),
    );
    assert_eq!(Alignment::parse(Endianness::Big, &513u64.to_be_bytes(), 0), None);
}

#[test]
fn parser_section_index() {
    assert_eq!(
        SectionIndex::parse(Endianness::Big, &0u16.to_be_bytes(), 0),
        Some((SectionIndex::Undefined, 2)),
    );
    assert_eq!(
        SectionIndex::parse(Endianness::Big, &0xfff1u16.to_be_bytes(), 0),
        Some((SectionIndex::Absolute, 2)),
    );
    assert_eq!(
        SectionIndex::parse(Endianness::Big, &42u16.to_be_bytes(), 0),
        Some((SectionIndex::Index(42), 2)),
    );
}

#[test]
fn parser_symbol_binding() {
    assert_eq!(
        SymbolBinding::parse(Endianness::Big, &[0x10], 0),
        Some((SymbolBinding::Global, 0)),
    );
    assert_eq!(
        SymbolBinding::parse(Endianness::Big, &[0xc0], 0),
        Some((SymbolBinding::HighEnvironmentSpecific, 0)),
    );
    assert_eq!(SymbolBinding::parse(Endianness::Big, &[0x30], 0), None);
}

#[test]
fn parser_symbol_type() {
    assert_eq!(
        SymbolType::parse(Endianness::Big, &[0x02], 0),
        Some((SymbolType::Function, 1)),
    );
    assert_eq!(
        SymbolType::parse(Endianness::Big, &[0x0d], 0),
        Some((SymbolType::LowProcessorSpecific, 1)),
    );
    assert_eq!(SymbolType::parse(Endianness::Big, &[0x05], 0), None);
}

fn symbol_record() -> Vec<u8> {
    let mut record = vec![0u8; 24];
    record[3] = 0x01; // name offset 1
    record[4] = 0x12; // global function
    record[7] = 0x02; // section index 2
    record[15] = 0x07; // value 7
    record[23] = 0x01; // size 1
    record
}

#[test]
fn parser_symbol_record() {
    let symbol = Symbol {
        name: None,
        name_offset: Address(1),
        binding: SymbolBinding::Global,
        symbol_type: SymbolType::Function,
        section_index_where_symbol_is_defined: SectionIndex::Index(2),
        value: Address(7),
        size: 1,
    };
    assert_eq!(Symbol::parse(Endianness::Big, &symbol_record(), 0), Some((symbol, 24)));
}

#[test]
fn parser_symbol_iterator() {
    let mut iterator = SymbolIterator::new(symbol_record(), ParserEndianness::Big);
    let first = iterator.next().unwrap().unwrap();
    assert_eq!(first.name_offset, Address(1));
    assert_eq!(first.binding, SymbolBinding::Global);
    assert_eq!(iterator.next(), None);

    let mut truncated = SymbolIterator::new(vec![0u8; 5], ParserEndianness::Big);
    assert_eq!(truncated.next(), Some(Err(())));
}

#[test]
fn parser_string_lookup() {
    let data = Data::new(
        b"\0abc\0de\0".to_vec(),
        DataType::StringTable,
        ParserEndianness::Little,
    );
    assert_eq!(data.get_string_at_offset(0), Some(b"".to_vec()));
    assert_eq!(data.get_string_at_offset(1), Some(b"abc".to_vec()));
    assert_eq!(data.get_string_at_offset(5), Some(b"de".to_vec()));
    assert_eq!(data.get_string_at_offset(7), Some(b"".to_vec()));
    assert_eq!(data.get_string_at_offset(8), None);

    let wrong = Data::new(vec![0], DataType::Unspecified, ParserEndianness::Little);
    assert_eq!(wrong.get_string_at_offset(0), None);
}

#[test]
fn parser_iter_symbols_needs_symbol_table() {
    let data = Data::new(vec![0; 24], DataType::Unspecified, ParserEndianness::Little);
    assert!(data.iter_symbols().is_none());
    let table = Data::new(vec![0; 0], DataType::SymbolTable, ParserEndianness::Little);
    assert!(table.iter_symbols().is_some());
}

fn put_u16_le(bytes: &mut [u8], at: usize, v: u16) {
    bytes[at..at + 2].copy_from_slice(&v.to_le_bytes());
}

fn put_u64_le(bytes: &mut [u8], at: usize, v: u64) {
    bytes[at..at + 8].copy_from_slice(&v.to_le_bytes());
}

/// The same three-section object the whole-file tests use: a null section,
/// a string table named `.strtab`, and the table of section names.
fn object_with_sections() -> Vec<u8> {
    let strtab: &[u8] = b"\0hello\0";
    let shstrtab: &[u8] = b"\0.strtab\0";
    let mut bytes = vec![0u8; 64 + 3 * 64];
    let strtab_offset = bytes.len() as u64;
    bytes.extend_from_slice(strtab);
    let shstrtab_offset = bytes.len() as u64;
    bytes.extend_from_slice(shstrtab);

    bytes[0] = 0x7f;
    bytes[1] = 0x45;
    bytes[2] = 0x4c;
    bytes[3] = 0x46;
    bytes[4] = 0x02;
    bytes[5] = 0x01;
    bytes[6] = 0x01;
    put_u16_le(&mut bytes, 16, 0x01);
    put_u16_le(&mut bytes, 18, 0x3e);
    put_u64_le(&mut bytes, 40, 64);
    put_u16_le(&mut bytes, 58, 64);
    put_u16_le(&mut bytes, 60, 3);
    put_u16_le(&mut bytes, 62, 2);

    let s1 = 64 + 64;
    put_u64_le(&mut bytes, s1, 0x0000_0003_0000_0001);
    put_u64_le(&mut bytes, s1 + 24, strtab_offset);
    put_u64_le(&mut bytes, s1 + 32, strtab.len() as u64);

    let s2 = 64 + 2 * 64;
    put_u64_le(&mut bytes, s2, 0x0000_0003_0000_0000);
    put_u64_le(&mut bytes, s2 + 24, shstrtab_offset);
    put_u64_le(&mut bytes, s2 + 32, shstrtab.len() as u64);

    bytes
}

#[test]
fn parser_file_header() {
    let bytes = object_with_sections();
    let (header, consumed) = FileHeader::parse(&bytes).unwrap();
    assert_eq!(consumed, 64);
    assert_eq!(header.file_type, FileType::RelocatableFile);
    assert_eq!(header.machine, Machine::X86_64);
    assert_eq!(header.program_headers.len(), 0);
    assert_eq!(header.section_headers.len(), 3);
    // This generation resolves names while it parses, the name table's own
    // name included.
    assert_eq!(header.section_headers[0].name, Some(b"".to_vec()));
    assert_eq!(header.section_headers[1].name, Some(b".strtab".to_vec()));
    assert_eq!(header.section_headers[2].name, Some(b"".to_vec()));
    assert_eq!(header.section_headers[1].section_type, SectionType::StringTable);
    assert_eq!(header.section_headers[1].data.inner, b"\0hello\0".to_vec());
}

#[test]
fn parser_file_header_rejects_garbage() {
    assert!(FileHeader::parse(&[1, 2, 3]).is_none());
    let mut bytes = object_with_sections();
    bytes[6] = 9; // no such version
    assert!(FileHeader::parse(&bytes).is_none());
}
