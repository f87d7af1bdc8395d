//! Tests for the fixed-size records: program headers, section headers,
//! symbols, and the data wrapper over section contents.

use weld::object::elf64::data::{Data, DataType};
use weld::object::elf64::program::{Program, ProgramFlags, ProgramType};
use weld::object::elf64::section::{Section, SectionFlags, SectionIndex, SectionType};
use weld::object::elf64::symbol::{Symbol, SymbolBinding, SymbolIterator, SymbolType};
use weld::object::elf64::{Address, Alignment};
use weld::object::endianness::Endianness;

#[test]
fn test_string_at_offset() {
    let data = Data::new(
        vec![0x0, 0x61, 0x62, 0x63, 0x0, 0x64, 0x65, 0x0, 0x66],
        DataType::StringTable,
        Endianness::Little,
        None,
    );

    assert_eq!(data.string_at_offset(0), Some(b"".to_vec()));
    assert_eq!(data.string_at_offset(1), Some(b"abc".to_vec()));
    assert_eq!(data.string_at_offset(2), Some(b"bc".to_vec()));
    assert_eq!(data.string_at_offset(3), Some(b"c".to_vec()));
    assert_eq!(data.string_at_offset(4), Some(b"".to_vec()));
    assert_eq!(data.string_at_offset(5), Some(b"de".to_vec()));
    assert_eq!(data.string_at_offset(6), Some(b"e".to_vec()));
    assert_eq!(data.string_at_offset(7), Some(b"".to_vec()));
    assert_eq!(data.string_at_offset(8), None);
    assert_eq!(data.string_at_offset(9), None);
    assert_eq!(data.string_at_offset(10), None);
}

#[test]
fn test_string_at_offset_needs_string_table() {
    let data = Data::new(vec![0x61, 0x0], DataType::ProgramData, Endianness::Little, None);
    assert_eq!(data.string_at_offset(0), None);
}

fn program_record() -> Vec<u8> {
    vec![
        // Type.
        0x00, 0x00, 0x00, 0x01,
        // Flag.
        0x00, 0x00, 0x00, 0x05,
        // Offset.
        0x00, 0x00, 0x00, 0x00, 0x00, 0x00, 0x00, 0x00,
        // Virtual address.
        0x00, 0x00, 0x00, 0x00, 0x00, 0x00, 0x00, 0x07,
        // Physical address.
        0x00, 0x00, 0x00, 0x00, 0x00, 0x00, 0x00, 0x00,
        // Segment size in file image.
        0x00, 0x00, 0x00, 0x00, 0x00, 0x00, 0x00, 0x05,
        // Segment size in memory.
        0x00, 0x00, 0x00, 0x00, 0x00, 0x00, 0x00, 0x00,
        // Alignment.
        0x00, 0x00, 0x00, 0x00, 0x00, 0x00, 0x02, 0x00,
    ]
}

#[test]
fn test_program() {
    let input = program_record();
    let file: &[u8] = &[0x0, 0x61, 0x62, 0x63, 0x0];

    let program = Program {
        program_type: ProgramType::Load,
        offset: Address(0),
        virtual_address: Address(7),
        physical_address: None,
        segment_size_in_file_image: Address(5),
        segment_size_in_memory: Address(0),
        alignment: Alignment(Some(512)),
        segment_flags: ProgramFlags::from_bits(0x5).unwrap(),
        data: Data::new(file.to_vec(), DataType::ProgramData, Endianness::Big, None),
    };

    let mut buffer = Vec::new();
    program.write(Endianness::Big, &mut buffer);
    assert_eq!(buffer, input);

    assert_eq!(Program::read(Endianness::Big, &input, 0, file), Some((program, 56)));
}

fn section_record() -> Vec<u8> {
    vec![
        // Name offset.
        0x00, 0x00, 0x00, 0x01,
        // Type.
        0x00, 0x00, 0x00, 0x03,
        // Flag.
        0x00, 0x00, 0x00, 0x00, 0x00, 0x00, 0x00, 0x00,
        // Virtual address.
        0x00, 0x00, 0x00, 0x00, 0x00, 0x00, 0x00, 0x07,
        // Offset.
        0x00, 0x00, 0x00, 0x00, 0x00, 0x00, 0x00, 0x00,
        // Segment size in file image.
        0x00, 0x00, 0x00, 0x00, 0x00, 0x00, 0x00, 0x05,
        // Link.
        0x00, 0x00, 0x00, 0x03,
        // Information.
        0x00, 0x00, 0x00, 0x00,
        // Alignment.
        0x00, 0x00, 0x00, 0x00, 0x00, 0x00, 0x02, 0x00,
        // Entity size.
        0x00, 0x00, 0x00, 0x00, 0x00, 0x00, 0x00, 0x00,
    ]
}

#[test]
fn test_section() {
    let input = section_record();
    let file: &[u8] = &[0x0, 0x61, 0x62, 0x63, 0x0];

    let section = Section {
        name: None,
        name_offset: Address(1),
        section_type: SectionType::StringTable,
        flags: SectionFlags::empty(),
        virtual_address: Address(7),
        offset: Address(0),
        segment_size_in_file_image: Address(5),
        link: SectionIndex::Index(3),
        information: 0,
        alignment: Alignment(Some(512)),
        entity_size: None,
        data: Data::new(file.to_vec(), DataType::StringTable, Endianness::Big, None),
    };

    let mut buffer = Vec::new();
    section.write(Endianness::Big, &mut buffer);
    assert_eq!(buffer, input);

    assert_eq!(Section::read(Endianness::Big, &input, 0, file), Some((section, 64)));
}

fn symbol_record() -> Vec<u8> {
    vec![
        // Name offset.
        0x00, 0x00, 0x00, 0x01,
        // Binding + type.
        0x12,
        // (other).
        0x00,
        // Section index.
        0x00, 0x02,
        // Value.
        0x00, 0x00, 0x00, 0x00, 0x00, 0x00, 0x00, 0x07,
        // Size.
        0x00, 0x00, 0x00, 0x00, 0x00, 0x00, 0x00, 0x01,
    ]
}

#[test]
fn test_symbol() {
    let input = symbol_record();

    let symbol = Symbol {
        name: None,
        name_offset: Address(1),
        binding: SymbolBinding::Global,
        symbol_type: SymbolType::Function,
        section_index_where_symbol_is_defined: SectionIndex::Index(2),
        value: Address(7),
        size: 1,
    };

    let mut buffer = Vec::new();
    symbol.write(Endianness::Big, &mut buffer);
    assert_eq!(buffer, input);

    assert_eq!(Symbol::read(Endianness::Big, &input, 0), Some((symbol, 24)));
}

#[test]
fn test_symbol_binding() {
    let cases: &[(u8, SymbolBinding)] = &[
        (0x00, SymbolBinding::Local),
        (0x01, SymbolBinding::Global),
        (0x02, SymbolBinding::Weak),
        (0x0a, SymbolBinding::LowEnvironmentSpecific),
        (0x0c, SymbolBinding::HighEnvironmentSpecific),
        (0x0d, SymbolBinding::LowProcessorSpecific),
        (0x0f, SymbolBinding::HighProcessorSpecific),
    ];
    for (nibble, expected) in cases {
        let input: u8 = nibble << 4;
        // The byte is shared with the symbol type, so it is not consumed.
        assert_eq!(
            SymbolBinding::read(Endianness::Big, &[input], 0),
            Some((*expected, 0)),
        );
    }
    // An unassigned nibble is rejected.
    assert_eq!(SymbolBinding::read(Endianness::Big, &[0x30], 0), None);
}

#[test]
fn test_symbol_type() {
    let cases: &[(u8, SymbolType)] = &[
        (0x00, SymbolType::NoType),
        (0x01, SymbolType::Object),
        (0x02, SymbolType::Function),
        (0x03, SymbolType::Section),
        (0x04, SymbolType::File),
        (0x0a, SymbolType::LowEnvironmentSpecific),
        (0x0c, SymbolType::HighEnvironmentSpecific),
        (0x0d, SymbolType::LowProcessorSpecific),
        (0x0f, SymbolType::HighProcessorSpecific),
    ];
    for (nibble, expected) in cases {
        let input: u8 = nibble & 0x0f;
        assert_eq!(
            SymbolType::read(Endianness::Big, &[input], 0),
            Some((*expected, 1)),
        );
    }
    // An unassigned nibble is rejected.
    assert_eq!(SymbolType::read(Endianness::Big, &[0x05], 0), None);
}

#[test]
fn test_symbol_iterator() {
    let mut input = symbol_record();
    input.extend_from_slice(&[
        // Name offset.
        0x00, 0x00, 0x00, 0x03,
        // Binding + type.
        0x23,
        // (other).
        0x00,
        // Section index.
        0x00, 0x01,
        // Value.
        0x00, 0x00, 0x00, 0x00, 0x00, 0x00, 0x00, 0x05,
        // Size.
        0x00, 0x00, 0x00, 0x00, 0x00, 0x00, 0x00, 0x02,
    ]);

    let mut iterator = SymbolIterator {
        input,
        pos: 0,
        endianness: Endianness::Big,
        entity_size: None,
        strings: None,
    };

    assert_eq!(
        iterator.next(),
        Some(Ok(Symbol {
            name: None,
            name_offset: Address(1),
            binding: SymbolBinding::Global,
            symbol_type: SymbolType::Function,
            section_index_where_symbol_is_defined: SectionIndex::Index(2),
            value: Address(7),
            size: 1,
        })),
    );
    assert_eq!(
        iterator.next(),
        Some(Ok(Symbol {
            name: None,
            name_offset: Address(3),
            binding: SymbolBinding::Weak,
            symbol_type: SymbolType::Section,
            section_index_where_symbol_is_defined: SectionIndex::Index(1),
            value: Address(5),
            size: 2,
        })),
    );
    assert_eq!(iterator.next(), None);
}

#[test]
fn test_symbols_resolve_names() {
    let strings = Data::new(
        b"\0hello\0".to_vec(),
        DataType::StringTable,
        Endianness::Big,
        None,
    );
    let table = Data::new(symbol_record(), DataType::SymbolTable, Endianness::Big, Some(24));
    let mut iterator = table.symbols(Some(&strings)).unwrap();
    let first = iterator.next().unwrap().unwrap();
    assert_eq!(first.name, Some(b"hello".to_vec()));
    assert_eq!(iterator.next(), None);
}

#[test]
fn test_symbols_need_symbol_table() {
    let data = Data::new(vec![0; 24], DataType::ProgramData, Endianness::Big, None);
    assert!(data.symbols(None).is_none());
}

#[test]
fn test_symbols_reject_wrong_entity_size() {
    let table = Data::new(symbol_record(), DataType::SymbolTable, Endianness::Big, Some(16));
    let mut iterator = table.symbols(None).unwrap();
    assert_eq!(iterator.next(), Some(Err(())));
}
