//! Tests for the small ELF64 domain types: addresses, alignments, flags,
//! section indices, enumerated discriminants.

use weld::object::elf64::file::{FileType, Machine, OsAbi, Version};
use weld::object::elf64::program::{ProgramFlag, ProgramFlags, ProgramType};
use weld::object::elf64::section::{SectionFlag, SectionFlags, SectionIndex, SectionType};
use weld::object::elf64::{Address, Alignment};
use weld::object::endianness::Endianness;

#[test]
fn test_address() {
    for e in [Endianness::Little, Endianness::Big] {
        // From u64.
        let mut bytes = Vec::new();
        Address(42).write(e, &mut bytes);
        assert_eq!(bytes.len(), 8);
        assert_eq!(Address::read(e, &bytes, 0), Some((Address(42), 8)));

        // From u32.
        let mut bytes = Vec::new();
        Address(42).write_u32(e, &mut bytes);
        assert_eq!(bytes.len(), 4);
        assert_eq!(Address::read_u32(e, &bytes, 0), Some((Address(42), 4)));

        // As option: Some.
        let mut bytes = Vec::new();
        Address::maybe_write(&Some(Address(42)), e, &mut bytes);
        assert_eq!(Address::maybe_read(e, &bytes, 0), Some((Some(Address(42)), 8)));

        // As option: None.
        let mut bytes = Vec::new();
        Address::maybe_write(&None, e, &mut bytes);
        assert_eq!(bytes, vec![0u8; 8]);
        assert_eq!(Address::maybe_read(e, &bytes, 0), Some((None, 8)));
    }
}

#[test]
fn test_address_add() {
    assert_eq!(Address(40).add(Address(2)), Address(42));
}

#[test]
fn test_alignment() {
    for e in [Endianness::Little, Endianness::Big] {
        // No alignment.
        let mut bytes = Vec::new();
        Alignment(None).write(e, &mut bytes);
        assert_eq!(bytes, vec![0u8; 8]);
        assert_eq!(Alignment::read(e, &bytes, 0), Some((Alignment(None), 8)));

        // Some value alignment.
        let mut bytes = Vec::new();
        Alignment(Some(512)).write(e, &mut bytes);
        assert_eq!(Alignment::read(e, &bytes, 0), Some((Alignment(Some(512)), 8)));
    }

    // Some invalid (because not a power of two) alignment.
    assert_eq!(Alignment::read(Endianness::Big, &513u64.to_be_bytes(), 0), None);
    assert_eq!(Alignment::new(513), None);
    assert_eq!(Alignment::new(0), Some(Alignment(None)));
    assert_eq!(Alignment::new(4096), Some(Alignment(Some(4096))));
}

#[test]
fn test_section_index() {
    let cases: &[(u16, SectionIndex)] = &[
        (0x0000, SectionIndex::Undefined),
        (0xff00, SectionIndex::LowProcessorSpecific),
        (0xff1f, SectionIndex::HighProcessorSpecific),
        (0xff20, SectionIndex::LowEnvironmentSpecific),
        (0xff3f, SectionIndex::HighEnvironmentSpecific),
        (0xfff1, SectionIndex::Absolute),
        (0xfff2, SectionIndex::Common),
        (0x0001, SectionIndex::Index(1)),
        (0x002a, SectionIndex::Index(42)),
    ];
    for (value, expected) in cases {
        for e in [Endianness::Little, Endianness::Big] {
            // Through the two-byte field.
            let mut bytes = Vec::new();
            expected.write_u16(e, &mut bytes);
            assert_eq!(SectionIndex::read_u16(e, &bytes, 0), Some((*expected, 2)));
            // Through the four-byte field.
            let mut bytes = Vec::new();
            expected.write_u32(e, &mut bytes);
            assert_eq!(SectionIndex::read_u32(e, &bytes, 0), Some((*expected, 4)));
        }
        assert_eq!(SectionIndex::_read(*value as u32), *expected);
    }
}

#[test]
fn test_program_flag() {
    for e in [Endianness::Little, Endianness::Big] {
        for (word, flag) in [
            (0x1u32, ProgramFlag::Execute),
            (0x2, ProgramFlag::Write),
            (0x4, ProgramFlag::Read),
        ] {
            let expected = ProgramFlags::from_bits(word).unwrap();
            assert!(expected.contains(flag));
            let mut bytes = Vec::new();
            expected.write(e, &mut bytes);
            assert_eq!(ProgramFlags::read(e, &bytes, 0), Some((expected, 4)));
        }
    }
    // A bit outside the declared set is rejected.
    assert_eq!(ProgramFlags::from_bits(0x8), None);
    assert_eq!(ProgramFlags::read(Endianness::Little, &8u32.to_le_bytes(), 0), None);
    let mut flags = ProgramFlags::empty();
    flags.insert(ProgramFlag::Read);
    flags.insert(ProgramFlag::Execute);
    assert_eq!(flags.bits(), 0x5);
}

#[test]
fn test_section_flag() {
    for e in [Endianness::Little, Endianness::Big] {
        for (word, flag) in [
            (0x01u64, SectionFlag::Writable),
            (0x02, SectionFlag::Allocable),
            (0x04, SectionFlag::Executable),
            (0x10, SectionFlag::Merge),
            (0x20, SectionFlag::Strings),
            (0x80, SectionFlag::LinkOrder),
            (0x100, SectionFlag::OsNonConforming),
            (0x200, SectionFlag::IsPartOfAGroup),
            (0x400, SectionFlag::HasThreadLocalData),
        ] {
            let expected = SectionFlags::from_bits(word).unwrap();
            assert!(expected.contains(flag));
            let mut bytes = Vec::new();
            expected.write(e, &mut bytes);
            assert_eq!(SectionFlags::read(e, &bytes, 0), Some((expected, 8)));
        }
    }
    // A bit outside the declared set is rejected.
    assert_eq!(SectionFlags::from_bits(0x8), None);
    assert_eq!(SectionFlags::read(Endianness::Big, &8u64.to_be_bytes(), 0), None);
}

#[test]
fn test_enum_discriminant_round_trips() {
    for e in [Endianness::Little, Endianness::Big] {
        for v in [Version::Invalid, Version::Current] {
            let mut bytes = Vec::new();
            v.write(e, &mut bytes);
            assert_eq!(Version::read(e, &bytes, 0), Some((v, 1)));
        }
        for t in [
            FileType::Unknown,
            FileType::RelocatableFile,
            FileType::ExecutableFile,
            FileType::SharedObject,
            FileType::CoreFile,
        ] {
            let mut bytes = Vec::new();
            t.write(e, &mut bytes);
            assert_eq!(FileType::read(e, &bytes, 0), Some((t, 2)));
        }
        for m in [Machine::X86_64, Machine::Aarch64, Machine::RiscV, Machine::Unspecified] {
            let mut bytes = Vec::new();
            m.write(e, &mut bytes);
            assert_eq!(Machine::read(e, &bytes, 0), Some((m, 2)));
        }
        for a in [OsAbi::SystemV, OsAbi::Gnu, OsAbi::Standalone] {
            let mut bytes = Vec::new();
            a.write(e, &mut bytes);
            assert_eq!(OsAbi::read(e, &bytes, 0), Some((a, 1)));
        }
        for p in [ProgramType::Null, ProgramType::Load, ProgramType::ThreadLocalStorage] {
            let mut bytes = Vec::new();
            p.write(e, &mut bytes);
            assert_eq!(ProgramType::read(e, &bytes, 0), Some((p, 4)));
        }
        for s in [
            SectionType::Null,
            SectionType::ProgramData,
            SectionType::SymbolTable,
            SectionType::StringTable,
            SectionType::HighProcessorSpecific,
        ] {
            let mut bytes = Vec::new();
            s.write(e, &mut bytes);
            assert_eq!(SectionType::read(e, &bytes, 0), Some((s, 4)));
        }
    }
    // An unknown discriminant is rejected.
    assert_eq!(FileType::read(Endianness::Little, &5u16.to_le_bytes(), 0), None);
    assert_eq!(Version::read(Endianness::Little, &[9u8], 0), None);
}
