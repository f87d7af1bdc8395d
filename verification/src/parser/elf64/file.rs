//! The top-level file header and the enumerated types of the read-only
//! codec generation.

use vstd::prelude::*;

use crate::object::combinators::copy_bytes;
use crate::object::elf64::data::string_table_lookup;
use crate::object::elf64::file::{chunk_at, chunk_count, spec_magic_ok};
use crate::object::endianness::{
    read_u16, read_u32, read_u64, read_u8, u16_at, u16_bytes, u32_at, u64_at,
};
use crate::parser::elf64::data::{Data, DataType};
use crate::parser::elf64::program::{parser_endianness, spec_parse_program, Program, ProgramModel};
use crate::parser::elf64::section::{spec_parse_section, Section, SectionModel, SectionType};
use crate::parser::elf64::{option_address_of_value, Address};

verus! {

/// Byte order of the file.
#[derive(Debug, Clone, Copy, PartialEq, Eq, Structural)]
pub enum Endianness {
    /// Little endian byte order.
    Little,
    /// Big endian byte order.
    Big,
}

impl Endianness {
    /// The on-disk discriminant of this variant.
    pub open spec fn code(self) -> u8 {
        match self {
            Endianness::Little => 0x01,
            Endianness::Big => 0x02,
        }
    }

    /// The variant that a discriminant decodes to, if it is recognised.
    pub open spec fn from_code(v: u8) -> Option<Endianness> {
        if v == 0x01 {
            Some(Endianness::Little)
        } else if v == 0x02 {
            Some(Endianness::Big)
        } else {
            None
        }
    }

    /// Decode an `Endianness` from its 1-byte discriminant field.
    pub fn parse(e: crate::object::endianness::Endianness, bytes: &[u8], pos: usize) -> (r: Option<(Endianness, usize)>)
        ensures
            r matches Some((v, p)) ==> pos + 1 <= bytes@.len() && Endianness::from_code(
                bytes@[pos as int],
            ) == Some(v) && p == pos + 1,
            r is None <==> (pos + 1 > bytes@.len() || Endianness::from_code(bytes@[pos as int]) is None),
    {
        match read_u8(e, bytes, pos) {
            Some((value, next)) => {
                let decoded = match value {
                    0x01 => Some(Endianness::Little),
                    0x02 => Some(Endianness::Big),
                    _ => None,
                };
                match decoded {
                    Some(v) => Some((v, next)),
                    None => None,
                }
            },
            None => None,
        }
    }
}

/// Decoding the written discriminant of any `Endianness` variant yields that
/// variant back.
pub proof fn lemma_endianness_round_trip(e: crate::object::endianness::Endianness, v: Endianness)
    ensures
        Endianness::from_code(v.code()) == Some(v),
{
}

/// Elf version.
#[derive(Debug, Clone, Copy, PartialEq, Eq, Structural)]
pub enum Version {
    /// Invalid version.
    Invalid,
    /// Current version.
    Current,
}

impl Version {
    /// The on-disk discriminant of this variant.
    pub open spec fn code(self) -> u8 {
        match self {
            Version::Invalid => 0x00,
            Version::Current => 0x01,
        }
    }

    /// The variant that a discriminant decodes to, if it is recognised.
    pub open spec fn from_code(v: u8) -> Option<Version> {
        if v == 0x00 {
            Some(Version::Invalid)
        } else if v == 0x01 {
            Some(Version::Current)
        } else {
            None
        }
    }

    /// Decode a `Version` from its 1-byte discriminant field.
    pub fn parse(e: crate::object::endianness::Endianness, bytes: &[u8], pos: usize) -> (r: Option<(Version, usize)>)
        ensures
            r matches Some((v, p)) ==> pos + 1 <= bytes@.len() && Version::from_code(
                bytes@[pos as int],
            ) == Some(v) && p == pos + 1,
            r is None <==> (pos + 1 > bytes@.len() || Version::from_code(bytes@[pos as int]) is None),
    {
        match read_u8(e, bytes, pos) {
            Some((value, next)) => {
                let decoded = match value {
                    0x00 => Some(Version::Invalid),
                    0x01 => Some(Version::Current),
                    _ => None,
                };
                match decoded {
                    Some(v) => Some((v, next)),
                    None => None,
                }
            },
            None => None,
        }
    }
}

/// Decoding the written discriminant of any `Version` variant yields that
/// variant back.
pub proof fn lemma_version_round_trip(e: crate::object::endianness::Endianness, v: Version)
    ensures
        Version::from_code(v.code()) == Some(v),
{
}

/// Operating System (OS) Application Binary Interface (ABI).
#[derive(Debug, Clone, Copy, PartialEq, Eq, Structural)]
pub enum OsAbi {
    /// [System V](https://en.wikipedia.org/wiki/System_V).
    SystemV,
    /// [HP-UX](https://en.wikipedia.org/wiki/HP-UX).
    HpUx,
    /// [NetBSD](https://en.wikipedia.org/wiki/NetBSD).
    NetBsd,
    /// [GNU Linux](https://en.wikipedia.org/wiki/Linux).
    Gnu,
    /// [GNU Hurd](https://en.wikipedia.org/wiki/GNU_Hurd).
    GnuHurd,
    /// [Sun Solaris](https://en.wikipedia.org/wiki/Solaris_(operating_system)).
    Solaris,
    /// [IBM AIX (Monterey)](https://en.wikipedia.org/wiki/IBM_AIX).
    Aix,
    /// [SGI IRIX](https://en.wikipedia.org/wiki/IRIX).
    Irix,
    /// [FreeBSD](https://en.wikipedia.org/wiki/FreeBSD).
    FreeBsd,
    /// [Compaq TRU64 UNIX](https://en.wikipedia.org/wiki/Tru64).
    Tru64,
    /// Novell Modesto.
    Modesto,
    /// [OpenBSD](https://en.wikipedia.org/wiki/OpenBSD).
    OpenBsd,
    /// [OpenVMS](https://en.wikipedia.org/wiki/OpenVMS).
    OpenVms,
    /// [Hewlett-Packard Non-Stop Kernel](https://en.wikipedia.org/wiki/NonStop_(server_computers)).
    Nsk,
    /// [AROS](https://en.wikipedia.org/wiki/AROS_Research_Operating_System).
    Aros,
    /// FenixOS.
    FenixOs,
    /// [Nuxi CloudABI](https://en.wikipedia.org/wiki/CloudABI).
    CloudAbi,
    /// [Stratus Technologies OpenVOS](https://en.wikipedia.org/wiki/Stratus_VOS).
    OpenVos,
    /// ARM EABI.
    ArmAeabi,
    /// ARM.
    Arm,
    /// Standalone (embedded) application.
    Standalone,
}

impl OsAbi {
    /// The on-disk discriminant of this variant.
    pub open spec fn code(self) -> u8 {
        match self {
            OsAbi::SystemV => 0x00,
            OsAbi::HpUx => 0x01,
            OsAbi::NetBsd => 0x02,
            OsAbi::Gnu => 0x03,
            OsAbi::GnuHurd => 0x04,
            OsAbi::Solaris => 0x06,
            OsAbi::Aix => 0x07,
            OsAbi::Irix => 0x08,
            OsAbi::FreeBsd => 0x09,
            OsAbi::Tru64 => 0x0a,
            OsAbi::Modesto => 0x0b,
            OsAbi::OpenBsd => 0x0c,
            OsAbi::OpenVms => 0x0d,
            OsAbi::Nsk => 0x0e,
            OsAbi::Aros => 0x0f,
            OsAbi::FenixOs => 0x10,
            OsAbi::CloudAbi => 0x11,
            OsAbi::OpenVos => 0x12,
            OsAbi::ArmAeabi => 0x40,
            OsAbi::Arm => 0x61,
            OsAbi::Standalone => 0xff,
        }
    }

    /// The variant that a discriminant decodes to, if it is recognised.
    pub open spec fn from_code(v: u8) -> Option<OsAbi> {
        if v == 0x00 {
            Some(OsAbi::SystemV)
        } else if v == 0x01 {
            Some(OsAbi::HpUx)
        } else if v == 0x02 {
            Some(OsAbi::NetBsd)
        } else if v == 0x03 {
            Some(OsAbi::Gnu)
        } else if v == 0x04 {
            Some(OsAbi::GnuHurd)
        } else if v == 0x06 {
            Some(OsAbi::Solaris)
        } else if v == 0x07 {
            Some(OsAbi::Aix)
        } else if v == 0x08 {
            Some(OsAbi::Irix)
        } else if v == 0x09 {
            Some(OsAbi::FreeBsd)
        } else if v == 0x0a {
            Some(OsAbi::Tru64)
        } else if v == 0x0b {
            Some(OsAbi::Modesto)
        } else if v == 0x0c {
            Some(OsAbi::OpenBsd)
        } else if v == 0x0d {
            Some(OsAbi::OpenVms)
        } else if v == 0x0e {
            Some(OsAbi::Nsk)
        } else if v == 0x0f {
            Some(OsAbi::Aros)
        } else if v == 0x10 {
            Some(OsAbi::FenixOs)
        } else if v == 0x11 {
            Some(OsAbi::CloudAbi)
        } else if v == 0x12 {
            Some(OsAbi::OpenVos)
        } else if v == 0x40 {
            Some(OsAbi::ArmAeabi)
        } else if v == 0x61 {
            Some(OsAbi::Arm)
        } else if v == 0xff {
            Some(OsAbi::Standalone)
        } else {
            None
        }
    }

    /// Decode an `OsAbi` from its 1-byte discriminant field.
    pub fn parse(e: crate::object::endianness::Endianness, bytes: &[u8], pos: usize) -> (r: Option<(OsAbi, usize)>)
        ensures
            r matches Some((v, p)) ==> pos + 1 <= bytes@.len() && OsAbi::from_code(
                bytes@[pos as int],
            ) == Some(v) && p == pos + 1,
            r is None <==> (pos + 1 > bytes@.len() || OsAbi::from_code(bytes@[pos as int]) is None),
    {
        match read_u8(e, bytes, pos) {
            Some((value, next)) => {
                let decoded = match value {
                    0x00 => Some(OsAbi::SystemV),
                    0x01 => Some(OsAbi::HpUx),
                    0x02 => Some(OsAbi::NetBsd),
                    0x03 => Some(OsAbi::Gnu),
                    0x04 => Some(OsAbi::GnuHurd),
                    0x06 => Some(OsAbi::Solaris),
                    0x07 => Some(OsAbi::Aix),
                    0x08 => Some(OsAbi::Irix),
                    0x09 => Some(OsAbi::FreeBsd),
                    0x0a => Some(OsAbi::Tru64),
                    0x0b => Some(OsAbi::Modesto),
                    0x0c => Some(OsAbi::OpenBsd),
                    0x0d => Some(OsAbi::OpenVms),
                    0x0e => Some(OsAbi::Nsk),
                    0x0f => Some(OsAbi::Aros),
                    0x10 => Some(OsAbi::FenixOs),
                    0x11 => Some(OsAbi::CloudAbi),
                    0x12 => Some(OsAbi::OpenVos),
                    0x40 => Some(OsAbi::ArmAeabi),
                    0x61 => Some(OsAbi::Arm),
                    0xff => Some(OsAbi::Standalone),
                    _ => None,
                };
                match decoded {
                    Some(v) => Some((v, next)),
                    None => None,
                }
            },
            None => None,
        }
    }
}

/// Decoding the written discriminant of any `OsAbi` variant yields that
/// variant back.
pub proof fn lemma_os_abi_round_trip(e: crate::object::endianness::Endianness, v: OsAbi)
    ensures
        OsAbi::from_code(v.code()) == Some(v),
{
}

/// Type of the file.
#[derive(Debug, Clone, Copy, PartialEq, Eq, Structural)]
pub enum FileType {
    /// Unknown.
    Unknown,
    /// Relocatable file.
    RelocatableFile,
    /// Executable file.
    ExecutableFile,
    /// Shared object.
    SharedObject,
    /// Core file.
    CoreFile,
}

impl FileType {
    /// The on-disk discriminant of this variant.
    pub open spec fn code(self) -> u16 {
        match self {
            FileType::Unknown => 0x00,
            FileType::RelocatableFile => 0x01,
            FileType::ExecutableFile => 0x02,
            FileType::SharedObject => 0x03,
            FileType::CoreFile => 0x04,
        }
    }

    /// The variant that a discriminant decodes to, if it is recognised.
    pub open spec fn from_code(v: u16) -> Option<FileType> {
        if v == 0x00 {
            Some(FileType::Unknown)
        } else if v == 0x01 {
            Some(FileType::RelocatableFile)
        } else if v == 0x02 {
            Some(FileType::ExecutableFile)
        } else if v == 0x03 {
            Some(FileType::SharedObject)
        } else if v == 0x04 {
            Some(FileType::CoreFile)
        } else {
            None
        }
    }

    /// Decode a `FileType` from its 2-byte discriminant field.
    pub fn parse(e: crate::object::endianness::Endianness, bytes: &[u8], pos: usize) -> (r: Option<(FileType, usize)>)
        ensures
            r matches Some((v, p)) ==> pos + 2 <= bytes@.len() && FileType::from_code(
                u16_at(e, bytes@, pos as int),
            ) == Some(v) && p == pos + 2,
            r is None <==> (pos + 2 > bytes@.len() || FileType::from_code(u16_at(e, bytes@, pos as int)) is None),
    {
        match read_u16(e, bytes, pos) {
            Some((value, next)) => {
                let decoded = match value {
                    0x00 => Some(FileType::Unknown),
                    0x01 => Some(FileType::RelocatableFile),
                    0x02 => Some(FileType::ExecutableFile),
                    0x03 => Some(FileType::SharedObject),
                    0x04 => Some(FileType::CoreFile),
                    _ => None,
                };
                match decoded {
                    Some(v) => Some((v, next)),
                    None => None,
                }
            },
            None => None,
        }
    }
}

/// Decoding the written discriminant of any `FileType` variant yields that
/// variant back.
pub proof fn lemma_file_type_round_trip(e: crate::object::endianness::Endianness, v: FileType)
    ensures
        FileType::from_code(u16_at(e, u16_bytes(e, v.code()), 0)) == Some(v),
{
    crate::object::endianness::lemma_u16_round_trip(e, v.code());
}

/// Architecture.
#[derive(Debug, Clone, Copy, PartialEq, Eq, Structural)]
pub enum Machine {
    /// No specific instruction set.
    Unspecified,
    /// AT&T WE 32100.
    Att32,
    /// SPARC.
    Sparc,
    /// x86.
    X86,
    /// Motorola 68000 (M68k).
    Motorola68k,
    /// Motorola 88000 (M88k).
    Motorola88k,
    /// Intel MCU.
    IntelMcu,
    /// Intel 80860.
    Intel860,
    /// MIPS.
    Mips,
    /// IBM System/370.
    IbmS370,
    /// MIPS RS3000 Little-endian.
    MipsRs3Le,
    /// Hewlett-Packard PA-RISC.
    HpPaRisc,
    /// Fujitsu VPP500.
    FujitsuVpp500,
    /// Sun's “v8plus”.
    Sparc32Plus,
    /// Intel 80960.
    Intel960,
    /// PowerPC.
    PowerPc,
    /// PowerPC (64-bit).
    PowerPc64,
    /// S390, including S390x.
    IbmS390,
    /// IBM SPU/SPC.
    IbmSpu,
    /// NEC V800.
    NecV800,
    /// Fujitsu FR20.
    FujitsuFr20,
    /// TRW RH-32.
    TrwRh32,
    /// Motorola RCE.
    MotorolaRce,
    /// Arm (up to Armv7/AArch32).
    Arm,
    /// Digital Alpha.
    DigitalAlpha,
    /// SuperH.
    HitachiSuperH,
    /// SPARC Version 9.
    SparcV9,
    /// Siemens TriCore embedded processor.
    SiemensTricore,
    /// Argonaut RISC Core.
    ArgonautRiscCore,
    /// Hitachi H8/300.
    HitachiH8300,
    /// Hitachi H8/300H.
    HitachiH8_300H,
    /// Hitachi H8S.
    HitachiH8S,
    /// Hitachi H8/500.
    HitachiH8_500,
    /// IA-64.
    IntelA64,
    /// Stanford MIPS-X.
    MipsX,
    /// Motorola ColdFire.
    MotorolaColdfire,
    /// Motorola M68HC12.
    MotorolaM68Hc12,
    /// Fujitsu MMA Multimedia Accelerator.
    FujitsuMma,
    /// Siemens PCP.
    SiemensPcp,
    /// Sony nCPU embedded RISC processor.
    SonuNcpu,
    /// Denso NDR1 microprocessor.
    DensoNdr1,
    /// Motorola Star*Core processor.
    MotorolaStarCore,
    /// Toyota ME16 processor.
    ToyotaMe16,
    /// STMicroelectronics ST100 processor.
    St100,
    /// Advanced Logic Corp. TinyJ embedded processor family.
    TinyJ,
    /// AMD x86-64.
    X86_64,
    /// Sony DSP Processor.
    SonyDSP,
    /// Digital Equipment Corp. PDP-10.
    Pdp10,
    /// Digital Equipment Corp. PDP-11.
    Pdp11,
    /// Siemens FX66 microcontroller.
    SiemensFx66,
    /// STMicroelectronics ST9+ 8/16 bit microcontroller.
    St9Plus,
    /// STMicroelectronics ST7 8-bit microcontroller.
    St7,
    /// Motorola MC68HC16 Microcontroller.
    Motorola68Hc16,
    /// Motorola MC68HC11 Microcontroller.
    Motorola68Hc11,
    /// Motorola MC68HC08 Microcontroller.
    Motorola68Hc08,
    /// Motorola MC68HC05 Microcontroller.
    Motorola68Hc05,
    /// Silicon Graphics SVx.
    Svx,
    /// STMicroelectronics ST19 8-bit microcontroller.
    St19,
    /// Digital VAX.
    Vax,
    /// Axis Communications 32-bit embedded processor.
    Cris,
    /// Infineon Technologies 32-bit embedded processor.
    Javelin,
    /// Element 14 64-bit DSP Processor.
    FirePath,
    /// LSI Logic 16-bit DSP Processor.
    Zsp,
    /// TMS320C6000 Family.
    TiC6000,
    /// MCST Elbrus e2k.
    McstElbrus,
    /// Arm 64-bits (Armv8/AArch64).
    Aarch64,
    /// RISC-V.
    RiscV,
    /// Berkeley Packet Filter.
    Bpf,
}

impl Machine {
    /// The on-disk discriminant of this variant.
    pub open spec fn code(self) -> u16 {
        match self {
            Machine::Unspecified => 0x00,
            Machine::Att32 => 0x01,
            Machine::Sparc => 0x02,
            Machine::X86 => 0x03,
            Machine::Motorola68k => 0x04,
            Machine::Motorola88k => 0x05,
            Machine::IntelMcu => 0x06,
            Machine::Intel860 => 0x07,
            Machine::Mips => 0x08,
            Machine::IbmS370 => 0x09,
            Machine::MipsRs3Le => 0x0a,
            Machine::HpPaRisc => 0x0e,
            Machine::FujitsuVpp500 => 0x11,
            Machine::Sparc32Plus => 0x12,
            Machine::Intel960 => 0x13,
            Machine::PowerPc => 0x14,
            Machine::PowerPc64 => 0x15,
            Machine::IbmS390 => 0x16,
            Machine::IbmSpu => 0x17,
            Machine::NecV800 => 0x24,
            Machine::FujitsuFr20 => 0x25,
            Machine::TrwRh32 => 0x26,
            Machine::MotorolaRce => 0x27,
            Machine::Arm => 0x28,
            Machine::DigitalAlpha => 0x29,
            Machine::HitachiSuperH => 0x2a,
            Machine::SparcV9 => 0x2b,
            Machine::SiemensTricore => 0x2c,
            Machine::ArgonautRiscCore => 0x2d,
            Machine::HitachiH8300 => 0x2e,
            Machine::HitachiH8_300H => 0x2f,
            Machine::HitachiH8S => 0x30,
            Machine::HitachiH8_500 => 0x31,
            Machine::IntelA64 => 0x32,
            Machine::MipsX => 0x33,
            Machine::MotorolaColdfire => 0x34,
            Machine::MotorolaM68Hc12 => 0x35,
            Machine::FujitsuMma => 0x36,
            Machine::SiemensPcp => 0x37,
            Machine::SonuNcpu => 0x38,
            Machine::DensoNdr1 => 0x39,
            Machine::MotorolaStarCore => 0x3a,
            Machine::ToyotaMe16 => 0x3b,
            Machine::St100 => 0x3c,
            Machine::TinyJ => 0x3d,
            Machine::X86_64 => 0x3e,
            Machine::SonyDSP => 0x3f,
            Machine::Pdp10 => 0x40,
            Machine::Pdp11 => 0x41,
            Machine::SiemensFx66 => 0x42,
            Machine::St9Plus => 0x43,
            Machine::St7 => 0x44,
            Machine::Motorola68Hc16 => 0x45,
            Machine::Motorola68Hc11 => 0x46,
            Machine::Motorola68Hc08 => 0x47,
            Machine::Motorola68Hc05 => 0x48,
            Machine::Svx => 0x49,
            Machine::St19 => 0x4a,
            Machine::Vax => 0x4b,
            Machine::Cris => 0x4c,
            Machine::Javelin => 0x4d,
            Machine::FirePath => 0x4e,
            Machine::Zsp => 0x4f,
            Machine::TiC6000 => 0x8c,
            Machine::McstElbrus => 0xaf,
            Machine::Aarch64 => 0xb7,
            Machine::RiscV => 0xf3,
            Machine::Bpf => 0xf7,
        }
    }

    /// The variant that a discriminant decodes to, if it is recognised.
    pub open spec fn from_code(v: u16) -> Option<Machine> {
        if v == 0x00 {
            Some(Machine::Unspecified)
        } else if v == 0x01 {
            Some(Machine::Att32)
        } else if v == 0x02 {
            Some(Machine::Sparc)
        } else if v == 0x03 {
            Some(Machine::X86)
        } else if v == 0x04 {
            Some(Machine::Motorola68k)
        } else if v == 0x05 {
            Some(Machine::Motorola88k)
        } else if v == 0x06 {
            Some(Machine::IntelMcu)
        } else if v == 0x07 {
            Some(Machine::Intel860)
        } else if v == 0x08 {
            Some(Machine::Mips)
        } else if v == 0x09 {
            Some(Machine::IbmS370)
        } else if v == 0x0a {
            Some(Machine::MipsRs3Le)
        } else if v == 0x0e {
            Some(Machine::HpPaRisc)
        } else if v == 0x11 {
            Some(Machine::FujitsuVpp500)
        } else if v == 0x12 {
            Some(Machine::Sparc32Plus)
        } else if v == 0x13 {
            Some(Machine::Intel960)
        } else if v == 0x14 {
            Some(Machine::PowerPc)
        } else if v == 0x15 {
            Some(Machine::PowerPc64)
        } else if v == 0x16 {
            Some(Machine::IbmS390)
        } else if v == 0x17 {
            Some(Machine::IbmSpu)
        } else if v == 0x24 {
            Some(Machine::NecV800)
        } else if v == 0x25 {
            Some(Machine::FujitsuFr20)
        } else if v == 0x26 {
            Some(Machine::TrwRh32)
        } else if v == 0x27 {
            Some(Machine::MotorolaRce)
        } else if v == 0x28 {
            Some(Machine::Arm)
        } else if v == 0x29 {
            Some(Machine::DigitalAlpha)
        } else if v == 0x2a {
            Some(Machine::HitachiSuperH)
        } else if v == 0x2b {
            Some(Machine::SparcV9)
        } else if v == 0x2c {
            Some(Machine::SiemensTricore)
        } else if v == 0x2d {
            Some(Machine::ArgonautRiscCore)
        } else if v == 0x2e {
            Some(Machine::HitachiH8300)
        } else if v == 0x2f {
            Some(Machine::HitachiH8_300H)
        } else if v == 0x30 {
            Some(Machine::HitachiH8S)
        } else if v == 0x31 {
            Some(Machine::HitachiH8_500)
        } else if v == 0x32 {
            Some(Machine::IntelA64)
        } else if v == 0x33 {
            Some(Machine::MipsX)
        } else if v == 0x34 {
            Some(Machine::MotorolaColdfire)
        } else if v == 0x35 {
            Some(Machine::MotorolaM68Hc12)
        } else if v == 0x36 {
            Some(Machine::FujitsuMma)
        } else if v == 0x37 {
            Some(Machine::SiemensPcp)
        } else if v == 0x38 {
            Some(Machine::SonuNcpu)
        } else if v == 0x39 {
            Some(Machine::DensoNdr1)
        } else if v == 0x3a {
            Some(Machine::MotorolaStarCore)
        } else if v == 0x3b {
            Some(Machine::ToyotaMe16)
        } else if v == 0x3c {
            Some(Machine::St100)
        } else if v == 0x3d {
            Some(Machine::TinyJ)
        } else if v == 0x3e {
            Some(Machine::X86_64)
        } else if v == 0x3f {
            Some(Machine::SonyDSP)
        } else if v == 0x40 {
            Some(Machine::Pdp10)
        } else if v == 0x41 {
            Some(Machine::Pdp11)
        } else if v == 0x42 {
            Some(Machine::SiemensFx66)
        } else if v == 0x43 {
            Some(Machine::St9Plus)
        } else if v == 0x44 {
            Some(Machine::St7)
        } else if v == 0x45 {
            Some(Machine::Motorola68Hc16)
        } else if v == 0x46 {
            Some(Machine::Motorola68Hc11)
        } else if v == 0x47 {
            Some(Machine::Motorola68Hc08)
        } else if v == 0x48 {
            Some(Machine::Motorola68Hc05)
        } else if v == 0x49 {
            Some(Machine::Svx)
        } else if v == 0x4a {
            Some(Machine::St19)
        } else if v == 0x4b {
            Some(Machine::Vax)
        } else if v == 0x4c {
            Some(Machine::Cris)
        } else if v == 0x4d {
            Some(Machine::Javelin)
        } else if v == 0x4e {
            Some(Machine::FirePath)
        } else if v == 0x4f {
            Some(Machine::Zsp)
        } else if v == 0x8c {
            Some(Machine::TiC6000)
        } else if v == 0xaf {
            Some(Machine::McstElbrus)
        } else if v == 0xb7 {
            Some(Machine::Aarch64)
        } else if v == 0xf3 {
            Some(Machine::RiscV)
        } else if v == 0xf7 {
            Some(Machine::Bpf)
        } else {
            None
        }
    }

    /// Decode a `Machine` from its 2-byte discriminant field.
    pub fn parse(e: crate::object::endianness::Endianness, bytes: &[u8], pos: usize) -> (r: Option<(Machine, usize)>)
        ensures
            r matches Some((v, p)) ==> pos + 2 <= bytes@.len() && Machine::from_code(
                u16_at(e, bytes@, pos as int),
            ) == Some(v) && p == pos + 2,
            r is None <==> (pos + 2 > bytes@.len() || Machine::from_code(u16_at(e, bytes@, pos as int)) is None),
    {
        match read_u16(e, bytes, pos) {
            Some((value, next)) => {
                let decoded = match value {
                    0x00 => Some(Machine::Unspecified),
                    0x01 => Some(Machine::Att32),
                    0x02 => Some(Machine::Sparc),
                    0x03 => Some(Machine::X86),
                    0x04 => Some(Machine::Motorola68k),
                    0x05 => Some(Machine::Motorola88k),
                    0x06 => Some(Machine::IntelMcu),
                    0x07 => Some(Machine::Intel860),
                    0x08 => Some(Machine::Mips),
                    0x09 => Some(Machine::IbmS370),
                    0x0a => Some(Machine::MipsRs3Le),
                    0x0e => Some(Machine::HpPaRisc),
                    0x11 => Some(Machine::FujitsuVpp500),
                    0x12 => Some(Machine::Sparc32Plus),
                    0x13 => Some(Machine::Intel960),
                    0x14 => Some(Machine::PowerPc),
                    0x15 => Some(Machine::PowerPc64),
                    0x16 => Some(Machine::IbmS390),
                    0x17 => Some(Machine::IbmSpu),
                    0x24 => Some(Machine::NecV800),
                    0x25 => Some(Machine::FujitsuFr20),
                    0x26 => Some(Machine::TrwRh32),
                    0x27 => Some(Machine::MotorolaRce),
                    0x28 => Some(Machine::Arm),
                    0x29 => Some(Machine::DigitalAlpha),
                    0x2a => Some(Machine::HitachiSuperH),
                    0x2b => Some(Machine::SparcV9),
                    0x2c => Some(Machine::SiemensTricore),
                    0x2d => Some(Machine::ArgonautRiscCore),
                    0x2e => Some(Machine::HitachiH8300),
                    0x2f => Some(Machine::HitachiH8_300H),
                    0x30 => Some(Machine::HitachiH8S),
                    0x31 => Some(Machine::HitachiH8_500),
                    0x32 => Some(Machine::IntelA64),
                    0x33 => Some(Machine::MipsX),
                    0x34 => Some(Machine::MotorolaColdfire),
                    0x35 => Some(Machine::MotorolaM68Hc12),
                    0x36 => Some(Machine::FujitsuMma),
                    0x37 => Some(Machine::SiemensPcp),
                    0x38 => Some(Machine::SonuNcpu),
                    0x39 => Some(Machine::DensoNdr1),
                    0x3a => Some(Machine::MotorolaStarCore),
                    0x3b => Some(Machine::ToyotaMe16),
                    0x3c => Some(Machine::St100),
                    0x3d => Some(Machine::TinyJ),
                    0x3e => Some(Machine::X86_64),
                    0x3f => Some(Machine::SonyDSP),
                    0x40 => Some(Machine::Pdp10),
                    0x41 => Some(Machine::Pdp11),
                    0x42 => Some(Machine::SiemensFx66),
                    0x43 => Some(Machine::St9Plus),
                    0x44 => Some(Machine::St7),
                    0x45 => Some(Machine::Motorola68Hc16),
                    0x46 => Some(Machine::Motorola68Hc11),
                    0x47 => Some(Machine::Motorola68Hc08),
                    0x48 => Some(Machine::Motorola68Hc05),
                    0x49 => Some(Machine::Svx),
                    0x4a => Some(Machine::St19),
                    0x4b => Some(Machine::Vax),
                    0x4c => Some(Machine::Cris),
                    0x4d => Some(Machine::Javelin),
                    0x4e => Some(Machine::FirePath),
                    0x4f => Some(Machine::Zsp),
                    0x8c => Some(Machine::TiC6000),
                    0xaf => Some(Machine::McstElbrus),
                    0xb7 => Some(Machine::Aarch64),
                    0xf3 => Some(Machine::RiscV),
                    0xf7 => Some(Machine::Bpf),
                    _ => None,
                };
                match decoded {
                    Some(v) => Some((v, next)),
                    None => None,
                }
            },
            None => None,
        }
    }
}

/// Decoding the written discriminant of any `Machine` variant yields that
/// variant back.
pub proof fn lemma_machine_round_trip(e: crate::object::endianness::Endianness, v: Machine)
    ensures
        Machine::from_code(u16_at(e, u16_bytes(e, v.code()), 0)) == Some(v),
{
    crate::object::endianness::lemma_u16_round_trip(e, v.code());
}

impl Endianness {
    /// The byte-order strategy that this header field selects.
    pub open spec fn spec_order(self) -> crate::object::endianness::Endianness {
        match self {
            Endianness::Little => crate::object::endianness::Endianness::Little,
            Endianness::Big => crate::object::endianness::Endianness::Big,
        }
    }

    /// Turn the header field into the byte-order strategy it selects.
    pub fn order(self) -> (r: crate::object::endianness::Endianness)
        ensures
            r == self.spec_order(),
    {
        match self {
            Endianness::Little => crate::object::endianness::Endianness::Little,
            Endianness::Big => crate::object::endianness::Endianness::Big,
        }
    }
}

/// The mathematical image of a [`FileHeader`] value.
pub struct FileHeaderModel {
    /// Endianness of the object file.
    pub endianness: Endianness,
    /// Object file version.
    pub version: Version,
    /// OS ABI.
    pub os_abi: OsAbi,
    /// Object file type.
    pub file_type: FileType,
    /// Machine architecture.
    pub machine: Machine,
    /// Processor-specific flags.
    pub processor_flags: u32,
    /// Entry point virtual address.
    pub entry_point: Option<Address>,
    /// Program headers.
    pub program_headers: Seq<ProgramModel>,
    /// Section headers.
    pub section_headers: Seq<SectionModel>,
}

/// File header.
#[derive(Debug)]
pub struct FileHeader {
    /// Endianness of the object file.
    pub endianness: Endianness,
    /// Object file version.
    pub version: Version,
    /// OS ABI.
    pub os_abi: OsAbi,
    /// Object file type.
    pub file_type: FileType,
    /// Machine architecture.
    pub machine: Machine,
    /// Processor-specific flags.
    pub processor_flags: u32,
    /// Entry point virtual address.
    pub entry_point: Option<Address>,
    /// Program headers.
    pub program_headers: Vec<Program>,
    /// Section headers.
    pub section_headers: Vec<Section>,
}

impl View for FileHeader {
    type V = FileHeaderModel;

    open spec fn view(&self) -> FileHeaderModel {
        FileHeaderModel {
            endianness: self.endianness,
            version: self.version,
            os_abi: self.os_abi,
            file_type: self.file_type,
            machine: self.machine,
            processor_flags: self.processor_flags,
            entry_point: self.entry_point,
            program_headers: self.program_headers@.map_values(|p: Program| p@),
            section_headers: self.section_headers@.map_values(|s: Section| s@),
        }
    }
}

/// The byte order that the header declares; meaningful only when the
/// declared code is recognised.
pub open spec fn spec_header_endianness(b: Seq<u8>) -> Endianness {
    match Endianness::from_code(b[5]) {
        Some(x) => x,
        None => Endianness::Little,
    }
}

/// The byte-order strategy that the header selects.
pub open spec fn spec_header_order(b: Seq<u8>) -> crate::object::endianness::Endianness {
    spec_header_endianness(b).spec_order()
}

/// Whether the fixed 64-byte header of `b` is well formed: magic and class
/// match, and every enumerated field holds a recognised discriminant.
pub open spec fn spec_header_ok(b: Seq<u8>) -> bool {
    &&& b.len() >= 64
    &&& spec_magic_ok(b)
    &&& Endianness::from_code(b[5]) is Some
    &&& Version::from_code(b[6]) is Some
    &&& OsAbi::from_code(b[7]) is Some
    &&& FileType::from_code(u16_at(spec_header_order(b), b, 16)) is Some
    &&& Machine::from_code(u16_at(spec_header_order(b), b, 18)) is Some
}

/// The version field of a well-formed header.
pub open spec fn spec_header_version(b: Seq<u8>) -> Version {
    match Version::from_code(b[6]) {
        Some(x) => x,
        None => Version::Invalid,
    }
}

/// The OS ABI field of a well-formed header.
pub open spec fn spec_header_os_abi(b: Seq<u8>) -> OsAbi {
    match OsAbi::from_code(b[7]) {
        Some(x) => x,
        None => OsAbi::SystemV,
    }
}

/// The file type field of a well-formed header.
pub open spec fn spec_header_file_type(b: Seq<u8>) -> FileType {
    match FileType::from_code(u16_at(spec_header_order(b), b, 16)) {
        Some(x) => x,
        None => FileType::Unknown,
    }
}

/// The machine field of a well-formed header.
pub open spec fn spec_header_machine(b: Seq<u8>) -> Machine {
    match Machine::from_code(u16_at(spec_header_order(b), b, 18)) {
        Some(x) => x,
        None => Machine::Unspecified,
    }
}

/// Whether every program header entry of the table decodes.
pub open spec fn spec_programs_ok(
    e: crate::object::endianness::Endianness,
    b: Seq<u8>,
    off: int,
    entry: int,
    count: int,
) -> bool {
    forall|i: int|
        0 <= i < count ==> (#[trigger] spec_parse_program(e, chunk_at(b, off, entry, i), 0, b))
            is Some
}

/// The program headers that the table decodes to.
pub open spec fn spec_parsed_programs(
    e: crate::object::endianness::Endianness,
    b: Seq<u8>,
    off: int,
    entry: int,
    count: int,
) -> Seq<ProgramModel> {
    Seq::new(count as nat, |i: int| spec_parse_program(e, chunk_at(b, off, entry, i), 0, b).unwrap())
}

/// Whether every section header entry of the table decodes.
pub open spec fn spec_sections_ok(
    e: crate::object::endianness::Endianness,
    b: Seq<u8>,
    off: int,
    entry: int,
    count: int,
) -> bool {
    forall|i: int|
        0 <= i < count ==> (#[trigger] spec_parse_section(e, chunk_at(b, off, entry, i), 0, b))
            is Some
}

/// The section headers that the table decodes to.
pub open spec fn spec_parsed_sections(
    e: crate::object::endianness::Endianness,
    b: Seq<u8>,
    off: int,
    entry: int,
    count: int,
) -> Seq<SectionModel> {
    Seq::new(count as nat, |i: int| spec_parse_section(e, chunk_at(b, off, entry, i), 0, b).unwrap())
}

/// The section headers with their names resolved: when the header names a
/// valid string-table section, every section's name is looked up through
/// it; otherwise the headers are kept as they are.
pub open spec fn spec_named_sections(sections: Seq<SectionModel>, index: int) -> Seq<
    SectionModel,
> {
    if 0 < index && index < sections.len() && sections[index].section_type
        == SectionType::StringTable {
        let names = sections[index].data.bytes;
        Seq::new(
            sections.len(),
            |i: int|
                SectionModel {
                    name: string_table_lookup(names, sections[i].name_offset.0 as int),
                    ..sections[i]
                },
        )
    } else {
        sections
    }
}

/// The file header, tables and resolved section names that `b` decodes to,
/// if it decodes at all.
pub open spec fn spec_parse_file_header(b: Seq<u8>) -> Option<FileHeaderModel> {
    if spec_header_ok(b) {
        let e = spec_header_order(b);
        let ph_off = u64_at(e, b, 32);
        let sh_off = u64_at(e, b, 40);
        let ph_entry = u16_at(e, b, 54);
        let ph_num = u16_at(e, b, 56);
        let sh_entry = u16_at(e, b, 58);
        let sh_num = u16_at(e, b, 60);
        if ph_entry > 0 && ph_off > b.len() {
            None
        } else if sh_entry > 0 && sh_off > b.len() {
            None
        } else {
            let pcount = chunk_count(b.len() as int, ph_off as int, ph_entry as int, ph_num as int);
            let scount = chunk_count(b.len() as int, sh_off as int, sh_entry as int, sh_num as int);
            if !spec_programs_ok(e, b, ph_off as int, ph_entry as int, pcount) {
                None
            } else if !spec_sections_ok(e, b, sh_off as int, sh_entry as int, scount) {
                None
            } else {
                Some(
                    FileHeaderModel {
                        endianness: spec_header_endianness(b),
                        version: spec_header_version(b),
                        os_abi: spec_header_os_abi(b),
                        file_type: spec_header_file_type(b),
                        machine: spec_header_machine(b),
                        processor_flags: u32_at(e, b, 48),
                        entry_point: option_address_of_value(u64_at(e, b, 24)),
                        program_headers: spec_parsed_programs(
                            e,
                            b,
                            ph_off as int,
                            ph_entry as int,
                            pcount,
                        ),
                        section_headers: spec_named_sections(
                            spec_parsed_sections(e, b, sh_off as int, sh_entry as int, scount),
                            u16_at(e, b, 62) as int,
                        ),
                    },
                )
            }
        }
    } else {
        None
    }
}

impl FileHeader {
    /// Parse the file header and both of its tables, and resolve the
    /// section names. The returned position sits right after the 64-byte
    /// header.
    #[verifier::rlimit(100)]
    #[verifier::loop_isolation(false)]
    pub fn parse(bytes: &[u8]) -> (r: Option<(FileHeader, usize)>)
        ensures
            r matches Some((h, p)) ==> spec_parse_file_header(bytes@) == Some(h@) && p == 64,
            r is None <==> spec_parse_file_header(bytes@) is None,
    {
        let le = crate::object::endianness::Endianness::Little;
        let m0 = match read_u8(le, bytes, 0) {
            Some(v) => v.0,
            None => { return None },
        };
        let m1 = match read_u8(le, bytes, 1) {
            Some(v) => v.0,
            None => { return None },
        };
        let m2 = match read_u8(le, bytes, 2) {
            Some(v) => v.0,
            None => { return None },
        };
        let m3 = match read_u8(le, bytes, 3) {
            Some(v) => v.0,
            None => { return None },
        };
        let class = match read_u8(le, bytes, 4) {
            Some(v) => v.0,
            None => { return None },
        };
        if m0 != 0x7f || m1 != 0x45 || m2 != 0x4c || m3 != 0x46 || class != 0x02 {
            return None;
        }
        let endianness = match Endianness::parse(le, bytes, 5) {
            Some(v) => v.0,
            None => { return None },
        };
        let e = endianness.order();
        let version = match Version::parse(e, bytes, 6) {
            Some(v) => v.0,
            None => { return None },
        };
        let os_abi = match OsAbi::parse(e, bytes, 7) {
            Some(v) => v.0,
            None => { return None },
        };
        let file_type = match FileType::parse(e, bytes, 16) {
            Some(v) => v.0,
            None => { return None },
        };
        let machine = match Machine::parse(e, bytes, 18) {
            Some(v) => v.0,
            None => { return None },
        };
        let entry_point = match Address::maybe_parse(e, bytes, 24) {
            Some(v) => v.0,
            None => { return None },
        };
        let ph_off = match read_u64(e, bytes, 32) {
            Some(v) => v.0,
            None => { return None },
        };
        let sh_off = match read_u64(e, bytes, 40) {
            Some(v) => v.0,
            None => { return None },
        };
        let processor_flags = match read_u32(e, bytes, 48) {
            Some(v) => v.0,
            None => { return None },
        };
        let ph_entry = match read_u16(e, bytes, 54) {
            Some(v) => v.0,
            None => { return None },
        };
        let ph_num = match read_u16(e, bytes, 56) {
            Some(v) => v.0,
            None => { return None },
        };
        let sh_entry = match read_u16(e, bytes, 58) {
            Some(v) => v.0,
            None => { return None },
        };
        let sh_num = match read_u16(e, bytes, 60) {
            Some(v) => v.0,
            None => { return None },
        };
        let sh_index_for_section_names = match read_u16(e, bytes, 62) {
            Some(v) => v.0,
            None => { return None },
        };
        let n = bytes.len();
        proof {
            assert(spec_header_ok(bytes@));
            assert(e == spec_header_order(bytes@));
        }
        if ph_entry > 0 && ph_off > n as u64 {
            return None;
        }
        if sh_entry > 0 && sh_off > n as u64 {
            return None;
        }

        // Parse program headers.
        let p_off: usize = if ph_entry > 0 {
            ph_off as usize
        } else {
            0
        };
        let p_entry: usize = ph_entry as usize;
        let p_num: usize = ph_num as usize;
        let mut p_count: usize = 0;
        if p_entry > 0 {
            let avail = (n - p_off) / p_entry;
            p_count = if p_num < avail {
                p_num
            } else {
                avail
            };
        }
        proof {
            assert(p_count == chunk_count(n as int, p_off as int, p_entry as int, p_num as int));
        }
        let mut program_headers: Vec<Program> = Vec::new();
        let mut i: usize = 0;
        let mut start: usize = p_off;
        while i < p_count
            invariant
                n == bytes@.len(),
                p_entry == 0 ==> p_count == 0,
                p_entry > 0 ==> p_off <= n,
                0 <= i <= p_count,
                p_count == chunk_count(n as int, p_off as int, p_entry as int, p_num as int),
                start == p_off + i * p_entry,
                program_headers@.len() == i,
                forall|j: int|
                    0 <= j < i ==> (#[trigger] spec_parse_program(
                        e,
                        chunk_at(bytes@, p_off as int, p_entry as int, j),
                        0,
                        bytes@,
                    )) == Some(program_headers@[j]@),
            decreases p_count - i,
        {
            proof {
                crate::object::elf64::file::lemma_chunk_bounds(
                    n as int,
                    p_off as int,
                    p_entry as int,
                    p_num as int,
                    i as int,
                );
            }
            let chunk_end = start + p_entry;
            match Program::parse(e, bytes, &bytes[start..chunk_end], 0) {
                Some(parsed) => { program_headers.push(parsed.0) },
                None => {
                    proof {
                        assert(bytes@.subrange(start as int, chunk_end as int) =~= chunk_at(
                            bytes@,
                            p_off as int,
                            p_entry as int,
                            i as int,
                        ));
                        assert(spec_parse_program(
                            e,
                            chunk_at(bytes@, p_off as int, p_entry as int, i as int),
                            0,
                            bytes@,
                        ) is None);
                        assert(!spec_programs_ok(
                            e,
                            bytes@,
                            p_off as int,
                            p_entry as int,
                            p_count as int,
                        ));
                    }
                    return None;
                },
            }
            i = i + 1;
            start = start + p_entry;
        }

        // Parse section headers.
        let s_off: usize = if sh_entry > 0 {
            sh_off as usize
        } else {
            0
        };
        let s_entry: usize = sh_entry as usize;
        let s_num: usize = sh_num as usize;
        let mut s_count: usize = 0;
        if s_entry > 0 {
            let avail = (n - s_off) / s_entry;
            s_count = if s_num < avail {
                s_num
            } else {
                avail
            };
        }
        proof {
            assert(s_count == chunk_count(n as int, s_off as int, s_entry as int, s_num as int));
        }
        let mut section_headers: Vec<Section> = Vec::new();
        let mut i: usize = 0;
        let mut start: usize = s_off;
        while i < s_count
            invariant
                n == bytes@.len(),
                s_entry == 0 ==> s_count == 0,
                s_entry > 0 ==> s_off <= n,
                0 <= i <= s_count,
                s_count == chunk_count(n as int, s_off as int, s_entry as int, s_num as int),
                start == s_off + i * s_entry,
                section_headers@.len() == i,
                forall|j: int|
                    0 <= j < i ==> (#[trigger] spec_parse_section(
                        e,
                        chunk_at(bytes@, s_off as int, s_entry as int, j),
                        0,
                        bytes@,
                    )) == Some(section_headers@[j]@),
            decreases s_count - i,
        {
            proof {
                crate::object::elf64::file::lemma_chunk_bounds(
                    n as int,
                    s_off as int,
                    s_entry as int,
                    s_num as int,
                    i as int,
                );
            }
            let chunk_end = start + s_entry;
            match Section::parse(e, bytes, &bytes[start..chunk_end], 0) {
                Some(parsed) => { section_headers.push(parsed.0) },
                None => {
                    proof {
                        assert(bytes@.subrange(start as int, chunk_end as int) =~= chunk_at(
                            bytes@,
                            s_off as int,
                            s_entry as int,
                            i as int,
                        ));
                        assert(spec_parse_section(
                            e,
                            chunk_at(bytes@, s_off as int, s_entry as int, i as int),
                            0,
                            bytes@,
                        ) is None);
                        assert(!spec_sections_ok(
                            e,
                            bytes@,
                            s_off as int,
                            s_entry as int,
                            s_count as int,
                        ));
                    }
                    return None;
                },
            }
            i = i + 1;
            start = start + s_entry;
        }
        let ghost raw_sections = section_headers@.map_values(|s: Section| s@);

        // Resolve section names against the section that the header names.
        let index = sh_index_for_section_names as usize;
        if index > 0 && index < section_headers.len() && matches!(
            section_headers[index].section_type,
            SectionType::StringTable,
        ) {
            let names_len = section_headers[index].data.inner.len();
            let names = Data {
                inner: copy_bytes(section_headers[index].data.inner.as_slice(), 0, names_len),
                data_type: DataType::StringTable,
                endianness: parser_endianness(e),
            };
            proof {
                assert(names@.bytes =~= raw_sections[index as int].data.bytes);
            }
            let section_count = section_headers.len();
            let mut i: usize = 0;
            while i < section_count
                invariant
                    section_count == section_headers@.len(),
                    0 <= i <= section_count,
                    names@.bytes == raw_sections[index as int].data.bytes,
                    forall|j: int|
                        i <= j < section_count ==> (#[trigger] section_headers@[j])@
                            == raw_sections[j],
                    forall|j: int|
                        0 <= j < i ==> (#[trigger] section_headers@[j])@ == (SectionModel {
                            name: string_table_lookup(
                                raw_sections[index as int].data.bytes,
                                raw_sections[j].name_offset.0 as int,
                            ),
                            ..raw_sections[j]
                        }),
                decreases section_count - i,
            {
                let off = section_headers[i].name_offset.0;
                let name = if off > (usize::MAX as u64) {
                    proof {
                        assert(names@.bytes.len() <= usize::MAX);
                    }
                    None
                } else {
                    names.get_string_at_offset(off as usize)
                };
                section_headers[i].name = name;
                i = i + 1;
            }
        }
        proof {
            assert(index as int == u16_at(e, bytes@, 62) as int);
            assert(section_headers@.map_values(|s: Section| s@) =~= spec_named_sections(
                raw_sections,
                index as int,
            ));
        }
        let file_header = FileHeader {
            endianness,
            version,
            os_abi,
            file_type,
            machine,
            processor_flags,
            entry_point,
            program_headers,
            section_headers,
        };
        proof {
            let b = bytes@;
            let sp_poff = u64_at(e, b, 32) as int;
            let sp_pentry = u16_at(e, b, 54) as int;
            let sp_pcount = chunk_count(b.len() as int, sp_poff, sp_pentry, u16_at(e, b, 56) as int);
            let sp_soff = u64_at(e, b, 40) as int;
            let sp_sentry = u16_at(e, b, 58) as int;
            let sp_scount = chunk_count(b.len() as int, sp_soff, sp_sentry, u16_at(e, b, 60) as int);
            assert(sp_pcount == p_count as int);
            assert(sp_scount == s_count as int);
            assert forall|j: int| 0 <= j < sp_pcount implies file_header@.program_headers[j]
                == spec_parsed_programs(e, b, sp_poff, sp_pentry, sp_pcount)[j] by {
                assert(spec_parse_program(e, chunk_at(b, p_off as int, p_entry as int, j), 0, b)
                    == Some(program_headers@[j]@));
            };
            assert forall|j: int| 0 <= j < sp_scount implies raw_sections[j]
                == spec_parsed_sections(e, b, sp_soff, sp_sentry, sp_scount)[j] by {
                assert(spec_parse_section(e, chunk_at(b, s_off as int, s_entry as int, j), 0, b)
                    == Some(raw_sections[j]));
            };
            assert(file_header@.program_headers =~= spec_parsed_programs(
                e,
                b,
                sp_poff,
                sp_pentry,
                sp_pcount,
            ));
            assert(raw_sections =~= spec_parsed_sections(e, b, sp_soff, sp_sentry, sp_scount));
            assert(spec_programs_ok(e, b, sp_poff, sp_pentry, sp_pcount));
            assert(spec_sections_ok(e, b, sp_soff, sp_sentry, sp_scount));
            assert(spec_parse_file_header(b) == Some(file_header@));
        }
        Some((file_header, 64))
    }
}

} // verus!
