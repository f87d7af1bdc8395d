//! Symbols and the iterator that decodes a symbol table.

use vstd::prelude::*;

use crate::object::combinators::copy_bytes;
use crate::object::elf64::data::{string_table_lookup, Data, DataModel, DataType};
use crate::object::elf64::section::SectionIndex;
use crate::object::elf64::Address;
use crate::object::endianness::{
    read_u64, read_u8, u16_at, u16_bytes, u32_at, u32_bytes, u64_at, u64_bytes, write_u64,
    write_u8, Endianness,
};

verus! {

/// A symbol binding.
#[derive(Debug, Clone, Copy, PartialEq, Eq, Structural)]
pub enum SymbolBinding {
    /// The symbol is not visible outside the object file.
    Local,
    /// Global symbol, visible to all object files.
    Global,
    /// Global scope, but with lower precedence than global symbols.
    Weak,
    /// Low environment-specific use.
    LowEnvironmentSpecific,
    /// High environment-specific use.
    HighEnvironmentSpecific,
    /// Low processor-specific use.
    LowProcessorSpecific,
    /// High processor-specific use.
    HighProcessorSpecific,
}

impl SymbolBinding {
    /// The nibble that this binding is encoded as.
    pub open spec fn code(self) -> u8 {
        match self {
            SymbolBinding::Local => 0x00,
            SymbolBinding::Global => 0x01,
            SymbolBinding::Weak => 0x02,
            SymbolBinding::LowEnvironmentSpecific => 0x0a,
            SymbolBinding::HighEnvironmentSpecific => 0x0c,
            SymbolBinding::LowProcessorSpecific => 0x0d,
            SymbolBinding::HighProcessorSpecific => 0x0f,
        }
    }

    /// The binding that a nibble decodes to, if it is recognised.
    pub open spec fn from_code(v: u8) -> Option<SymbolBinding> {
        if v == 0x00 {
            Some(SymbolBinding::Local)
        } else if v == 0x01 {
            Some(SymbolBinding::Global)
        } else if v == 0x02 {
            Some(SymbolBinding::Weak)
        } else if v == 0x0a {
            Some(SymbolBinding::LowEnvironmentSpecific)
        } else if v == 0x0c {
            Some(SymbolBinding::HighEnvironmentSpecific)
        } else if v == 0x0d {
            Some(SymbolBinding::LowProcessorSpecific)
        } else if v == 0x0f {
            Some(SymbolBinding::HighProcessorSpecific)
        } else {
            None
        }
    }

    /// The nibble that this binding is encoded as.
    pub fn encode(&self) -> (v: u8)
        ensures
            v == self.code(),
    {
        match self {
            SymbolBinding::Local => 0x00,
            SymbolBinding::Global => 0x01,
            SymbolBinding::Weak => 0x02,
            SymbolBinding::LowEnvironmentSpecific => 0x0a,
            SymbolBinding::HighEnvironmentSpecific => 0x0c,
            SymbolBinding::LowProcessorSpecific => 0x0d,
            SymbolBinding::HighProcessorSpecific => 0x0f,
        }
    }

    /// Decode a binding from the high nibble of the byte at `pos`, without
    /// consuming the byte: the same byte also holds the symbol type.
    pub fn read(e: Endianness, bytes: &[u8], pos: usize) -> (r: Option<(SymbolBinding, usize)>)
        ensures
            r matches Some((b, p)) ==> pos < bytes@.len() && SymbolBinding::from_code(
                (bytes@[pos as int] >> 4) as u8,
            ) == Some(b) && p == pos,
            r is None <==> (pos >= bytes@.len() || SymbolBinding::from_code(
                (bytes@[pos as int] >> 4) as u8,
            ) is None),
    {
        match read_u8(e, bytes, pos) {
            Some((byte, _)) => {
                let decoded = match byte >> 4u8 {
                    0x00 => Some(SymbolBinding::Local),
                    0x01 => Some(SymbolBinding::Global),
                    0x02 => Some(SymbolBinding::Weak),
                    0x0a => Some(SymbolBinding::LowEnvironmentSpecific),
                    0x0c => Some(SymbolBinding::HighEnvironmentSpecific),
                    0x0d => Some(SymbolBinding::LowProcessorSpecific),
                    0x0f => Some(SymbolBinding::HighProcessorSpecific),
                    _ => None,
                };
                match decoded {
                    Some(b) => Some((b, pos)),
                    None => None,
                }
            },
            None => None,
        }
    }
}

/// Decoding the nibble that any binding is encoded as yields that binding
/// back.
pub proof fn lemma_symbol_binding_round_trip(b: SymbolBinding)
    ensures
        SymbolBinding::from_code(b.code()) == Some(b),
{
}

/// A symbol type.
#[derive(Debug, Clone, Copy, PartialEq, Eq, Structural)]
pub enum SymbolType {
    /// No type specified (e.g., an absolute symbol).
    NoType,
    /// Data object.
    Object,
    /// Function entry point.
    Function,
    /// The symbol is associated with a section.
    Section,
    /// Source file associated with the object file.
    File,
    /// Low environment-specific use.
    LowEnvironmentSpecific,
    /// High environment-specific use.
    HighEnvironmentSpecific,
    /// Low processor-specific use.
    LowProcessorSpecific,
    /// High processor-specific use.
    HighProcessorSpecific,
}

impl SymbolType {
    /// The nibble that this type is encoded as.
    pub open spec fn code(self) -> u8 {
        match self {
            SymbolType::NoType => 0x00,
            SymbolType::Object => 0x01,
            SymbolType::Function => 0x02,
            SymbolType::Section => 0x03,
            SymbolType::File => 0x04,
            SymbolType::LowEnvironmentSpecific => 0x0a,
            SymbolType::HighEnvironmentSpecific => 0x0c,
            SymbolType::LowProcessorSpecific => 0x0d,
            SymbolType::HighProcessorSpecific => 0x0f,
        }
    }

    /// The type that a nibble decodes to, if it is recognised.
    pub open spec fn from_code(v: u8) -> Option<SymbolType> {
        if v == 0x00 {
            Some(SymbolType::NoType)
        } else if v == 0x01 {
            Some(SymbolType::Object)
        } else if v == 0x02 {
            Some(SymbolType::Function)
        } else if v == 0x03 {
            Some(SymbolType::Section)
        } else if v == 0x04 {
            Some(SymbolType::File)
        } else if v == 0x0a {
            Some(SymbolType::LowEnvironmentSpecific)
        } else if v == 0x0c {
            Some(SymbolType::HighEnvironmentSpecific)
        } else if v == 0x0d {
            Some(SymbolType::LowProcessorSpecific)
        } else if v == 0x0f {
            Some(SymbolType::HighProcessorSpecific)
        } else {
            None
        }
    }

    /// The nibble that this type is encoded as.
    pub fn encode(&self) -> (v: u8)
        ensures
            v == self.code(),
    {
        match self {
            SymbolType::NoType => 0x00,
            SymbolType::Object => 0x01,
            SymbolType::Function => 0x02,
            SymbolType::Section => 0x03,
            SymbolType::File => 0x04,
            SymbolType::LowEnvironmentSpecific => 0x0a,
            SymbolType::HighEnvironmentSpecific => 0x0c,
            SymbolType::LowProcessorSpecific => 0x0d,
            SymbolType::HighProcessorSpecific => 0x0f,
        }
    }

    /// Decode a type from the low nibble of the byte at `pos`, consuming the
    /// byte that it shares with the symbol binding.
    pub fn read(e: Endianness, bytes: &[u8], pos: usize) -> (r: Option<(SymbolType, usize)>)
        ensures
            r matches Some((t, p)) ==> pos < bytes@.len() && SymbolType::from_code(
                (bytes@[pos as int] & 0x0f) as u8,
            ) == Some(t) && p == pos + 1,
            r is None <==> (pos >= bytes@.len() || SymbolType::from_code(
                (bytes@[pos as int] & 0x0f) as u8,
            ) is None),
    {
        match read_u8(e, bytes, pos) {
            Some((byte, next)) => {
                let decoded = match byte & 0x0f {
                    0x00 => Some(SymbolType::NoType),
                    0x01 => Some(SymbolType::Object),
                    0x02 => Some(SymbolType::Function),
                    0x03 => Some(SymbolType::Section),
                    0x04 => Some(SymbolType::File),
                    0x0a => Some(SymbolType::LowEnvironmentSpecific),
                    0x0c => Some(SymbolType::HighEnvironmentSpecific),
                    0x0d => Some(SymbolType::LowProcessorSpecific),
                    0x0f => Some(SymbolType::HighProcessorSpecific),
                    _ => None,
                };
                match decoded {
                    Some(t) => Some((t, next)),
                    None => None,
                }
            },
            None => None,
        }
    }
}

/// Decoding the nibble that any symbol type is encoded as yields that type
/// back.
pub proof fn lemma_symbol_type_round_trip(t: SymbolType)
    ensures
        SymbolType::from_code(t.code()) == Some(t),
{
}

/// Both halves of the packed binding-and-type byte decode back to what was
/// packed into it.
pub proof fn lemma_symbol_packed_byte(b: SymbolBinding, t: SymbolType)
    ensures
        SymbolBinding::from_code((((b.code() << 4) | (t.code() & 0x0f)) >> 4) as u8) == Some(b),
        SymbolType::from_code((((b.code() << 4) | (t.code() & 0x0f)) & 0x0f) as u8) == Some(t),
{
    let bc = b.code();
    let tc = t.code();
    assert(bc <= 0x0f && tc <= 0x0f);
    assert((((bc << 4) | (tc & 0x0f)) >> 4) == bc && (((bc << 4) | (tc & 0x0f)) & 0x0f) == tc)
        by (bit_vector)
        requires
            bc <= 0x0f && tc <= 0x0f,
    ;
}

/// The mathematical image of a [`Symbol`] value.
pub struct SymbolModel {
    /// Name of the symbol, if any.
    pub name: Option<Seq<u8>>,
    /// An offset, in bytes, to the symbol name, relative to the start of the
    /// symbol string table.
    pub name_offset: Address,
    /// The symbol type.
    pub symbol_type: SymbolType,
    /// The symbol binding attribute, i.e. its scope.
    pub binding: SymbolBinding,
    /// The section index of the section in which the symbol is defined.
    pub section_index_where_symbol_is_defined: SectionIndex,
    /// The value of the symbol.
    pub value: Address,
    /// The size of the value associated with the symbol.
    pub size: u64,
}

/// A symbol.
#[derive(Debug, PartialEq, Eq)]
pub struct Symbol {
    /// Name of the symbol, if any.
    pub name: Option<Vec<u8>>,
    /// An offset, in bytes, to the symbol name, relative to the start of the
    /// symbol string table. If this field contains zero, the symbol has no
    /// name.
    pub name_offset: Address,
    /// The symbol type.
    pub symbol_type: SymbolType,
    /// The symbol binding attribute, i.e. its scope.
    pub binding: SymbolBinding,
    /// The section index of the section in which the symbol is "defined".
    pub section_index_where_symbol_is_defined: SectionIndex,
    /// The value of the symbol. This may be an absolute value or a
    /// relocatable address.
    pub value: Address,
    /// The size of the value associated with the symbol. If a symbol does
    /// not have an associated size, or the size is unknown, this field
    /// contains zero.
    pub size: u64,
}

impl View for Symbol {
    type V = SymbolModel;

    open spec fn view(&self) -> SymbolModel {
        SymbolModel {
            name: match self.name {
                Some(ref n) => Some(n@),
                None => None,
            },
            name_offset: self.name_offset,
            symbol_type: self.symbol_type,
            binding: self.binding,
            section_index_where_symbol_is_defined: self.section_index_where_symbol_is_defined,
            value: self.value,
            size: self.size,
        }
    }
}

/// The symbol record that 24 bytes of a symbol table decode to, if they
/// decode at all. The name is left unresolved.
pub open spec fn spec_parse_symbol(e: Endianness, b: Seq<u8>, pos: int) -> Option<SymbolModel> {
    if pos + 24 <= b.len() {
        match SymbolBinding::from_code((b[pos + 4] >> 4) as u8) {
            Some(binding) => match SymbolType::from_code((b[pos + 4] & 0x0f) as u8) {
                Some(symbol_type) => {
                    if b[pos + 5] == 0 {
                        Some(
                            SymbolModel {
                                name: None,
                                name_offset: Address(u32_at(e, b, pos) as u64),
                                symbol_type,
                                binding,
                                section_index_where_symbol_is_defined: SectionIndex::of_value(
                                    u16_at(e, b, pos + 6) as u32,
                                ),
                                value: Address(u64_at(e, b, pos + 8)),
                                size: u64_at(e, b, pos + 16),
                            },
                        )
                    } else {
                        None
                    }
                },
                None => None,
            },
            None => None,
        }
    } else {
        None
    }
}

/// The 24 bytes that a symbol record is written as.
pub open spec fn spec_symbol_bytes(e: Endianness, m: SymbolModel) -> Seq<u8> {
    u32_bytes(e, m.name_offset.0 as u32) + seq![
        ((m.binding.code() << 4) | (m.symbol_type.code() & 0x0f)) as u8,
        0u8,
    ] + u16_bytes(e, m.section_index_where_symbol_is_defined.spec_value() as u16) + u64_bytes(
        e,
        m.value.0,
    ) + u64_bytes(e, m.size)
}

impl Symbol {
    /// Read one symbol record.
    pub fn read(e: Endianness, bytes: &[u8], pos: usize) -> (r: Option<(Symbol, usize)>)
        ensures
            r matches Some((s, p)) ==> spec_parse_symbol(e, bytes@, pos as int) == Some(s@) && p
                == pos + 24,
            r is None <==> spec_parse_symbol(e, bytes@, pos as int) is None,
    {
        let (name_offset, p) = match Address::read_u32(e, bytes, pos) {
            Some(v) => v,
            None => { return None },
        };
        let (binding, p) = match SymbolBinding::read(e, bytes, p) {
            Some(v) => v,
            None => { return None },
        };
        let (symbol_type, p) = match SymbolType::read(e, bytes, p) {
            Some(v) => v,
            None => { return None },
        };
        let (reserved, p) = match read_u8(e, bytes, p) {
            Some(v) => v,
            None => { return None },
        };
        if reserved != 0 {
            return None;
        }
        let (section_index, p) = match SectionIndex::read_u16(e, bytes, p) {
            Some(v) => v,
            None => { return None },
        };
        let (value, p) = match Address::read(e, bytes, p) {
            Some(v) => v,
            None => { return None },
        };
        let (size, p) = match read_u64(e, bytes, p) {
            Some(v) => v,
            None => { return None },
        };
        Some(
            (
                Symbol {
                    name: None,
                    name_offset,
                    symbol_type,
                    binding,
                    section_index_where_symbol_is_defined: section_index,
                    value,
                    size,
                },
                p,
            ),
        )
    }

    /// Write the symbol as one 24-byte record.
    pub fn write(&self, e: Endianness, out: &mut Vec<u8>)
        requires
            self.name_offset.0 <= u32::MAX,
            self.section_index_where_symbol_is_defined matches SectionIndex::Index(index)
                ==> index <= 0xffff,
        ensures
            final(out)@ =~= old(out)@ + spec_symbol_bytes(e, self@),
    {
        self.name_offset.write_u32(e, out);
        let binding: u8 = self.binding.encode();
        let symbol_type: u8 = self.symbol_type.encode();
        let binding_and_type = (binding << 4u8) | (symbol_type & 0x0f);
        write_u8(e, binding_and_type, out);
        write_u8(e, 0, out);
        self.section_index_where_symbol_is_defined.write_u16(e, out);
        self.value.write(e, out);
        write_u64(e, self.size, out);
    }
}

/// The mathematical image of a [`SymbolIterator`].
pub struct SymbolIteratorModel {
    /// The symbol table bytes being decoded.
    pub bytes: Seq<u8>,
    /// How far the iterator has come.
    pub pos: int,
    /// The byte order of the table.
    pub endianness: Endianness,
    /// The declared size of each record, if any.
    pub entity_size: Option<u64>,
    /// The string table that names are resolved from, if one was supplied.
    pub strings: Option<DataModel>,
}

/// An iterator producing [`Symbol`]s.
pub struct SymbolIterator {
    /// The symbol table bytes being decoded.
    pub input: Vec<u8>,
    /// How far the iterator has come.
    pub pos: usize,
    /// The byte order of the table.
    pub endianness: Endianness,
    /// The declared size of each record, if any.
    pub entity_size: Option<u64>,
    /// The string table that names are resolved from, if one was supplied.
    pub strings: Option<Data>,
}

impl View for SymbolIterator {
    type V = SymbolIteratorModel;

    open spec fn view(&self) -> SymbolIteratorModel {
        SymbolIteratorModel {
            bytes: self.input@,
            pos: self.pos as int,
            endianness: self.endianness,
            entity_size: self.entity_size,
            strings: match self.strings {
                Some(ref d) => Some(d@),
                None => None,
            },
        }
    }
}

/// The name that a symbol with name offset `off` resolves to against the
/// optional string table `strings`.
pub open spec fn spec_resolved_name(strings: Option<DataModel>, off: u64) -> Option<Seq<u8>> {
    match strings {
        Some(d) => {
            if d.data_type == DataType::StringTable {
                string_table_lookup(d.bytes, off as int)
            } else {
                None
            }
        },
        None => None,
    }
}

impl SymbolIterator {
    /// What the next step of the iterator returns: nothing once the input is
    /// exhausted, an error where a record does not decode or has the wrong
    /// declared size, and otherwise the symbol with its name resolved.
    pub open spec fn spec_next(self) -> Option<Result<SymbolModel, ()>> {
        if self.pos >= self.input@.len() {
            None
        } else {
            match spec_parse_symbol(self.endianness, self.input@, self.pos as int) {
                None => Some(Err(())),
                Some(m) => {
                    if self.entity_size matches Some(es) && es != 24 {
                        Some(Err(()))
                    } else {
                        Some(
                            Ok(
                                SymbolModel {
                                    name: spec_resolved_name(self@.strings, m.name_offset.0),
                                    ..m
                                },
                            ),
                        )
                    }
                },
            }
        }
    }

    /// Decode the next symbol record, if any bytes remain.
    pub fn next(&mut self) -> (r: Option<Result<Symbol, ()>>)
        ensures
            old(self).spec_next() matches Some(Ok(m)) ==> (r matches Some(Ok(s)) && s@ == m
                && final(self)@ == SymbolIteratorModel {
                pos: old(self)@.pos + 24,
                ..old(self)@
            }),
            old(self).spec_next() matches Some(Err(u)) ==> (r == Some(Err::<Symbol, ()>(u))
                && final(self)@ == old(self)@),
            old(self).spec_next() is None ==> (r is None && final(self)@ == old(self)@),
    {
        if self.pos >= self.input.len() {
            return None;
        }
        let parsed = Symbol::read(self.endianness, self.input.as_slice(), self.pos);
        match parsed {
            Some((mut symbol, next_pos)) => {
                if let Some(entity_size) = self.entity_size {
                    if entity_size != 24 {
                        return Some(Err(()));
                    }
                }
                self.pos = next_pos;
                match self.strings {
                    Some(ref strings) => {
                        // A name offset read from four bytes always fits the
                        // host word.
                        symbol.name = strings.string_at_offset(symbol.name_offset.0 as usize);
                    },
                    None => {},
                }
                Some(Ok(symbol))
            },
            None => Some(Err(())),
        }
    }
}

impl Data {
    /// Get an iterator over symbols, if and only if the data type is
    /// [`DataType::SymbolTable`].
    ///
    /// The optional `strings_section_data` argument is supposed to contain
    /// the data of the `.strtab` section, see
    /// [`File::strings_section`][crate::object::elf64::file::File::strings_section]
    /// to get it.
    pub fn symbols(&self, strings_section_data: Option<&Data>) -> (r: Option<SymbolIterator>)
        ensures
            self.data_type != DataType::SymbolTable ==> r is None,
            self.data_type == DataType::SymbolTable ==> (r matches Some(it) && it@
                == SymbolIteratorModel {
                bytes: self@.bytes,
                pos: 0,
                endianness: self@.endianness,
                entity_size: self@.entity_size,
                strings: match strings_section_data {
                    Some(d) => Some(d@),
                    None => None,
                },
            }),

    {
        if !matches!(self.data_type, DataType::SymbolTable) {
            return None;
        }
        let input = copy_bytes(self.inner.as_slice(), 0, self.inner.len());
        let strings = match strings_section_data {
            Some(d) => {
                proof {
                    assert(d.inner@.subrange(0, d.inner@.len() as int) =~= d.inner@);
                }
                Some(
                    Data {
                        inner: copy_bytes(d.inner.as_slice(), 0, d.inner.len()),
                        data_type: d.data_type,
                        endianness: d.endianness,
                        entity_size: d.entity_size,
                    },
                )
            },
            None => None,
        };
        proof {
            assert(self.inner@.subrange(0, self.inner@.len() as int) =~= self.inner@);
        }
        Some(
            SymbolIterator {
                input,
                pos: 0,
                endianness: self.endianness,
                entity_size: self.entity_size,
                strings,
            },
        )
    }
}


/// Whether a whole symbol table decodes: starting at `pos`, every 24-byte
/// record parses and the declared entry size, when present, is the record
/// size.
pub open spec fn symbol_table_ok(e: Endianness, b: Seq<u8>, es: Option<u64>, pos: int) -> bool
    decreases b.len() - pos,
    when pos >= 0
{
    if pos >= b.len() {
        true
    } else {
        match spec_parse_symbol(e, b, pos) {
            None => false,
            Some(_) => {
                if es matches Some(v) && v != 24 {
                    false
                } else {
                    symbol_table_ok(e, b, es, pos + 24)
                }
            },
        }
    }
}


/// Encoding a symbol record and decoding it again yields the original
/// record, with no name resolved.
pub proof fn lemma_symbol_round_trip(e: Endianness, m: SymbolModel)
    requires
        m.name_offset.0 <= u32::MAX,
        m.section_index_where_symbol_is_defined.wf_u16(),
    ensures
        spec_parse_symbol(e, spec_symbol_bytes(e, m), 0) == Some(SymbolModel { name: None, ..m }),
{
    let b = spec_symbol_bytes(e, m);
    crate::object::endianness::lemma_u32_round_trip(e, m.name_offset.0 as u32);
    crate::object::endianness::lemma_u16_round_trip(
        e,
        m.section_index_where_symbol_is_defined.spec_value() as u16,
    );
    crate::object::endianness::lemma_u64_round_trip(e, m.value.0);
    crate::object::endianness::lemma_u64_round_trip(e, m.size);
    lemma_symbol_packed_byte(m.binding, m.symbol_type);
    assert(b.len() == 24);
    assert(u32_at(e, b, 0) == u32_at(e, u32_bytes(e, m.name_offset.0 as u32), 0));
    assert(b[4] == ((m.binding.code() << 4) | (m.symbol_type.code() & 0x0f)) as u8);
    assert(b[5] == 0);
    assert(u16_at(e, b, 6) == u16_at(
        e,
        u16_bytes(e, m.section_index_where_symbol_is_defined.spec_value() as u16),
        0,
    ));
    assert(u64_at(e, b, 8) == u64_at(e, u64_bytes(e, m.value.0), 0));
    assert(u64_at(e, b, 16) == u64_at(e, u64_bytes(e, m.size), 0));
    crate::object::elf64::section::lemma_section_index_round_trip_u16(
        e,
        m.section_index_where_symbol_is_defined,
    );
}

} // verus!
