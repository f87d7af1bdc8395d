//! Symbols in the read-only codec generation.

use vstd::prelude::*;

use crate::object::combinators::copy_bytes;
use crate::object::endianness::{read_u64, read_u8, u16_at, u32_at, u64_at, Endianness};
use crate::parser::elf64::data::{Data, DataType};
use crate::parser::elf64::section::SectionIndex;
use crate::parser::elf64::Address;

verus! {

/// A symbol binding.
#[derive(Debug, Clone, Copy, PartialEq, Eq, Structural)]
pub enum SymbolBinding {
    /// The symbol is not visible outside the object file.
    Local,
    /// Global symbol, visible to all object files.
    Global,
    /// Global scope, but with lower precedence than global symbols.
    Weak,
    /// Low environment-specific use.
    LowEnvironmentSpecific,
    /// High environment-specific use.
    HighEnvironmentSpecific,
    /// Low processor-specific use.
    LowProcessorSpecific,
    /// High processor-specific use.
    HighProcessorSpecific,
}

impl SymbolBinding {
    /// The binding that a nibble decodes to, if it is recognised.
    pub open spec fn from_code(v: u8) -> Option<SymbolBinding> {
        if v == 0x00 {
            Some(SymbolBinding::Local)
        } else if v == 0x01 {
            Some(SymbolBinding::Global)
        } else if v == 0x02 {
            Some(SymbolBinding::Weak)
        } else if v == 0x0a {
            Some(SymbolBinding::LowEnvironmentSpecific)
        } else if v == 0x0c {
            Some(SymbolBinding::HighEnvironmentSpecific)
        } else if v == 0x0d {
            Some(SymbolBinding::LowProcessorSpecific)
        } else if v == 0x0f {
            Some(SymbolBinding::HighProcessorSpecific)
        } else {
            None
        }
    }

    /// Decode a binding from the high nibble of the byte at `pos`, without
    /// consuming the byte: the same byte also holds the symbol type.
    pub fn parse(e: Endianness, bytes: &[u8], pos: usize) -> (r: Option<(SymbolBinding, usize)>)
        ensures
            r matches Some((b, p)) ==> pos < bytes@.len() && SymbolBinding::from_code(
                (bytes@[pos as int] >> 4) as u8,
            ) == Some(b) && p == pos,
            r is None <==> (pos >= bytes@.len() || SymbolBinding::from_code(
                (bytes@[pos as int] >> 4) as u8,
            ) is None),
    {
        match read_u8(e, bytes, pos) {
            Some((byte, _)) => {
                let decoded = match byte >> 4u8 {
                    0x00 => Some(SymbolBinding::Local),
                    0x01 => Some(SymbolBinding::Global),
                    0x02 => Some(SymbolBinding::Weak),
                    0x0a => Some(SymbolBinding::LowEnvironmentSpecific),
                    0x0c => Some(SymbolBinding::HighEnvironmentSpecific),
                    0x0d => Some(SymbolBinding::LowProcessorSpecific),
                    0x0f => Some(SymbolBinding::HighProcessorSpecific),
                    _ => None,
                };
                match decoded {
                    Some(b) => Some((b, pos)),
                    None => None,
                }
            },
            None => None,
        }
    }
}

/// A symbol type.
#[derive(Debug, Clone, Copy, PartialEq, Eq, Structural)]
pub enum SymbolType {
    /// No type specified (e.g., an absolute symbol).
    NoType,
    /// Data object.
    Object,
    /// Function entry point.
    Function,
    /// The symbol is associated with a section.
    Section,
    /// Source file associated with the object file.
    File,
    /// Low environment-specific use.
    LowEnvironmentSpecific,
    /// High environment-specific use.
    HighEnvironmentSpecific,
    /// Low processor-specific use.
    LowProcessorSpecific,
    /// High processor-specific use.
    HighProcessorSpecific,
}

impl SymbolType {
    /// The type that a nibble decodes to, if it is recognised.
    pub open spec fn from_code(v: u8) -> Option<SymbolType> {
        if v == 0x00 {
            Some(SymbolType::NoType)
        } else if v == 0x01 {
            Some(SymbolType::Object)
        } else if v == 0x02 {
            Some(SymbolType::Function)
        } else if v == 0x03 {
            Some(SymbolType::Section)
        } else if v == 0x04 {
            Some(SymbolType::File)
        } else if v == 0x0a {
            Some(SymbolType::LowEnvironmentSpecific)
        } else if v == 0x0c {
            Some(SymbolType::HighEnvironmentSpecific)
        } else if v == 0x0d {
            Some(SymbolType::LowProcessorSpecific)
        } else if v == 0x0f {
            Some(SymbolType::HighProcessorSpecific)
        } else {
            None
        }
    }

    /// Decode a type from the low nibble of the byte at `pos`, consuming
    /// the byte that it shares with the symbol binding.
    pub fn parse(e: Endianness, bytes: &[u8], pos: usize) -> (r: Option<(SymbolType, usize)>)
        ensures
            r matches Some((t, p)) ==> pos < bytes@.len() && SymbolType::from_code(
                (bytes@[pos as int] & 0x0f) as u8,
            ) == Some(t) && p == pos + 1,
            r is None <==> (pos >= bytes@.len() || SymbolType::from_code(
                (bytes@[pos as int] & 0x0f) as u8,
            ) is None),
    {
        match read_u8(e, bytes, pos) {
            Some((byte, next)) => {
                let decoded = match byte & 0x0f {
                    0x00 => Some(SymbolType::NoType),
                    0x01 => Some(SymbolType::Object),
                    0x02 => Some(SymbolType::Function),
                    0x03 => Some(SymbolType::Section),
                    0x04 => Some(SymbolType::File),
                    0x0a => Some(SymbolType::LowEnvironmentSpecific),
                    0x0c => Some(SymbolType::HighEnvironmentSpecific),
                    0x0d => Some(SymbolType::LowProcessorSpecific),
                    0x0f => Some(SymbolType::HighProcessorSpecific),
                    _ => None,
                };
                match decoded {
                    Some(t) => Some((t, next)),
                    None => None,
                }
            },
            None => None,
        }
    }
}

/// The mathematical image of a [`Symbol`] value.
pub struct SymbolModel {
    /// Name of the symbol, if any.
    pub name: Option<Seq<u8>>,
    /// An offset, in bytes, to the symbol name, relative to the start of
    /// the symbol string table.
    pub name_offset: Address,
    /// The symbol type.
    pub symbol_type: SymbolType,
    /// The symbol binding attribute, i.e. its scope.
    pub binding: SymbolBinding,
    /// The section index of the section in which the symbol is defined.
    pub section_index_where_symbol_is_defined: SectionIndex,
    /// The value of the symbol.
    pub value: Address,
    /// The size of the value associated with the symbol.
    pub size: u64,
}

/// A symbol.
#[derive(Debug, PartialEq, Eq)]
pub struct Symbol {
    /// Name of the symbol, if any.
    pub name: Option<Vec<u8>>,
    /// An offset, in bytes, to the symbol name, relative to the start of
    /// the symbol string table. If this field contains zero, the symbol has
    /// no name.
    pub name_offset: Address,
    /// The symbol type.
    pub symbol_type: SymbolType,
    /// The symbol binding attribute, i.e. its scope.
    pub binding: SymbolBinding,
    /// The section index of the section in which the symbol is "defined".
    pub section_index_where_symbol_is_defined: SectionIndex,
    /// The value of the symbol. This may be an absolute value or a
    /// relocatable address.
    pub value: Address,
    /// The size of the value associated with the symbol. If a symbol does
    /// not have an associated size, or the size is unknown, this field
    /// contains zero.
    pub size: u64,
}

impl View for Symbol {
    type V = SymbolModel;

    open spec fn view(&self) -> SymbolModel {
        SymbolModel {
            name: match self.name {
                Some(ref n) => Some(n@),
                None => None,
            },
            name_offset: self.name_offset,
            symbol_type: self.symbol_type,
            binding: self.binding,
            section_index_where_symbol_is_defined: self.section_index_where_symbol_is_defined,
            value: self.value,
            size: self.size,
        }
    }
}

/// The symbol record that 24 bytes of a symbol table decode to, if they
/// decode at all. No name is resolved.
pub open spec fn spec_parse_symbol(e: Endianness, b: Seq<u8>, pos: int) -> Option<SymbolModel> {
    if pos + 24 <= b.len() {
        match SymbolBinding::from_code((b[pos + 4] >> 4) as u8) {
            Some(binding) => match SymbolType::from_code((b[pos + 4] & 0x0f) as u8) {
                Some(symbol_type) => {
                    if b[pos + 5] == 0 {
                        Some(
                            SymbolModel {
                                name: None,
                                name_offset: Address(u32_at(e, b, pos) as u64),
                                symbol_type,
                                binding,
                                section_index_where_symbol_is_defined: SectionIndex::of_value(
                                    u16_at(e, b, pos + 6),
                                ),
                                value: Address(u64_at(e, b, pos + 8)),
                                size: u64_at(e, b, pos + 16),
                            },
                        )
                    } else {
                        None
                    }
                },
                None => None,
            },
            None => None,
        }
    } else {
        None
    }
}

impl Symbol {
    /// Parse one symbol record.
    pub fn parse(e: Endianness, bytes: &[u8], pos: usize) -> (r: Option<(Symbol, usize)>)
        ensures
            r matches Some((s, p)) ==> spec_parse_symbol(e, bytes@, pos as int) == Some(s@) && p
                == pos + 24,
            r is None <==> spec_parse_symbol(e, bytes@, pos as int) is None,
    {
        let (name_offset, p) = match crate::object::endianness::read_u32(e, bytes, pos) {
            Some(v) => v,
            None => { return None },
        };
        let (binding, p) = match SymbolBinding::parse(e, bytes, p) {
            Some(v) => v,
            None => { return None },
        };
        let (symbol_type, p) = match SymbolType::parse(e, bytes, p) {
            Some(v) => v,
            None => { return None },
        };
        let (reserved, p) = match read_u8(e, bytes, p) {
            Some(v) => v,
            None => { return None },
        };
        if reserved != 0 {
            return None;
        }
        let (section_index, p) = match SectionIndex::parse(e, bytes, p) {
            Some(v) => v,
            None => { return None },
        };
        let (value, p) = match Address::parse(e, bytes, p) {
            Some(v) => v,
            None => { return None },
        };
        let (size, p) = match read_u64(e, bytes, p) {
            Some(v) => v,
            None => { return None },
        };
        Some(
            (
                Symbol {
                    name: None,
                    name_offset: Address(name_offset as u64),
                    symbol_type,
                    binding,
                    section_index_where_symbol_is_defined: section_index,
                    value,
                    size,
                },
                p,
            ),
        )
    }
}

/// The mathematical image of a [`SymbolIterator`].
pub struct SymbolIteratorModel {
    /// The symbol table bytes being decoded.
    pub bytes: Seq<u8>,
    /// How far the iterator has come.
    pub pos: int,
    /// The byte order of the table.
    pub endianness: crate::parser::endianness::Endianness,
}

/// An iterator producing [`Symbol`]s.
pub struct SymbolIterator {
    /// The symbol table bytes being decoded.
    pub input: Vec<u8>,
    /// How far the iterator has come.
    pub pos: usize,
    /// The byte order of the table.
    pub endianness: crate::parser::endianness::Endianness,
}

impl View for SymbolIterator {
    type V = SymbolIteratorModel;

    open spec fn view(&self) -> SymbolIteratorModel {
        SymbolIteratorModel {
            bytes: self.input@,
            pos: self.pos as int,
            endianness: self.endianness,
        }
    }
}

impl SymbolIterator {
    /// Start decoding a symbol table from its first byte.
    pub fn new(input: Vec<u8>, endianness: crate::parser::endianness::Endianness) -> (r: Self)
        ensures
            r@ == (SymbolIteratorModel { bytes: input@, pos: 0, endianness }),
    {
        Self { input, pos: 0, endianness }
    }

    /// What the next step of the iterator returns: nothing once the input
    /// is exhausted, an error where a record does not decode, and otherwise
    /// the record.
    pub open spec fn spec_next(self) -> Option<Result<SymbolModel, ()>> {
        if self.pos >= self.input@.len() {
            None
        } else {
            match spec_parse_symbol(self.endianness.spec_order(), self.input@, self.pos as int) {
                None => Some(Err(())),
                Some(m) => Some(Ok(m)),
            }
        }
    }

    /// Decode the next symbol record, if any bytes remain.
    pub fn next(&mut self) -> (r: Option<Result<Symbol, ()>>)
        ensures
            old(self).spec_next() matches Some(Ok(m)) ==> (r matches Some(Ok(s)) && s@ == m
                && final(self)@ == SymbolIteratorModel { pos: old(self)@.pos + 24, ..old(self)@ }),
            old(self).spec_next() matches Some(Err(u)) ==> (r == Some(Err::<Symbol, ()>(u))
                && final(self)@ == old(self)@),
            old(self).spec_next() is None ==> (r is None && final(self)@ == old(self)@),
    {
        if self.pos >= self.input.len() {
            return None;
        }
        let e = self.endianness.order();
        match Symbol::parse(e, self.input.as_slice(), self.pos) {
            Some((symbol, next_pos)) => {
                self.pos = next_pos;
                Some(Ok(symbol))
            },
            None => Some(Err(())),
        }
    }
}

impl Data {
    /// Get an iterator over symbols, if and only if the data type is
    /// [`DataType::SymbolTable`].
    pub fn iter_symbols(&self) -> (r: Option<SymbolIterator>)
        ensures
            self.data_type != DataType::SymbolTable ==> r is None,
            self.data_type == DataType::SymbolTable ==> (r matches Some(it) && it@
                == SymbolIteratorModel { bytes: self@.bytes, pos: 0, endianness: self@.endianness
            }),
    {
        if !matches!(self.data_type, DataType::SymbolTable) {
            return None;
        }
        let input = copy_bytes(self.inner.as_slice(), 0, self.inner.len());
        proof {
            assert(self.inner@.subrange(0, self.inner@.len() as int) =~= self.inner@);
        }
        Some(SymbolIterator::new(input, self.endianness))
    }
}

} // verus!
