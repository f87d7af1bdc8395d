//! The slice of a target triple that the linker reads.
//!
//! A full triple names an architecture, a vendor, an operating system and
//! more; the linker itself only ever asks one thing of it — which binary
//! container format the target uses — and quotes its text in messages. A
//! host program parses whatever triple syntax it accepts and hands the
//! linker a value of the [`Triple`] type below.

use vstd::prelude::*;

verus! {

/// The binary container format that a target triple selects.
#[derive(Debug, Clone, Copy, PartialEq, Eq, Structural)]
pub enum BinaryFormat {
    /// The Executable and Linkable Format.
    Elf,
    /// The Common Object File Format.
    Coff,
    /// The Mach object format.
    Macho,
    /// The WebAssembly binary format.
    Wasm,
    /// The extended Common Object File Format.
    Xcoff,
    /// A format this linker has no name for.
    Unknown,
}

/// A target triple, reduced to what the linker reads of it.
#[derive(Debug, Clone, PartialEq, Eq)]
pub struct Triple {
    /// The textual form of the triple, kept for messages.
    pub text: String,
    /// The binary container format that the triple selects.
    pub binary_format: BinaryFormat,
}

impl Triple {
    /// Build a triple from its text and the format it selects.
    pub fn new(text: String, binary_format: BinaryFormat) -> (r: Self)
        ensures
            r.text == text,
            r.binary_format == binary_format,
    {
        Self { text, binary_format }
    }
}

} // verus!
