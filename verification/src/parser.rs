//! The earlier, read-only generation of the ELF64 codec.
//!
//! This layer only parses: it has no writers, resolves section names while
//! the file header is read, and leaves the section's `link` field and
//! alignment as the raw numbers found in the file. The [`object`] layer
//! supersedes it but both read the same format, so the byte-order spec
//! functions of [`object::endianness`] say what these parsers return too.
//!
//! [`object`]: crate::object
//! [`object::endianness`]: crate::object::endianness

pub mod combinators;
pub mod elf64;
pub mod endianness;
pub mod generators;
