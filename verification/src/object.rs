//! Reading and writing of object file binary formats.

pub mod combinators;
pub mod elf64;
pub mod endianness;
