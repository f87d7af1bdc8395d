//! An experimental linker for ELF64 object files.
//!
//! The crate is organised in four layers:
//!
//! - [`object`] reads and writes the ELF64 binary format bit-exactly;
//! - [`parser`] is the earlier, read-only generation of the same codec;
//! - [`linker`] decides what a link does and assembles the output image;
//! - [`scheduler`] sizes the worker pool that a host program runs the
//!   per-file work on.
//!
//! File and network input/output, the command line and the thread plumbing
//! live outside this crate; everything here is plain computation on bytes
//! and on the types below, with its behaviour stated in contracts.

pub mod linker;
pub mod object;
pub mod parser;
pub mod scheduler;
