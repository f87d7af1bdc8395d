//! The linking drivers/strategies to actually link object files together.

pub mod configuration;
pub mod elf64;
pub mod linker;
pub mod target;

pub use configuration::Configuration;
pub use elf64::Error as Elf64Error;
pub use linker::{Error, LinkPlan, Linker};
