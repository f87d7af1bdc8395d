//! The linker itself: it checks the configuration, selects the linking
//! driver for the target's binary format, and says what work a host
//! program has to carry out.

use vstd::prelude::*;

use crate::linker::configuration::Configuration;
use crate::linker::target::{BinaryFormat, Triple};

verus! {

/// Linker errors.
#[derive(Debug, PartialEq, Eq)]
pub enum Error {
    /// No object to link was given.
    NoInputFile,
    /// The target triple is understood, but its binary format is not
    /// supported.
    UnsupportedBinaryFormat(Triple),
    /// An error of the ELF64 driver.
    Elf64(crate::linker::elf64::Error),
}

impl Error {
    /// The stable code of this error kind, where one is assigned.
    pub fn code(&self) -> (r: Option<&'static str>)
        ensures
            self matches Error::NoInputFile ==> (r matches Some(c) && c@ == "E002"@),
            self matches Error::UnsupportedBinaryFormat(_) ==> (r matches Some(c) && c@
                == "E003"@),
            self matches Error::Elf64(inner) ==> (match inner {
                crate::linker::elf64::Error::ParsingFile(_) => r matches Some(c) && c@
                    == "E004"@,
                crate::linker::elf64::Error::ParsingSymbol(_) => r matches Some(c) && c@
                    == "E005"@,
                crate::linker::elf64::Error::NotRelocatable(_) => r matches Some(c) && c@
                    == "E006"@,
                _ => r is None,
            }),
    {
        match self {
            Error::NoInputFile => Some("E002"),
            Error::UnsupportedBinaryFormat(_) => Some("E003"),
            Error::Elf64(inner) => inner.code(),
        }
    }
}

/// What a host program must do to carry a link out: read each input file
/// in turn, hand its bytes to the ELF64 driver, and write the driver's
/// output to the output file.
#[derive(Debug, PartialEq, Eq)]
pub struct LinkPlan {
    /// The files to read and link, in order.
    pub input_files: Vec<String>,
    /// The file that receives the linked output.
    pub output_file: String,
    /// How many workers the host should ask the scheduler for.
    pub desired_pool_size: usize,
}

/// The linker itself.
///
/// To construct a linker, please use the [`Configuration`] type.
///
/// This type is responsible to select the appropriate linking driver and to
/// say what is to be run.
#[derive(Debug)]
pub struct Linker {
    /// The validated configuration the linker was built from.
    pub configuration: Configuration,
}

impl Linker {
    /// Wrap a finished configuration.
    pub(crate) fn with_configuration(configuration: Configuration) -> (r: Self)
        ensures
            r.configuration == configuration,
    {
        Self { configuration }
    }

    /// Decide the link: fail when no input was given or when the target's
    /// binary format has no driver, and otherwise return the plan that a
    /// host program runs.
    ///
    /// `NoInputFile` comes back exactly when the input list is empty, and
    /// `UnsupportedBinaryFormat` exactly when input was given but the
    /// target's binary format is not ELF.
    pub fn plan(self) -> (r: Result<LinkPlan, Error>)
        ensures
            r == Err::<LinkPlan, Error>(Error::NoInputFile) <==> self.configuration.input_files@.len() == 0,
            (r matches Err(e) && e matches Error::UnsupportedBinaryFormat(t) && t
                == self.configuration.target) <==> (self.configuration.input_files@.len() > 0
                && self.configuration.target.binary_format != BinaryFormat::Elf),
            (r matches Ok(p) && p.input_files == self.configuration.input_files
                && p.output_file == self.configuration.output_file && p.desired_pool_size == 4)
                <==> (self.configuration.input_files@.len() > 0
                && self.configuration.target.binary_format == BinaryFormat::Elf),
    {
        if self.configuration.input_files.len() == 0 {
            return Err(Error::NoInputFile);
        }
        match self.configuration.target.binary_format {
            BinaryFormat::Elf => Ok(
                LinkPlan {
                    input_files: self.configuration.input_files,
                    output_file: self.configuration.output_file,
                    desired_pool_size: 4,
                },
            ),
            _ => Err(Error::UnsupportedBinaryFormat(self.configuration.target)),
        }
    }
}

} // verus!
