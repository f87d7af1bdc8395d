//! Configuration of the linker.

use vstd::prelude::*;

use crate::linker::linker::Linker;
use crate::linker::target::Triple;

verus! {

/// Configuration of the linker.
///
/// This type works like a builder for [`Linker`].
#[derive(Debug)]
pub struct Configuration {
    /// The target triple for which the linker has to link.
    pub target: Triple,
    /// All the files the linker has to link together.
    pub input_files: Vec<String>,
    /// The file that will contain the result of the linker.
    pub output_file: String,
}

impl Configuration {
    /// Create a new `Configuration`.
    pub fn new(target: Triple, input_files: Vec<String>, output_file: String) -> (r: Self)
        ensures
            r.target == target,
            r.input_files == input_files,
            r.output_file == output_file,
    {
        Self { target, input_files, output_file }
    }

    /// End the configuration step, and build a [`Linker`].
    pub fn linker(self) -> (r: Linker)
        ensures
            r.configuration == self,
    {
        Linker::with_configuration(self)
    }
}

} // verus!
