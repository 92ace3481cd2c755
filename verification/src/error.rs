//! The errors of the pipeline: parse failures, uniqueness violations and
//! directory-state refusals.

use vstd::prelude::*;

verus! {

/// The abstract form of an [`Error`].
pub enum ErrorV {
    /// A structured block was identified but its required parts could not be
    /// parsed; carries the offending raw text.
    MalformedBlock { raw: Seq<char> },
    /// A configuration region failed the strict schema; carries the offending
    /// raw block text.
    ConfigParse { raw: Seq<char> },
    /// Two tests in one document share a file name (or a test is named like
    /// the shared data directory).
    DuplicateTest { name: Seq<char> },
    /// Two resources in one document share a file name.
    DuplicateResource { name: Seq<char> },
    /// The materialization root exists but is not a directory.
    NotADirectory,
    /// The materialization root holds entries and overwriting was not forced.
    ExistingEntries { count: int },
    /// The shared data directory holds an entry that is not a plain file.
    NonFileDataEntry { name: Seq<char> },
}

/// An error of the extraction or materialization pipeline.
#[derive(Debug)]
pub enum Error {
    /// A structured block was identified but its required parts could not be
    /// parsed; carries the offending raw text.
    MalformedBlock { raw: String },
    /// A configuration region failed the strict schema; carries the offending
    /// raw block text.
    ConfigParse { raw: String },
    /// Two tests in one document share a file name (or a test is named like
    /// the shared data directory).
    DuplicateTest { name: String },
    /// Two resources in one document share a file name.
    DuplicateResource { name: String },
    /// The materialization root exists but is not a directory.
    NotADirectory,
    /// The materialization root holds entries and overwriting was not forced.
    ExistingEntries { count: usize },
    /// The shared data directory holds an entry that is not a plain file.
    NonFileDataEntry { name: String },
}

impl View for Error {
    type V = ErrorV;

    open spec fn view(&self) -> ErrorV {
        match self {
            Error::MalformedBlock { raw } => ErrorV::MalformedBlock { raw: raw@ },
            Error::ConfigParse { raw } => ErrorV::ConfigParse { raw: raw@ },
            Error::DuplicateTest { name } => ErrorV::DuplicateTest { name: name@ },
            Error::DuplicateResource { name } => ErrorV::DuplicateResource { name: name@ },
            Error::NotADirectory => ErrorV::NotADirectory,
            Error::ExistingEntries { count } => ErrorV::ExistingEntries {
                count: *count as int,
            },
            Error::NonFileDataEntry { name } => ErrorV::NonFileDataEntry { name: name@ },
        }
    }
}

} // verus!
