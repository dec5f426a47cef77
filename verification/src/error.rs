//! The error kinds of the extraction pipeline.

use vstd::prelude::*;

verus! {

/// Why an extraction stopped. Every failure is terminal for the run: the
/// pipeline never returns a partial name list.
#[derive(Clone, Copy, Debug, PartialEq, Eq, Structural)]
pub enum PeError {
    /// A read ran past the end of the image bytes that were supplied.
    IoError,
    /// The MZ signature is missing, or the 64-byte DOS header is incomplete.
    InvalidDosHeader,
    /// The PE signature is missing at the offset the DOS header names.
    InvalidNtHeader,
    /// The optional-header size field is zero.
    MissingOptionalHeader,
    /// The optional-header magic is not the 64-bit variant `0x020B`.
    UnsupportedImageFormat,
    /// The export directory's RVA or size is zero: the image exports nothing.
    NoExportTable,
    /// An RVA does not fall within any declared section.
    RvaTranslationFailed,
    /// The name-table offset or the name scan exceeds the buffered
    /// export-directory bytes.
    TruncatedNameTable,
}

impl PeError {
    /// The message a front end prints for this error.
    pub open spec fn spec_message(self) -> Seq<char> {
        match self {
            PeError::IoError => "Failed to read"@,
            PeError::InvalidDosHeader => "Wrong DOS header"@,
            PeError::InvalidNtHeader => "Wrong NT header"@,
            PeError::MissingOptionalHeader => "No optional header"@,
            PeError::UnsupportedImageFormat => "PE64 magic mismatch"@,
            PeError::NoExportTable => "No exports"@,
            PeError::RvaTranslationFailed => "Can't convert RVA to FOA"@,
            PeError::TruncatedNameTable => "Truncated name table"@,
        }
    }

    /// The message for this error, as a `String`.
    pub fn message(&self) -> (r: String)
        ensures
            r@ == self.spec_message(),
    {
        match self {
            PeError::IoError => String::from_str("Failed to read"),
            PeError::InvalidDosHeader => String::from_str("Wrong DOS header"),
            PeError::InvalidNtHeader => String::from_str("Wrong NT header"),
            PeError::MissingOptionalHeader => String::from_str("No optional header"),
            PeError::UnsupportedImageFormat => String::from_str("PE64 magic mismatch"),
            PeError::NoExportTable => String::from_str("No exports"),
            PeError::RvaTranslationFailed => String::from_str("Can't convert RVA to FOA"),
            PeError::TruncatedNameTable => String::from_str("Truncated name table"),
        }
    }
}

} // verus!
