//! The failure kinds of the export pipeline.

use vstd::prelude::*;

verus! {

/// What can go wrong while building export metadata.
#[derive(Clone, Copy, Debug, PartialEq, Eq, Structural)]
pub enum ExportError {
    /// A module or function name is empty, not ASCII, or too long for the
    /// four-byte length field of the extended record.
    InvalidIdentifier,
    /// The same function symbol was registered twice in one export table.
    DuplicateExport,
    /// An argument count does not fit the one-byte arity field of the
    /// metadata records.
    ArityOverflow,
    /// A record does not have the shape its layout prescribes, or a
    /// declared name length disagrees with the name bytes it describes.
    EncodingMismatch,
}

/// The short description each error kind carries.
pub open spec fn spec_describe(e: ExportError) -> Seq<char> {
    match e {
        ExportError::InvalidIdentifier => "invalid identifier"@,
        ExportError::DuplicateExport => "duplicate export"@,
        ExportError::ArityOverflow => "arity overflow"@,
        ExportError::EncodingMismatch => "encoding mismatch"@,
    }
}

impl ExportError {
    /// A short description of the error.
    pub fn describe(&self) -> (r: &'static str)
        ensures
            r@ == spec_describe(*self),
    {
        match self {
            ExportError::InvalidIdentifier => "invalid identifier",
            ExportError::DuplicateExport => "duplicate export",
            ExportError::ArityOverflow => "arity overflow",
            ExportError::EncodingMismatch => "encoding mismatch",
        }
    }
}

} // verus!
