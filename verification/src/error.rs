//! The ways in which decoding or extraction can fail.

use vstd::prelude::*;

verus! {

/// Why a header, a node, a record, a path or a file could not be decoded.
///
/// Only `MalformedHeader` ends a whole run. Every other kind is confined to
/// the node, record, path or file it was found in.
#[derive(Debug, Clone, Copy, PartialEq, Eq, Structural)]
pub enum HfsError {
    /// The volume header or the B-tree header node is too short, carries an
    /// unknown signature, or holds a field outside its defined values.
    MalformedHeader,
    /// One B-tree node is cut short or its offset table contradicts itself.
    NodeReadFailure,
    /// A leaf record or a key ends before its layout does.
    MalformedRecord,
    /// The tag of a leaf record is none of the four catalog record types.
    UnknownRecordType,
    /// A folder or file record stands where a thread record is expected.
    UnexpectedRecordKind,
    /// An extent reaches past the end of the image.
    ExtentOutOfBounds,
    /// The extents at hand hold fewer bytes than the fork's logical size.
    IncompleteCopy,
    /// A chain of thread records is longer than the index has records.
    PathCycleDetected,
    /// The destination of an extracted file already exists.
    OutputCollision,
}

impl HfsError {
    /// A short description for reports.
    pub fn describe(&self) -> (text: &'static str)
        ensures
            text@ == self.description(),
    {
        match self {
            HfsError::MalformedHeader => "malformed header",
            HfsError::NodeReadFailure => "node read failure",
            HfsError::MalformedRecord => "malformed record",
            HfsError::UnknownRecordType => "unknown record type",
            HfsError::UnexpectedRecordKind => "unexpected record kind",
            HfsError::ExtentOutOfBounds => "extent out of bounds",
            HfsError::IncompleteCopy => "incomplete copy",
            HfsError::PathCycleDetected => "path cycle detected",
            HfsError::OutputCollision => "output collision",
        }
    }

    /// The text that `describe` returns.
    pub open spec fn description(&self) -> Seq<char> {
        match self {
            HfsError::MalformedHeader => "malformed header"@,
            HfsError::NodeReadFailure => "node read failure"@,
            HfsError::MalformedRecord => "malformed record"@,
            HfsError::UnknownRecordType => "unknown record type"@,
            HfsError::UnexpectedRecordKind => "unexpected record kind"@,
            HfsError::ExtentOutOfBounds => "extent out of bounds"@,
            HfsError::IncompleteCopy => "incomplete copy"@,
            HfsError::PathCycleDetected => "path cycle detected"@,
            HfsError::OutputCollision => "output collision"@,
        }
    }
}

} // verus!
