//! Error types: low-level decode failures and the errors surfaced by the
//! sequential reader.

use vstd::prelude::*;

verus! {

/// A failure while decoding the header region out of an already-buffered
/// byte range.  Every decoder in this crate is a pure function of its input
/// bytes, so each error names exactly the condition that produced it.
#[derive(Debug, Clone, Copy, PartialEq, Eq, Structural)]
pub enum ParseError {
    /// The input ended before the structure was complete.  The payload is
    /// the total number of bytes the decoder would have needed to make
    /// progress past the field it was reading.
    Truncated(usize),
    /// The fixed magic bytes of the lead or of a section header did not
    /// match.
    BadMagic,
    /// A tag entry declared a wire type code that resolves to no known
    /// value kind.
    MalformedEntry,
    /// An entry's offset plus its computed length runs past the end of the
    /// store, or a string value ran past the store without a terminator.
    BoundsViolation,
    /// A declared entry count or store size is over the defensive limit.
    SizeLimit,
    /// Bytes that should hold text are not valid UTF-8.
    InvalidText,
}

/// File-format error codes surfaced by the reader.
#[derive(Debug, Clone, Copy, PartialEq, Eq, Structural)]
pub enum RPMFileError {
    BadMagic,
    BadHeader,
    HeaderSize,
    UnknownFiletype,
    MissingFile,
    DigestMismatch,
    UnmappedFile,
    FileSize,
    Internal,
}

/// The error type returned by the sequential reader.
#[derive(Debug, Clone, Copy, PartialEq, Eq, Structural)]
pub enum RPMError {
    /// The byte source ended before the required byte count was delivered.
    /// The payload is the number of bytes the failed step needed in all.
    Io(usize),
    /// The bytes were delivered but do not form a valid structure.
    File(RPMFileError),
    /// A reader method was invoked out of state-machine order.
    Internal,
}

impl RPMFileError {
    /// A short description of the error, in words.
    pub fn describe(&self) -> (r: &'static str)
        ensures
            r@ == spec_describe_file_error(*self),
    {
        match self {
            RPMFileError::BadMagic => "Bad RPM file magic",
            RPMFileError::BadHeader => "Bad or unreadable RPM header",
            RPMFileError::HeaderSize => "Header size too big",
            RPMFileError::UnknownFiletype => "Unknown file type",
            RPMFileError::MissingFile => "Missing file(s)",
            RPMFileError::DigestMismatch => "Digest mismatch",
            RPMFileError::UnmappedFile => "Archive file not in header",
            RPMFileError::FileSize => "File too large for archive",
            RPMFileError::Internal => "Internal error",
        }
    }
}

/// The text `describe` returns for each file error.
pub open spec fn spec_describe_file_error(e: RPMFileError) -> Seq<char> {
    match e {
        RPMFileError::BadMagic => "Bad RPM file magic"@,
        RPMFileError::BadHeader => "Bad or unreadable RPM header"@,
        RPMFileError::HeaderSize => "Header size too big"@,
        RPMFileError::UnknownFiletype => "Unknown file type"@,
        RPMFileError::MissingFile => "Missing file(s)"@,
        RPMFileError::DigestMismatch => "Digest mismatch"@,
        RPMFileError::UnmappedFile => "Archive file not in header"@,
        RPMFileError::FileSize => "File too large for archive"@,
        RPMFileError::Internal => "Internal error"@,
    }
}

impl RPMError {
    /// A short description of the error, in words.
    pub fn describe(&self) -> (r: &'static str)
        ensures
            r@ == spec_describe_error(*self),
    {
        match self {
            RPMError::Io(_) => "IO error: stream ended early",
            RPMError::File(e) => e.describe(),
            RPMError::Internal => "Internal error",
        }
    }
}

/// The text `describe` returns for each reader error.
pub open spec fn spec_describe_error(e: RPMError) -> Seq<char> {
    match e {
        RPMError::Io(_) => "IO error: stream ended early"@,
        RPMError::File(fe) => spec_describe_file_error(fe),
        RPMError::Internal => "Internal error"@,
    }
}

/// How each decode failure surfaces through the reader: short reads become
/// IO errors, magic mismatches keep their identity, the defensive size
/// limit maps to the header-size code, and every other structural fault is
/// a bad header.
pub open spec fn spec_rpm_error_of(e: ParseError) -> RPMError {
    match e {
        ParseError::Truncated(n) => RPMError::Io(n),
        ParseError::BadMagic => RPMError::File(RPMFileError::BadMagic),
        ParseError::MalformedEntry => RPMError::File(RPMFileError::BadHeader),
        ParseError::BoundsViolation => RPMError::File(RPMFileError::BadHeader),
        ParseError::SizeLimit => RPMError::File(RPMFileError::HeaderSize),
        ParseError::InvalidText => RPMError::File(RPMFileError::BadHeader),
    }
}

impl ParseError {
    /// Map a decode failure to the error the reader reports for it.
    pub fn to_rpm_error(&self) -> (r: RPMError)
        ensures
            r == spec_rpm_error_of(*self),
    {
        match self {
            ParseError::Truncated(n) => RPMError::Io(*n),
            ParseError::BadMagic => RPMError::File(RPMFileError::BadMagic),
            ParseError::MalformedEntry => RPMError::File(RPMFileError::BadHeader),
            ParseError::BoundsViolation => RPMError::File(RPMFileError::BadHeader),
            ParseError::SizeLimit => RPMError::File(RPMFileError::HeaderSize),
            ParseError::InvalidText => RPMError::File(RPMFileError::BadHeader),
        }
    }
}

} // verus!
