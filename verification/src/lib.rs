//! Decoder for the metadata header region of RPM package archives.
//!
//! An archive starts with a fixed 96-byte lead, followed by two
//! self-describing header sections (a signature section and a metadata
//! section).  Each section holds a table of typed, offset-addressed tag
//! entries pointing into a shared data store.  This crate decodes the lead,
//! the section framing, the entry table, and the typed values, and offers a
//! registry of known tag descriptors.

pub mod error;
pub mod header;
pub mod parser;
pub mod reader;
pub mod rpmtag;
pub mod tag;
pub mod wire;

pub use error::ParseError;
pub use error::RPMError;
pub use error::RPMFileError;
pub use header::Header;
pub use header::Lead;
pub use parser::HeaderSectionHeader;
pub use parser::TagEntry;
pub use parser::parse_lead;
pub use parser::parse_section_data;
pub use parser::parse_section_header;
pub use parser::parse_tag_entry;
pub use parser::parse_tagval;
pub use reader::Reader;
pub use reader::ReaderState;
pub use rpmtag::Tag;
pub use tag::TagID;
pub use tag::TagInfo;
pub use tag::TagReturnType;
pub use tag::TagType;
pub use tag::TagValue;
