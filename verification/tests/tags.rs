// Tests for the tag descriptor registry and the wire type resolver.

use rpm::{RPMError, RPMFileError, Tag, TagID, TagInfo, TagType};

#[test]
fn from_name() {
    assert_eq!(TagInfo::from_name("VERSION").unwrap().id, Tag::VERSION);
}

#[test]
fn from_id() {
    assert_eq!(TagInfo::from_id(1000).unwrap().id, Tag::NAME);
}

#[test]
fn from_tag() {
    assert_eq!(TagInfo::from_id(Tag::NAME as TagID).unwrap().id, Tag::NAME);
    assert_eq!(TagInfo::from_id(Tag::VERSION as TagID).unwrap().id, Tag::VERSION);
}

#[test]
fn taginfo_from_id() {
    assert_eq!(TagInfo::from_id(1000).unwrap().id, Tag::NAME);
}

#[test]
fn taginfo_from_bad_id() {
    assert_eq!(TagInfo::from_id(31337), None);
}

#[test]
fn taginfo_from_name() {
    assert_eq!(TagInfo::from_name("Name").unwrap().id, Tag::NAME);
    assert_eq!(TagInfo::from_name("arch").unwrap().id, Tag::ARCH);
}

#[test]
fn taginfo_from_bad_name() {
    assert_eq!(TagInfo::from_name("lol wut"), None);
}

#[test]
fn from_name_aliases_share_id() {
    // several display names resolve to one canonical identifier
    assert_eq!(TagInfo::from_name("provides").unwrap().id, Tag::PROVIDENAME);
    assert_eq!(TagInfo::from_name("p").unwrap().id, Tag::PROVIDENAME);
    assert_eq!(TagInfo::from_name("v").unwrap().id, Tag::VERSION);
}

#[test]
fn name_and_id_lookups_are_consistent() {
    for name in ["NAME", "Version", "arch", "provides", "P", "V", "hdrid", "sigmd5"] {
        let d = TagInfo::from_name(name).unwrap();
        let by_id = TagInfo::from_id(d.id).unwrap();
        assert_eq!(by_id.id, d.id);
    }
}

#[test]
fn tagtype_from_u32_known_codes() {
    assert_eq!(TagType::from_u32(0), Some(TagType::NULL));
    assert_eq!(TagType::from_u32(1), Some(TagType::CHAR));
    assert_eq!(TagType::from_u32(2), Some(TagType::INT8));
    assert_eq!(TagType::from_u32(3), Some(TagType::INT16));
    assert_eq!(TagType::from_u32(4), Some(TagType::INT32));
    assert_eq!(TagType::from_u32(5), Some(TagType::INT64));
    assert_eq!(TagType::from_u32(6), Some(TagType::STRING));
    assert_eq!(TagType::from_u32(7), Some(TagType::BIN));
    assert_eq!(TagType::from_u32(8), Some(TagType::STRING_ARRAY));
    assert_eq!(TagType::from_u32(9), Some(TagType::I18NSTRING));
    assert_eq!(TagType::from_u32(10), Some(TagType::BIN));
    assert_eq!(TagType::from_u32(11), Some(TagType::BIN));
}

#[test]
fn tagtype_from_u32_unknown_codes() {
    assert_eq!(TagType::from_u32(12), None);
    assert_eq!(TagType::from_u32(0xAA), None);
    assert_eq!(TagType::from_u32(u32::MAX), None);
}

#[test]
fn error_descriptions() {
    assert_eq!(RPMError::File(RPMFileError::BadMagic).describe(), "Bad RPM file magic");
    assert_eq!(RPMError::Internal.describe(), "Internal error");
    assert_eq!(RPMFileError::HeaderSize.describe(), "Header size too big");
}
