//! The static content of the tag descriptor registry: canonical tag
//! identifiers and the descriptor table, sorted by display name.  Several
//! rows may share one identifier: a tag can be looked up under more than
//! one name.

use vstd::prelude::*;

use crate::tag::{TagID, TagInfo, TagInfoModel, TagReturnType, TagType};

verus! {

/// Well-known canonical tag identifiers.
pub struct Tag;

impl Tag {
    pub const SIGMD5: TagID = 261;

    pub const SHA1HEADER: TagID = 269;

    pub const NAME: TagID = 1000;

    pub const VERSION: TagID = 1001;

    pub const RELEASE: TagID = 1002;

    pub const EPOCH: TagID = 1003;

    pub const SUMMARY: TagID = 1004;

    pub const DESCRIPTION: TagID = 1005;

    pub const BUILDTIME: TagID = 1006;

    pub const BUILDHOST: TagID = 1007;

    pub const SIZE: TagID = 1009;

    pub const LICENSE: TagID = 1014;

    pub const PACKAGER: TagID = 1015;

    pub const GROUP: TagID = 1016;

    pub const URL: TagID = 1020;

    pub const OS: TagID = 1021;

    pub const ARCH: TagID = 1022;

    pub const SOURCERPM: TagID = 1044;

    pub const PROVIDENAME: TagID = 1047;

    pub const REQUIRENAME: TagID = 1049;
}

/// The registry table, as a sequence of descriptor models in table order.
pub open spec fn registry() -> Seq<TagInfoModel> {
    seq![
        TagInfoModel { name: "ARCH"@, shortname: "Arch"@, id: 1022, ttype: TagType::STRING, retype: TagReturnType::Scalar, extension: false },
        TagInfoModel { name: "BUILDHOST"@, shortname: "Buildhost"@, id: 1007, ttype: TagType::STRING, retype: TagReturnType::Scalar, extension: false },
        TagInfoModel { name: "BUILDTIME"@, shortname: "Buildtime"@, id: 1006, ttype: TagType::INT32, retype: TagReturnType::Scalar, extension: false },
        TagInfoModel { name: "DESCRIPTION"@, shortname: "Description"@, id: 1005, ttype: TagType::I18NSTRING, retype: TagReturnType::Scalar, extension: false },
        TagInfoModel { name: "EPOCH"@, shortname: "Epoch"@, id: 1003, ttype: TagType::INT32, retype: TagReturnType::Scalar, extension: false },
        TagInfoModel { name: "GROUP"@, shortname: "Group"@, id: 1016, ttype: TagType::I18NSTRING, retype: TagReturnType::Scalar, extension: false },
        TagInfoModel { name: "HDRID"@, shortname: "Hdrid"@, id: 269, ttype: TagType::STRING, retype: TagReturnType::Scalar, extension: true },
        TagInfoModel { name: "LICENSE"@, shortname: "License"@, id: 1014, ttype: TagType::STRING, retype: TagReturnType::Scalar, extension: false },
        TagInfoModel { name: "NAME"@, shortname: "Name"@, id: 1000, ttype: TagType::STRING, retype: TagReturnType::Scalar, extension: false },
        TagInfoModel { name: "OS"@, shortname: "Os"@, id: 1021, ttype: TagType::STRING, retype: TagReturnType::Scalar, extension: false },
        TagInfoModel { name: "P"@, shortname: "Provides"@, id: 1047, ttype: TagType::STRING_ARRAY, retype: TagReturnType::Array, extension: false },
        TagInfoModel { name: "PACKAGER"@, shortname: "Packager"@, id: 1015, ttype: TagType::STRING, retype: TagReturnType::Scalar, extension: false },
        TagInfoModel { name: "PROVIDENAME"@, shortname: "Providename"@, id: 1047, ttype: TagType::STRING_ARRAY, retype: TagReturnType::Array, extension: false },
        TagInfoModel { name: "PROVIDES"@, shortname: "Provides"@, id: 1047, ttype: TagType::STRING_ARRAY, retype: TagReturnType::Array, extension: false },
        TagInfoModel { name: "RELEASE"@, shortname: "Release"@, id: 1002, ttype: TagType::STRING, retype: TagReturnType::Scalar, extension: false },
        TagInfoModel { name: "REQUIRENAME"@, shortname: "Requirename"@, id: 1049, ttype: TagType::STRING_ARRAY, retype: TagReturnType::Array, extension: false },
        TagInfoModel { name: "REQUIRES"@, shortname: "Requires"@, id: 1049, ttype: TagType::STRING_ARRAY, retype: TagReturnType::Array, extension: false },
        TagInfoModel { name: "SHA1HEADER"@, shortname: "Sha1header"@, id: 269, ttype: TagType::STRING, retype: TagReturnType::Scalar, extension: false },
        TagInfoModel { name: "SIGMD5"@, shortname: "Sigmd5"@, id: 261, ttype: TagType::BIN, retype: TagReturnType::Scalar, extension: false },
        TagInfoModel { name: "SIZE"@, shortname: "Size"@, id: 1009, ttype: TagType::INT32, retype: TagReturnType::Scalar, extension: false },
        TagInfoModel { name: "SOURCERPM"@, shortname: "Sourcerpm"@, id: 1044, ttype: TagType::STRING, retype: TagReturnType::Scalar, extension: false },
        TagInfoModel { name: "SUMMARY"@, shortname: "Summary"@, id: 1004, ttype: TagType::I18NSTRING, retype: TagReturnType::Scalar, extension: false },
        TagInfoModel { name: "URL"@, shortname: "Url"@, id: 1020, ttype: TagType::STRING, retype: TagReturnType::Scalar, extension: false },
        TagInfoModel { name: "V"@, shortname: "Version"@, id: 1001, ttype: TagType::STRING, retype: TagReturnType::Scalar, extension: false },
        TagInfoModel { name: "VERSION"@, shortname: "Version"@, id: 1001, ttype: TagType::STRING, retype: TagReturnType::Scalar, extension: false },
    ]
}

/// Build the registry table.  Its rows, in order, are exactly the rows of
/// `registry`.
pub fn tag_info_table() -> (t: Vec<TagInfo>)
    ensures
        t@.len() == registry().len(),
        forall|i: int| 0 <= i < t@.len() ==> #[trigger] t@[i]@ == registry()[i],
{
    let mut t: Vec<TagInfo> = Vec::new();
    t.push(TagInfo { name: "ARCH", shortname: "Arch", id: 1022, ttype: TagType::STRING, retype: TagReturnType::Scalar, extension: false });
    t.push(TagInfo { name: "BUILDHOST", shortname: "Buildhost", id: 1007, ttype: TagType::STRING, retype: TagReturnType::Scalar, extension: false });
    t.push(TagInfo { name: "BUILDTIME", shortname: "Buildtime", id: 1006, ttype: TagType::INT32, retype: TagReturnType::Scalar, extension: false });
    t.push(TagInfo { name: "DESCRIPTION", shortname: "Description", id: 1005, ttype: TagType::I18NSTRING, retype: TagReturnType::Scalar, extension: false });
    t.push(TagInfo { name: "EPOCH", shortname: "Epoch", id: 1003, ttype: TagType::INT32, retype: TagReturnType::Scalar, extension: false });
    t.push(TagInfo { name: "GROUP", shortname: "Group", id: 1016, ttype: TagType::I18NSTRING, retype: TagReturnType::Scalar, extension: false });
    t.push(TagInfo { name: "HDRID", shortname: "Hdrid", id: 269, ttype: TagType::STRING, retype: TagReturnType::Scalar, extension: true });
    t.push(TagInfo { name: "LICENSE", shortname: "License", id: 1014, ttype: TagType::STRING, retype: TagReturnType::Scalar, extension: false });
    t.push(TagInfo { name: "NAME", shortname: "Name", id: 1000, ttype: TagType::STRING, retype: TagReturnType::Scalar, extension: false });
    t.push(TagInfo { name: "OS", shortname: "Os", id: 1021, ttype: TagType::STRING, retype: TagReturnType::Scalar, extension: false });
    t.push(TagInfo { name: "P", shortname: "Provides", id: 1047, ttype: TagType::STRING_ARRAY, retype: TagReturnType::Array, extension: false });
    t.push(TagInfo { name: "PACKAGER", shortname: "Packager", id: 1015, ttype: TagType::STRING, retype: TagReturnType::Scalar, extension: false });
    t.push(TagInfo { name: "PROVIDENAME", shortname: "Providename", id: 1047, ttype: TagType::STRING_ARRAY, retype: TagReturnType::Array, extension: false });
    t.push(TagInfo { name: "PROVIDES", shortname: "Provides", id: 1047, ttype: TagType::STRING_ARRAY, retype: TagReturnType::Array, extension: false });
    t.push(TagInfo { name: "RELEASE", shortname: "Release", id: 1002, ttype: TagType::STRING, retype: TagReturnType::Scalar, extension: false });
    t.push(TagInfo { name: "REQUIRENAME", shortname: "Requirename", id: 1049, ttype: TagType::STRING_ARRAY, retype: TagReturnType::Array, extension: false });
    t.push(TagInfo { name: "REQUIRES", shortname: "Requires", id: 1049, ttype: TagType::STRING_ARRAY, retype: TagReturnType::Array, extension: false });
    t.push(TagInfo { name: "SHA1HEADER", shortname: "Sha1header", id: 269, ttype: TagType::STRING, retype: TagReturnType::Scalar, extension: false });
    t.push(TagInfo { name: "SIGMD5", shortname: "Sigmd5", id: 261, ttype: TagType::BIN, retype: TagReturnType::Scalar, extension: false });
    t.push(TagInfo { name: "SIZE", shortname: "Size", id: 1009, ttype: TagType::INT32, retype: TagReturnType::Scalar, extension: false });
    t.push(TagInfo { name: "SOURCERPM", shortname: "Sourcerpm", id: 1044, ttype: TagType::STRING, retype: TagReturnType::Scalar, extension: false });
    t.push(TagInfo { name: "SUMMARY", shortname: "Summary", id: 1004, ttype: TagType::I18NSTRING, retype: TagReturnType::Scalar, extension: false });
    t.push(TagInfo { name: "URL", shortname: "Url", id: 1020, ttype: TagType::STRING, retype: TagReturnType::Scalar, extension: false });
    t.push(TagInfo { name: "V", shortname: "Version", id: 1001, ttype: TagType::STRING, retype: TagReturnType::Scalar, extension: false });
    t.push(TagInfo { name: "VERSION", shortname: "Version", id: 1001, ttype: TagType::STRING, retype: TagReturnType::Scalar, extension: false });
    t
}

} // verus!
