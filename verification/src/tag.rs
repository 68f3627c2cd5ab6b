//! Tag identifiers, wire types, decoded values, and the descriptor
//! registry's lookup functions.

use vstd::prelude::*;
use vstd::utf8::encode_utf8;

verus! {

/// Tags are identified on the wire by a signed 32-bit integer.
pub type TagID = i32;

/// The closed set of value kinds a tag entry can declare.
#[derive(Debug, Clone, Copy, PartialEq, Eq, Structural)]
#[allow(non_camel_case_types)]
pub enum TagType {
    NULL,
    CHAR,
    INT8,
    INT16,
    INT32,
    INT64,
    STRING,
    BIN,
    STRING_ARRAY,
    I18NSTRING,
}

/// The value kind a wire type code names, if any.  Codes 0 through 9 are
/// the original set; 10 and 11 are legacy extension codes observed in the
/// wild, both treated as binary.
pub open spec fn spec_tag_type(u: u32) -> Option<TagType> {
    match u {
        0u32 => Some(TagType::NULL),
        1u32 => Some(TagType::CHAR),
        2u32 => Some(TagType::INT8),
        3u32 => Some(TagType::INT16),
        4u32 => Some(TagType::INT32),
        5u32 => Some(TagType::INT64),
        6u32 => Some(TagType::STRING),
        7u32 => Some(TagType::BIN),
        8u32 => Some(TagType::STRING_ARRAY),
        9u32 => Some(TagType::I18NSTRING),
        10u32 => Some(TagType::BIN),
        11u32 => Some(TagType::BIN),
        _ => None,
    }
}

impl TagType {
    /// Resolve a wire type code to a value kind; unknown codes resolve to
    /// nothing.
    pub fn from_u32(u: u32) -> (r: Option<TagType>)
        ensures
            r == spec_tag_type(u),
    {
        match u {
            0u32 => Some(TagType::NULL),
            1u32 => Some(TagType::CHAR),
            2u32 => Some(TagType::INT8),
            3u32 => Some(TagType::INT16),
            4u32 => Some(TagType::INT32),
            5u32 => Some(TagType::INT64),
            6u32 => Some(TagType::STRING),
            7u32 => Some(TagType::BIN),
            8u32 => Some(TagType::STRING_ARRAY),
            9u32 => Some(TagType::I18NSTRING),
            10u32 => Some(TagType::BIN),
            11u32 => Some(TagType::BIN),
            _ => None,
        }
    }
}

/// How a tag's decoded value is classified when handed back to callers.
#[derive(Debug, Clone, Copy, PartialEq, Eq, Structural)]
pub enum TagReturnType {
    Any,
    Scalar,
    Array,
    Mapping,
}

/// A decoded tag value: a tagged union over the wire type families.  The
/// three string-flavoured wire types all decode to the `String` variant,
/// since the format lays their values out identically.
#[derive(Debug, PartialEq, Eq)]
pub enum TagValue {
    Null,
    Char(Vec<u8>),
    Int8(Vec<u8>),
    Int16(Vec<u16>),
    Int32(Vec<u32>),
    Int64(Vec<u64>),
    Binary(Vec<u8>),
    String(Vec<String>),
}

/// The mathematical shape of a decoded tag value.
pub enum ValueModel {
    Null,
    Char(Seq<u8>),
    Int8(Seq<u8>),
    Int16(Seq<u16>),
    Int32(Seq<u32>),
    Int64(Seq<u64>),
    Binary(Seq<u8>),
    String(Seq<Seq<char>>),
}

impl View for TagValue {
    type V = ValueModel;

    open spec fn view(&self) -> ValueModel {
        match self {
            TagValue::Null => ValueModel::Null,
            TagValue::Char(v) => ValueModel::Char(v@),
            TagValue::Int8(v) => ValueModel::Int8(v@),
            TagValue::Int16(v) => ValueModel::Int16(v@),
            TagValue::Int32(v) => ValueModel::Int32(v@),
            TagValue::Int64(v) => ValueModel::Int64(v@),
            TagValue::Binary(v) => ValueModel::Binary(v@),
            TagValue::String(v) => ValueModel::String(v.deep_view()),
        }
    }
}

/// One row of the tag descriptor registry.
#[derive(Debug, Clone, Copy, PartialEq, Eq)]
pub struct TagInfo {
    pub name: &'static str,
    pub shortname: &'static str,
    pub id: TagID,
    pub ttype: TagType,
    pub retype: TagReturnType,
    pub extension: bool,
}

/// The mathematical shape of a registry row.
pub struct TagInfoModel {
    pub name: Seq<char>,
    pub shortname: Seq<char>,
    pub id: int,
    pub ttype: TagType,
    pub retype: TagReturnType,
    pub extension: bool,
}

impl View for TagInfo {
    type V = TagInfoModel;

    open spec fn view(&self) -> TagInfoModel {
        TagInfoModel {
            name: self.name@,
            shortname: self.shortname@,
            id: self.id as int,
            ttype: self.ttype,
            retype: self.retype,
            extension: self.extension,
        }
    }
}

/// Compare two string slices.  Character sequences are equal exactly when
/// their UTF-8 encodings are, so the comparison runs over the bytes.
pub fn str_eq(a: &str, b: &str) -> (r: bool)
    ensures
        r == (a@ == b@),
{
    proof {
        vstd::utf8::encode_utf8_decode_utf8(a@);
        vstd::utf8::encode_utf8_decode_utf8(b@);
    }
    let ab = a.as_bytes();
    let bb = b.as_bytes();
    let n = ab.len();
    if n != bb.len() {
        return false;
    }
    let mut i: usize = 0;
    while i < n
        invariant
            0 <= i <= n,
            n == ab@.len() == bb@.len(),
            ab@ == encode_utf8(a@),
            bb@ == encode_utf8(b@),
            forall|j: int| 0 <= j < i ==> ab@[j] == bb@[j],
        decreases n - i,
    {
        if ab[i] != bb[i] {
            proof {
                assert(encode_utf8(a@)[i as int] != encode_utf8(b@)[i as int]);
            }
            return false;
        }
        i = i + 1;
    }
    proof {
        assert(ab@ =~= bb@);
    }
    true
}

/// The uppercase form of a character sequence, as `str::to_uppercase`
/// computes it.
pub uninterp spec fn upper_of(s: Seq<char>) -> Seq<char>;

/// Relies on `str::to_uppercase`: the result is a function of the
/// characters alone.
#[verifier::external_body]
fn to_uppercase(s: &str) -> (r: String)
    ensures
        r@ == upper_of(s@),
{
    s.to_uppercase()
}

/// The first descriptor at or after index `i` whose identifier is `id`.
pub open spec fn spec_lookup_id_from(t: Seq<TagInfoModel>, i: int, id: int) -> Option<TagInfoModel>
    decreases t.len() - i,
    when 0 <= i
{
    if i >= t.len() {
        None
    } else if t[i].id == id {
        Some(t[i])
    } else {
        spec_lookup_id_from(t, i + 1, id)
    }
}

/// The first descriptor at or after index `i` whose display name is `name`.
pub open spec fn spec_lookup_name_from(t: Seq<TagInfoModel>, i: int, name: Seq<char>) -> Option<
    TagInfoModel,
>
    decreases t.len() - i,
    when 0 <= i
{
    if i >= t.len() {
        None
    } else if t[i].name == name {
        Some(t[i])
    } else {
        spec_lookup_name_from(t, i + 1, name)
    }
}

/// The descriptor an identifier lookup returns: the first row of the
/// registry with that identifier.
pub open spec fn spec_lookup_by_id(id: int) -> Option<TagInfoModel> {
    spec_lookup_id_from(crate::rpmtag::registry(), 0, id)
}

/// The descriptor a name lookup returns: the first row of the registry
/// whose name is the uppercase form of the query.
pub open spec fn spec_lookup_by_name(name: Seq<char>) -> Option<TagInfoModel> {
    spec_lookup_name_from(crate::rpmtag::registry(), 0, upper_of(name))
}

impl TagInfo {
    /// Look up the descriptor for a display name; matching is
    /// case-insensitive against the canonical uppercase names.
    pub fn from_name(name: &str) -> (r: Option<TagInfo>)
        ensures
            match r {
                Some(ti) => spec_lookup_by_name(name@) == Some(ti@),
                None => spec_lookup_by_name(name@) is None,
            },
    {
        let upper = to_uppercase(name);
        let table = crate::rpmtag::tag_info_table();
        let ghost reg = crate::rpmtag::registry();
        let n = table.len();
        let mut i: usize = 0;
        while i < n
            invariant
                0 <= i <= n,
                reg == crate::rpmtag::registry(),
                n == table@.len() == reg.len(),
                forall|j: int| 0 <= j < n ==> #[trigger] table@[j]@ == reg[j],
                upper@ == upper_of(name@),
                spec_lookup_name_from(reg, 0, upper_of(name@)) == spec_lookup_name_from(
                    reg,
                    i as int,
                    upper_of(name@),
                ),
            decreases n - i,
        {
            proof {
                assert(table@[i as int]@ == reg[i as int]);
            }
            if str_eq(table[i].name, upper.as_str()) {
                proof {
                    assert(spec_lookup_name_from(reg, i as int, upper_of(name@)) == Some(
                        reg[i as int],
                    ));
                }
                return Some(table[i]);
            }
            i = i + 1;
        }
        None
    }

    /// Look up the descriptor for a numeric tag identifier.  Several rows
    /// may share one identifier; the first in table order is returned, so
    /// the name of the result need not be the canonical one.
    pub fn from_id(id: TagID) -> (r: Option<TagInfo>)
        ensures
            match r {
                Some(ti) => spec_lookup_by_id(id as int) == Some(ti@),
                None => spec_lookup_by_id(id as int) is None,
            },
    {
        let table = crate::rpmtag::tag_info_table();
        let ghost reg = crate::rpmtag::registry();
        let n = table.len();
        let mut i: usize = 0;
        while i < n
            invariant
                0 <= i <= n,
                reg == crate::rpmtag::registry(),
                n == table@.len() == reg.len(),
                forall|j: int| 0 <= j < n ==> #[trigger] table@[j]@ == reg[j],
                spec_lookup_id_from(reg, 0, id as int) == spec_lookup_id_from(
                    reg,
                    i as int,
                    id as int,
                ),
            decreases n - i,
        {
            proof {
                assert(table@[i as int]@ == reg[i as int]);
            }
            if table[i].id == id {
                proof {
                    assert(spec_lookup_id_from(reg, i as int, id as int) == Some(reg[i as int]));
                }
                return Some(table[i]);
            }
            i = i + 1;
        }
        None
    }
}

/// A found identifier lookup returns a row with that identifier.
proof fn lemma_lookup_id_found(t: Seq<TagInfoModel>, i: int, id: int)
    requires
        0 <= i,
        spec_lookup_id_from(t, i, id) is Some,
    ensures
        spec_lookup_id_from(t, i, id).unwrap().id == id,
    decreases t.len() - i,
{
    if i < t.len() && t[i].id != id {
        lemma_lookup_id_found(t, i + 1, id);
    }
}

/// An identifier that occurs in the table at or after `i` is found.
proof fn lemma_lookup_id_exists(t: Seq<TagInfoModel>, i: int, j: int)
    requires
        0 <= i <= j < t.len(),
    ensures
        spec_lookup_id_from(t, i, t[j].id) is Some,
    decreases j - i,
{
    if i < j && t[i].id != t[j].id {
        lemma_lookup_id_exists(t, i + 1, j);
    }
}

/// A found name lookup returns some row of the table.
proof fn lemma_lookup_name_found(t: Seq<TagInfoModel>, i: int, name: Seq<char>)
    requires
        0 <= i,
        spec_lookup_name_from(t, i, name) is Some,
    ensures
        exists|j: int|
            0 <= j < t.len() && t[j] == spec_lookup_name_from(t, i, name).unwrap(),
    decreases t.len() - i,
{
    if i < t.len() && t[i].name != name {
        lemma_lookup_name_found(t, i + 1, name);
    }
}

/// Name and identifier lookups are consistent: whenever a name lookup
/// returns a descriptor, looking its identifier up returns a descriptor
/// with that same identifier (not necessarily the same row, since several
/// rows may share an identifier).
pub proof fn lemma_lookup_consistent(name: Seq<char>)
    ensures
        match spec_lookup_by_name(name) {
            Some(d) => spec_lookup_by_id(d.id) is Some && spec_lookup_by_id(d.id).unwrap().id
                == d.id,
            None => true,
        },
{
    let reg = crate::rpmtag::registry();
    let u = upper_of(name);
    if spec_lookup_name_from(reg, 0, u) is Some {
        let d = spec_lookup_name_from(reg, 0, u).unwrap();
        lemma_lookup_name_found(reg, 0, u);
        let j = choose|j: int| 0 <= j < reg.len() && reg[j] == d;
        lemma_lookup_id_exists(reg, 0, j);
        lemma_lookup_id_found(reg, 0, d.id);
    }
}

} // verus!
