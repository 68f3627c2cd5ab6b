//! Decoders for the wire structures: the lead, the section framing, the
//! tag-entry table, and the typed values held in a section's data store.
//! Each decoder is a pure function of an already-buffered byte range, and
//! each is pinned to a specification function over the bytes.

use vstd::prelude::*;

use crate::error::ParseError;
use crate::header::{Header, Lead, LeadModel};
use crate::tag::{spec_tag_type, TagID, TagType, TagValue, ValueModel};
use crate::wire::{
    be16, be32, be32_signed, be64, bytes_range, has_nul, nul_pos, read_be_i32, read_be_u16,
    read_be_u32, read_be_u64, read_cstr, spec_read_cstr,
};

verus! {

/// The lead is exactly 96 bytes.
pub const LEAD_SIZE: usize = 96;

/// A section's framing header is exactly 16 bytes.
pub const SECTION_HEADER_SIZE: usize = 16;

/// Each row of the tag-entry table is exactly 16 bytes.
pub const TAG_ENTRY_SIZE: usize = 16;

/// Defensive cap on the entry count a section header may declare.
pub const MAX_ENTRY_COUNT: u32 = 0xffff;

/// Defensive cap on the store size a section header may declare.
pub const MAX_STORE_SIZE: u32 = 0x0fff_ffff;

/// The framing of one header section: entry count and store byte size.
#[derive(Debug, Clone, Copy, PartialEq, Eq, Structural)]
pub struct HeaderSectionHeader {
    pub version: u8,
    pub count: u32,
    pub size: u32,
}

/// The padding that follows the signature section: what brings the
/// declared store size up to the next multiple of eight.
pub open spec fn spec_padsize(size: u32) -> int {
    (8 - size % 8) % 8
}

impl HeaderSectionHeader {
    /// The number of bytes the section occupies after its framing header:
    /// the entry table plus the store.
    pub fn datasize(&self) -> (r: usize)
        requires
            16 * self.count + self.size <= usize::MAX,
        ensures
            r == 16 * self.count + self.size,
    {
        16 * (self.count as usize) + (self.size as usize)
    }

    /// The alignment padding that follows this section when it is the
    /// signature section, computed from the declared store size alone.
    pub fn padsize(&self) -> (r: usize)
        ensures
            r == spec_padsize(self.size),
    {
        (if self.size % 8 != 0 {
            8 - (self.size % 8)
        } else {
            0
        }) as usize
    }
}

/// One row of a section's tag-entry table.
#[derive(Debug, Clone, Copy, PartialEq, Eq, Structural)]
pub struct TagEntry {
    /// The tag identifier, read as a signed 32-bit value.
    pub tagid: TagID,
    /// The resolved value kind of the entry.
    pub tagtype: TagType,
    /// Byte offset of the value inside the store.
    pub offset: u32,
    /// Number of elements in the value.
    pub count: u32,
}

/// What decoding a 96-byte lead yields.  Field by field: the four magic
/// bytes, major and minor version bytes, the 16-bit type and architecture
/// codes, the 66-byte NUL-terminated name field, and the 16-bit OS and
/// signature-type codes; 16 reserved trailing bytes are skipped.  A
/// truncation error names the total byte count the failed field needed.
pub open spec fn spec_parse_lead(b: Seq<u8>) -> Result<LeadModel, ParseError> {
    if b.len() < 4 {
        Err(ParseError::Truncated(4))
    } else if !(b[0] == 0xed && b[1] == 0xab && b[2] == 0xee && b[3] == 0xdb) {
        Err(ParseError::BadMagic)
    } else if b.len() < 5 {
        Err(ParseError::Truncated(5))
    } else if b.len() < 6 {
        Err(ParseError::Truncated(6))
    } else if b.len() < 8 {
        Err(ParseError::Truncated(8))
    } else if b.len() < 10 {
        Err(ParseError::Truncated(10))
    } else if b.len() < 76 {
        Err(ParseError::Truncated(76))
    } else {
        match spec_read_cstr(b.subrange(10, 76), 0) {
            Err(e) => Err(e),
            Ok(name) => if b.len() < 78 {
                Err(ParseError::Truncated(78))
            } else if b.len() < 80 {
                Err(ParseError::Truncated(80))
            } else if b.len() < 96 {
                Err(ParseError::Truncated(96))
            } else {
                Ok(
                    LeadModel {
                        major: b[4],
                        minor: b[5],
                        rpm_type: be16(b, 6) as u16,
                        archnum: be16(b, 8) as u16,
                        name: name,
                        osnum: be16(b, 76) as u16,
                        signature_type: be16(b, 78) as u16,
                    },
                )
            },
        }
    }
}

/// Decode the 96-byte lead at the front of `b`.  Bytes past the lead are
/// ignored.
pub fn parse_lead(b: &[u8]) -> (r: Result<Lead, ParseError>)
    ensures
        match r {
            Ok(l) => spec_parse_lead(b@) == Ok::<LeadModel, ParseError>(l@),
            Err(e) => spec_parse_lead(b@) == Err::<LeadModel, ParseError>(e),
        },
{
    let n = b.len();
    if n < 4 {
        return Err(ParseError::Truncated(4));
    }
    if !(b[0] == 0xed && b[1] == 0xab && b[2] == 0xee && b[3] == 0xdb) {
        return Err(ParseError::BadMagic);
    }
    if n < 5 {
        return Err(ParseError::Truncated(5));
    }
    if n < 6 {
        return Err(ParseError::Truncated(6));
    }
    if n < 8 {
        return Err(ParseError::Truncated(8));
    }
    if n < 10 {
        return Err(ParseError::Truncated(10));
    }
    if n < 76 {
        return Err(ParseError::Truncated(76));
    }
    let name_field = vstd::slice::slice_subrange(b, 10, 76);
    let name = match read_cstr(name_field, 0) {
        Err(e) => {
            return Err(e);
        },
        Ok(p) => p.0,
    };
    if n < 78 {
        return Err(ParseError::Truncated(78));
    }
    if n < 80 {
        return Err(ParseError::Truncated(80));
    }
    if n < 96 {
        return Err(ParseError::Truncated(96));
    }
    Ok(
        Lead {
            major: b[4],
            minor: b[5],
            rpm_type: read_be_u16(b, 6),
            archnum: read_be_u16(b, 8),
            name: name,
            osnum: read_be_u16(b, 76),
            signature_type: read_be_u16(b, 78),
        },
    )
}

/// What decoding a 16-byte section header yields: the three magic bytes,
/// the version byte, four reserved bytes, then the entry count and the
/// store size, both 32-bit big-endian.
pub open spec fn spec_parse_section_header(b: Seq<u8>) -> Result<
    HeaderSectionHeader,
    ParseError,
> {
    if b.len() < 3 {
        Err(ParseError::Truncated(3))
    } else if !(b[0] == 0x8e && b[1] == 0xad && b[2] == 0xe8) {
        Err(ParseError::BadMagic)
    } else if b.len() < 4 {
        Err(ParseError::Truncated(4))
    } else if b.len() < 8 {
        Err(ParseError::Truncated(8))
    } else if b.len() < 12 {
        Err(ParseError::Truncated(12))
    } else if b.len() < 16 {
        Err(ParseError::Truncated(16))
    } else {
        Ok(
            HeaderSectionHeader {
                version: b[3],
                count: be32(b, 8) as u32,
                size: be32(b, 12) as u32,
            },
        )
    }
}

/// Decode the 16-byte section header at the front of `b`.  Bytes past it
/// are ignored.
pub fn parse_section_header(b: &[u8]) -> (r: Result<HeaderSectionHeader, ParseError>)
    ensures
        match r {
            Ok(h) => spec_parse_section_header(b@) == Ok::<HeaderSectionHeader, ParseError>(h),
            Err(e) => spec_parse_section_header(b@) == Err::<HeaderSectionHeader, ParseError>(e),
        },
{
    let n = b.len();
    if n < 3 {
        return Err(ParseError::Truncated(3));
    }
    if !(b[0] == 0x8e && b[1] == 0xad && b[2] == 0xe8) {
        return Err(ParseError::BadMagic);
    }
    if n < 4 {
        return Err(ParseError::Truncated(4));
    }
    if n < 8 {
        return Err(ParseError::Truncated(8));
    }
    if n < 12 {
        return Err(ParseError::Truncated(12));
    }
    if n < 16 {
        return Err(ParseError::Truncated(16));
    }
    Ok(
        HeaderSectionHeader {
            version: b[3],
            count: read_be_u32(b, 8),
            size: read_be_u32(b, 12),
        },
    )
}

/// What decoding one 16-byte tag entry yields: the signed identifier, the
/// wire type code resolved to a value kind (an unresolvable code is a
/// malformed entry), then the store offset and the element count.
pub open spec fn spec_parse_tag_entry(b: Seq<u8>) -> Result<TagEntry, ParseError> {
    if b.len() < 4 {
        Err(ParseError::Truncated(4))
    } else if b.len() < 8 {
        Err(ParseError::Truncated(8))
    } else {
        match spec_tag_type(be32(b, 4) as u32) {
            None => Err(ParseError::MalformedEntry),
            Some(t) => if b.len() < 12 {
                Err(ParseError::Truncated(12))
            } else if b.len() < 16 {
                Err(ParseError::Truncated(16))
            } else {
                Ok(
                    TagEntry {
                        tagid: be32_signed(b, 0) as i32,
                        tagtype: t,
                        offset: be32(b, 8) as u32,
                        count: be32(b, 12) as u32,
                    },
                )
            },
        }
    }
}

/// Decode the 16-byte tag entry at the front of `b`.  Bytes past it are
/// ignored.
pub fn parse_tag_entry(b: &[u8]) -> (r: Result<TagEntry, ParseError>)
    ensures
        match r {
            Ok(te) => spec_parse_tag_entry(b@) == Ok::<TagEntry, ParseError>(te),
            Err(e) => spec_parse_tag_entry(b@) == Err::<TagEntry, ParseError>(e),
        },
{
    let n = b.len();
    if n < 4 {
        return Err(ParseError::Truncated(4));
    }
    if n < 8 {
        return Err(ParseError::Truncated(8));
    }
    let t = match TagType::from_u32(read_be_u32(b, 4)) {
        None => {
            return Err(ParseError::MalformedEntry);
        },
        Some(t) => t,
    };
    if n < 12 {
        return Err(ParseError::Truncated(12));
    }
    if n < 16 {
        return Err(ParseError::Truncated(16));
    }
    Ok(
        TagEntry {
            tagid: read_be_i32(b, 0),
            tagtype: t,
            offset: read_be_u32(b, 8),
            count: read_be_u32(b, 12),
        },
    )
}

/// What decoding `count` consecutive NUL-terminated text runs starting at
/// `off` yields.
pub open spec fn spec_read_cstrs(store: Seq<u8>, off: int, count: int) -> Result<
    Seq<Seq<char>>,
    ParseError,
>
    decreases count,
    when count >= 0
{
    if count <= 0 {
        Ok(Seq::empty())
    } else {
        match spec_read_cstr(store, off) {
            Err(e) => Err(e),
            Ok(s) => match spec_read_cstrs(store, nul_pos(store, off) + 1, count - 1) {
                Err(e) => Err(e),
                Ok(rest) => Ok(seq![s] + rest),
            },
        }
    }
}

/// What resolving a value of kind `t` with `count` elements at store
/// offset `off` yields.  Fixed-width kinds need `count` times their width
/// bytes starting at `off`, inside the store; string kinds need `count`
/// terminated text runs; a range that leaves the store is a bounds
/// violation, never a read of adjacent bytes.
pub open spec fn spec_decode_value(store: Seq<u8>, t: TagType, off: int, count: int) -> Result<
    ValueModel,
    ParseError,
> {
    match t {
        TagType::NULL => if off <= store.len() {
            Ok(ValueModel::Null)
        } else {
            Err(ParseError::BoundsViolation)
        },
        TagType::CHAR => if off + count <= store.len() {
            Ok(ValueModel::Char(store.subrange(off, off + count)))
        } else {
            Err(ParseError::BoundsViolation)
        },
        TagType::INT8 => if off + count <= store.len() {
            Ok(ValueModel::Int8(store.subrange(off, off + count)))
        } else {
            Err(ParseError::BoundsViolation)
        },
        TagType::BIN => if off + count <= store.len() {
            Ok(ValueModel::Binary(store.subrange(off, off + count)))
        } else {
            Err(ParseError::BoundsViolation)
        },
        TagType::INT16 => if off + 2 * count <= store.len() {
            Ok(ValueModel::Int16(Seq::new(count as nat, |k: int| be16(store, off + 2 * k) as u16)))
        } else {
            Err(ParseError::BoundsViolation)
        },
        TagType::INT32 => if off + 4 * count <= store.len() {
            Ok(ValueModel::Int32(Seq::new(count as nat, |k: int| be32(store, off + 4 * k) as u32)))
        } else {
            Err(ParseError::BoundsViolation)
        },
        TagType::INT64 => if off + 8 * count <= store.len() {
            Ok(ValueModel::Int64(Seq::new(count as nat, |k: int| be64(store, off + 8 * k) as u64)))
        } else {
            Err(ParseError::BoundsViolation)
        },
        TagType::STRING | TagType::STRING_ARRAY | TagType::I18NSTRING => match spec_read_cstrs(
            store,
            off,
            count,
        ) {
            Err(e) => Err(e),
            Ok(ss) => Ok(ValueModel::String(ss)),
        },
    }
}

/// Read `count` consecutive NUL-terminated text runs starting at `off`.
fn read_cstrs(store: &[u8], off: usize, count: usize) -> (r: Result<Vec<String>, ParseError>)
    requires
        off <= store@.len(),
    ensures
        match r {
            Ok(v) => spec_read_cstrs(store@, off as int, count as int) == Ok::<
                Seq<Seq<char>>,
                ParseError,
            >(v.deep_view()),
            Err(e) => spec_read_cstrs(store@, off as int, count as int) == Err::<
                Seq<Seq<char>>,
                ParseError,
            >(e),
        },
{
    let sn = store.len();
    let mut v: Vec<String> = Vec::new();
    let mut cur = off;
    let mut k: usize = 0;
    proof {
        assert(v.deep_view() =~= Seq::<Seq<char>>::empty());
        match spec_read_cstrs(store@, off as int, count as int) {
            Ok(rest) => {
                assert(Seq::<Seq<char>>::empty() + rest =~= rest);
            },
            Err(_) => {},
        }
    }
    while k < count
        invariant
            0 <= k <= count,
            sn == store@.len(),
            cur <= store@.len(),
            v.deep_view().len() == k as int,
            spec_read_cstrs(store@, off as int, count as int) == (match spec_read_cstrs(
                store@,
                cur as int,
                count - k,
            ) {
                Ok(rest) => Ok::<Seq<Seq<char>>, ParseError>(v.deep_view() + rest),
                Err(e) => Err::<Seq<Seq<char>>, ParseError>(e),
            }),
        decreases count - k,
    {
        match read_cstr(store, cur) {
            Err(e) => {
                return Err(e);
            },
            Ok(p) => {
                let ghost old_v = v.deep_view();
                proof {
                    crate::wire::lemma_nul_pos(store@, cur as int);
                }
                let (s, end) = p;
                v.push(s);
                cur = end + 1;
                k = k + 1;
                proof {
                    assert(v.deep_view() =~= old_v + seq![s@]);
                    match spec_read_cstrs(store@, cur as int, count - k) {
                        Ok(rest) => {
                            assert((old_v + seq![s@]) + rest =~= old_v + (seq![s@] + rest));
                        },
                        Err(e) => {},
                    }
                }
            },
        }
    }
    proof {
        match spec_read_cstrs(store@, cur as int, 0) {
            Ok(rest) => {
                assert(v.deep_view() + rest =~= v.deep_view());
            },
            Err(_) => {},
        }
    }
    Ok(v)
}

/// Resolve one entry's value out of the store.
pub fn parse_tagval(store: &[u8], tag: &TagEntry) -> (r: Result<TagValue, ParseError>)
    ensures
        match r {
            Ok(v) => spec_decode_value(store@, tag.tagtype, tag.offset as int, tag.count as int)
                == Ok::<ValueModel, ParseError>(v@),
            Err(e) => spec_decode_value(store@, tag.tagtype, tag.offset as int, tag.count as int)
                == Err::<ValueModel, ParseError>(e),
        },
{
    let n = store.len();
    let off = tag.offset as usize;
    let count = tag.count as usize;
    match tag.tagtype {
        TagType::NULL => {
            if off <= n {
                Ok(TagValue::Null)
            } else {
                Err(ParseError::BoundsViolation)
            }
        },
        TagType::CHAR => {
            if count <= n && off <= n - count {
                Ok(TagValue::Char(bytes_range(store, off, count)))
            } else {
                Err(ParseError::BoundsViolation)
            }
        },
        TagType::INT8 => {
            if count <= n && off <= n - count {
                Ok(TagValue::Int8(bytes_range(store, off, count)))
            } else {
                Err(ParseError::BoundsViolation)
            }
        },
        TagType::BIN => {
            if count <= n && off <= n - count {
                Ok(TagValue::Binary(bytes_range(store, off, count)))
            } else {
                Err(ParseError::BoundsViolation)
            }
        },
        TagType::INT16 => {
            if (off as u64) + 2 * (count as u64) <= n as u64 {
                let mut v: Vec<u16> = Vec::new();
                let mut k: usize = 0;
                while k < count
                    invariant
                        0 <= k <= count,
                        off + 2 * count <= n <= usize::MAX,
                        n == store@.len(),
                        v@.len() == k as int,
                        forall|j: int|
                            0 <= j < k ==> v@[j] as int == be16(store@, off + 2 * j),
                    decreases count - k,
                {
                    v.push(read_be_u16(store, off + 2 * k));
                    k = k + 1;
                }
                proof {
                    assert(v@ =~= Seq::new(
                        tag.count as nat,
                        |j: int| be16(store@, tag.offset + 2 * j) as u16,
                    ));
                }
                Ok(TagValue::Int16(v))
            } else {
                Err(ParseError::BoundsViolation)
            }
        },
        TagType::INT32 => {
            if (off as u64) + 4 * (count as u64) <= n as u64 {
                let mut v: Vec<u32> = Vec::new();
                let mut k: usize = 0;
                while k < count
                    invariant
                        0 <= k <= count,
                        off + 4 * count <= n <= usize::MAX,
                        n == store@.len(),
                        v@.len() == k as int,
                        forall|j: int|
                            0 <= j < k ==> v@[j] as int == be32(store@, off + 4 * j),
                    decreases count - k,
                {
                    v.push(read_be_u32(store, off + 4 * k));
                    k = k + 1;
                }
                proof {
                    assert(v@ =~= Seq::new(
                        tag.count as nat,
                        |j: int| be32(store@, tag.offset + 4 * j) as u32,
                    ));
                }
                Ok(TagValue::Int32(v))
            } else {
                Err(ParseError::BoundsViolation)
            }
        },
        TagType::INT64 => {
            if (off as u64) + 8 * (count as u64) <= n as u64 {
                let mut v: Vec<u64> = Vec::new();
                let mut k: usize = 0;
                while k < count
                    invariant
                        0 <= k <= count,
                        off + 8 * count <= n <= usize::MAX,
                        n == store@.len(),
                        v@.len() == k as int,
                        forall|j: int|
                            0 <= j < k ==> v@[j] as int == be64(store@, off + 8 * j),
                    decreases count - k,
                {
                    v.push(read_be_u64(store, off + 8 * k));
                    k = k + 1;
                }
                proof {
                    assert(v@ =~= Seq::new(
                        tag.count as nat,
                        |j: int| be64(store@, tag.offset + 8 * j) as u64,
                    ));
                }
                Ok(TagValue::Int64(v))
            } else {
                Err(ParseError::BoundsViolation)
            }
        },
        TagType::STRING | TagType::STRING_ARRAY | TagType::I18NSTRING => {
            if count == 0 {
                let v: Vec<String> = Vec::new();
                proof {
                    assert(v.deep_view() =~= Seq::<Seq<char>>::empty());
                }
                Ok(TagValue::String(v))
            } else if off > n {
                proof {
                    assert(!has_nul(store@, off as int));
                }
                Err(ParseError::BoundsViolation)
            } else {
                match read_cstrs(store, off, count) {
                    Ok(v) => Ok(TagValue::String(v)),
                    Err(e) => Err(e),
                }
            }
        },
    }
}

/// The mapping the first `k` rows of an entry table denote against a
/// store, inserted in table order: when two rows share an identifier the
/// later one wins, and the first failing row fails the whole section.
pub open spec fn spec_entries_map(entries: Seq<u8>, store: Seq<u8>, k: int) -> Result<
    Map<int, ValueModel>,
    ParseError,
>
    decreases k,
    when k >= 0
{
    if k <= 0 {
        Ok(Map::empty())
    } else {
        match spec_entries_map(entries, store, k - 1) {
            Err(e) => Err(e),
            Ok(m) => match spec_parse_tag_entry(entries.subrange(16 * (k - 1), 16 * k)) {
                Err(e) => Err(e),
                Ok(te) => match spec_decode_value(
                    store,
                    te.tagtype,
                    te.offset as int,
                    te.count as int,
                ) {
                    Err(e) => Err(e),
                    Ok(vm) => Ok(m.insert(te.tagid as int, vm)),
                },
            },
        }
    }
}

/// What decoding a section body yields: `count` 16-byte entry rows, then a
/// store of `size` bytes, each row resolved against the store.
pub open spec fn spec_parse_section_data(b: Seq<u8>, count: int, size: int) -> Result<
    Map<int, ValueModel>,
    ParseError,
> {
    if b.len() < 16 * count + size {
        Err(ParseError::Truncated((16 * count + size) as usize))
    } else {
        spec_entries_map(b.subrange(0, 16 * count), b.subrange(16 * count, 16 * count + size), count)
    }
}

/// A failed prefix of the entry table fails every longer prefix the same
/// way.
proof fn lemma_entries_map_err(entries: Seq<u8>, store: Seq<u8>, k: int, k2: int)
    requires
        0 <= k <= k2,
        spec_entries_map(entries, store, k) is Err,
    ensures
        spec_entries_map(entries, store, k2) == spec_entries_map(entries, store, k),
    decreases k2 - k,
{
    if k2 > k {
        lemma_entries_map_err(entries, store, k, k2 - 1);
    }
}

/// Decode a section body: `count` tag entries followed by a store of
/// `size` bytes, assembled into an identifier-to-value mapping.  Bytes
/// past the table and store are ignored.
pub fn parse_section_data(i: &[u8], count: usize, size: usize) -> (r: Result<Header, ParseError>)
    requires
        16 * count + size <= usize::MAX,
    ensures
        match r {
            Ok(h) => spec_parse_section_data(i@, count as int, size as int) == Ok::<
                Map<int, ValueModel>,
                ParseError,
            >(h@),
            Err(e) => spec_parse_section_data(i@, count as int, size as int) == Err::<
                Map<int, ValueModel>,
                ParseError,
            >(e),
        },
{
    let n = i.len();
    let table_len = 16 * count;
    if n < table_len || n - table_len < size {
        return Err(ParseError::Truncated(table_len + size));
    }
    let entries = vstd::slice::slice_subrange(i, 0, table_len);
    let store = vstd::slice::slice_subrange(i, table_len, table_len + size);
    let mut hdr = Header::new();
    let mut k: usize = 0;
    proof {
        assert(hdr@ =~= Map::<int, ValueModel>::empty());
    }
    while k < count
        invariant
            0 <= k <= count,
            16 * count + size <= usize::MAX,
            i@.len() >= 16 * count + size,
            entries@ == i@.subrange(0, 16 * count),
            store@ == i@.subrange(16 * count, 16 * count + size),
            spec_entries_map(entries@, store@, k as int) == Ok::<
                Map<int, ValueModel>,
                ParseError,
            >(hdr@),
        decreases count - k,
    {
        let ent = vstd::slice::slice_subrange(entries, 16 * k, 16 * k + 16);
        match parse_tag_entry(ent) {
            Err(e) => {
                proof {
                    lemma_entries_map_err(entries@, store@, k as int + 1, count as int);
                }
                return Err(e);
            },
            Ok(te) => {
                match parse_tagval(store, &te) {
                    Err(e) => {
                        proof {
                            lemma_entries_map_err(entries@, store@, k as int + 1, count as int);
                        }
                        return Err(e);
                    },
                    Ok(val) => {
                        hdr.insert(te.tagid, val);
                    },
                }
            },
        }
        k = k + 1;
    }
    Ok(hdr)
}

/// Decoding is a pure function of the buffered bytes: decoding the same
/// buffer again yields the same lead, the same section framing, and the
/// same mapping.
pub proof fn lemma_decode_deterministic(b1: Seq<u8>, b2: Seq<u8>, count: int, size: int)
    requires
        b1 == b2,
    ensures
        spec_parse_lead(b1) == spec_parse_lead(b2),
        spec_parse_section_header(b1) == spec_parse_section_header(b2),
        spec_parse_section_data(b1, count, size) == spec_parse_section_data(b2, count, size),
{
}

/// The number of text runs a successful string decode yields.
proof fn lemma_read_cstrs_len(store: Seq<u8>, off: int, count: int)
    requires
        count >= 0,
        spec_read_cstrs(store, off, count) is Ok,
    ensures
        spec_read_cstrs(store, off, count).unwrap().len() == count,
    decreases count,
{
    if count > 0 {
        lemma_read_cstrs_len(store, nul_pos(store, off) + 1, count - 1);
    }
}

/// Whenever a value decodes successfully, the decoded sequence has exactly
/// the entry's declared element count, whatever the value kind.
pub proof fn lemma_value_length(store: Seq<u8>, t: TagType, off: int, count: int)
    requires
        0 <= off,
        count >= 0,
        spec_decode_value(store, t, off, count) is Ok,
    ensures
        match spec_decode_value(store, t, off, count).unwrap() {
            ValueModel::Null => true,
            ValueModel::Char(s) => s.len() == count,
            ValueModel::Int8(s) => s.len() == count,
            ValueModel::Int16(s) => s.len() == count,
            ValueModel::Int32(s) => s.len() == count,
            ValueModel::Int64(s) => s.len() == count,
            ValueModel::Binary(s) => s.len() == count,
            ValueModel::String(s) => s.len() == count,
        },
{
    match t {
        TagType::STRING | TagType::STRING_ARRAY | TagType::I18NSTRING => {
            lemma_read_cstrs_len(store, off, count);
        },
        _ => {},
    }
}

} // verus!
