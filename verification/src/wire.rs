//! Primitive readers for the wire format: big-endian integers,
//! NUL-terminated strings, and byte-range extraction, each a pure function
//! of an already-buffered byte range.

use vstd::prelude::*;
use vstd::utf8::{decode_utf8, valid_utf8};

use crate::error::ParseError;

verus! {

/// The big-endian 16-bit value stored at byte offset `i`.
pub open spec fn be16(s: Seq<u8>, i: int) -> int {
    s[i] * 0x100 + s[i + 1]
}

/// The big-endian 32-bit value stored at byte offset `i`.
pub open spec fn be32(s: Seq<u8>, i: int) -> int {
    s[i] * 0x100_0000 + s[i + 1] * 0x1_0000 + s[i + 2] * 0x100 + s[i + 3]
}

/// The big-endian 64-bit value stored at byte offset `i`.
pub open spec fn be64(s: Seq<u8>, i: int) -> int {
    be32(s, i) * 0x1_0000_0000 + be32(s, i + 4)
}

/// The big-endian 32-bit field at byte offset `i`, read as a signed
/// (two's-complement) value.
pub open spec fn be32_signed(s: Seq<u8>, i: int) -> int {
    if be32(s, i) < 0x8000_0000 {
        be32(s, i)
    } else {
        be32(s, i) - 0x1_0000_0000
    }
}

/// Read a big-endian u16 at `off`.
pub fn read_be_u16(b: &[u8], off: usize) -> (r: u16)
    requires
        off + 2 <= b@.len(),
    ensures
        r as int == be16(b@, off as int),
{
    (b[off] as u16) * 0x100 + (b[off + 1] as u16)
}

/// Read a big-endian u32 at `off`.
pub fn read_be_u32(b: &[u8], off: usize) -> (r: u32)
    requires
        off + 4 <= b@.len(),
    ensures
        r as int == be32(b@, off as int),
{
    (b[off] as u32) * 0x100_0000 + (b[off + 1] as u32) * 0x1_0000 + (b[off + 2] as u32) * 0x100
        + (b[off + 3] as u32)
}

/// Read a big-endian u64 at `off`.
pub fn read_be_u64(b: &[u8], off: usize) -> (r: u64)
    requires
        off + 8 <= b@.len(),
    ensures
        r as int == be64(b@, off as int),
{
    let _n: usize = b.len();
    let hi = read_be_u32(b, off);
    let lo = read_be_u32(b, off + 4);
    (hi as u64) * 0x1_0000_0000 + (lo as u64)
}

/// Read a big-endian 32-bit field at `off` as a signed value.
pub fn read_be_i32(b: &[u8], off: usize) -> (r: i32)
    requires
        off + 4 <= b@.len(),
    ensures
        r as int == be32_signed(b@, off as int),
{
    let u = read_be_u32(b, off);
    if u < 0x8000_0000 {
        u as i32
    } else {
        ((u as i64) - 0x1_0000_0000i64) as i32
    }
}

/// Whether some byte at or after `from` is NUL.
pub open spec fn has_nul(s: Seq<u8>, from: int) -> bool {
    exists|j: int| from <= j < s.len() && s[j] == 0
}

/// The position of the first NUL byte at or after `from`.
pub open spec fn nul_pos(s: Seq<u8>, from: int) -> int
    recommends
        0 <= from,
        has_nul(s, from),
    decreases s.len() - from,
    when 0 <= from < s.len()
{
    if s[from] == 0 {
        from
    } else {
        nul_pos(s, from + 1)
    }
}

/// Where a NUL exists, `nul_pos` names the first one.
pub proof fn lemma_nul_pos(s: Seq<u8>, from: int)
    requires
        0 <= from,
        has_nul(s, from),
    ensures
        from <= nul_pos(s, from) < s.len(),
        s[nul_pos(s, from)] == 0,
        forall|j: int| from <= j < nul_pos(s, from) ==> s[j] != 0,
    decreases s.len() - from,
{
    if s[from] == 0 {
    } else {
        lemma_nul_pos(s, from + 1);
    }
}

/// Find the first NUL byte at or after `from`, if any.
pub fn find_nul(b: &[u8], from: usize) -> (r: Option<usize>)
    requires
        from <= b@.len(),
    ensures
        match r {
            Some(p) => has_nul(b@, from as int) && p == nul_pos(b@, from as int),
            None => !has_nul(b@, from as int),
        },
{
    let len = b.len();
    let mut i = from;
    while i < len
        invariant
            from <= i <= len,
            len == b@.len(),
            forall|j: int| from <= j < i ==> b@[j] != 0,
        decreases len - i,
    {
        if b[i] == 0 {
            proof {
                lemma_nul_pos(b@, from as int);
            }
            return Some(i);
        }
        i = i + 1;
    }
    None
}

/// Copy the `len` bytes starting at `off` out of `b`.
pub fn bytes_range(b: &[u8], off: usize, len: usize) -> (r: Vec<u8>)
    requires
        off + len <= b@.len(),
    ensures
        r@ == b@.subrange(off as int, off as int + len as int),
{
    let _n: usize = b.len();
    let s = vstd::slice::slice_subrange(b, off, off + len);
    vstd::slice::slice_to_vec(s)
}

/// Relies on `String::from_utf8`: it returns `Ok` exactly when the bytes
/// are a valid UTF-8 encoding, and then the string's characters are the
/// decoding of those bytes.
#[verifier::external_body]
pub(crate) fn string_from_utf8(v: Vec<u8>) -> (r: Option<String>)
    ensures
        r is Some <==> valid_utf8(v@),
        r matches Some(s) ==> s@ == decode_utf8(v@),
{
    String::from_utf8(v).ok()
}

/// What decoding the NUL-terminated text run that starts at `off` yields:
/// the text before the first NUL, a bounds error when no NUL follows, or a
/// text error when the bytes are not valid UTF-8.
pub open spec fn spec_read_cstr(s: Seq<u8>, off: int) -> Result<Seq<char>, ParseError> {
    if !has_nul(s, off) {
        Err(ParseError::BoundsViolation)
    } else {
        let raw = s.subrange(off, nul_pos(s, off));
        if valid_utf8(raw) {
            Ok(decode_utf8(raw))
        } else {
            Err(ParseError::InvalidText)
        }
    }
}

/// Decode the NUL-terminated text run starting at `off`.  On success the
/// result also carries the position of the terminating NUL.
pub fn read_cstr(b: &[u8], off: usize) -> (r: Result<(String, usize), ParseError>)
    requires
        off <= b@.len(),
    ensures
        match r {
            Ok(p) => spec_read_cstr(b@, off as int) == Ok::<Seq<char>, ParseError>(p.0@)
                && p.1 == nul_pos(b@, off as int),
            Err(e) => spec_read_cstr(b@, off as int) == Err::<Seq<char>, ParseError>(e),
        },
{
    match find_nul(b, off) {
        None => Err(ParseError::BoundsViolation),
        Some(end) => {
            proof {
                lemma_nul_pos(b@, off as int);
            }
            let raw = bytes_range(b, off, end - off);
            match string_from_utf8(raw) {
                Some(s) => Ok((s, end)),
                None => Err(ParseError::InvalidText),
            }
        },
    }
}

} // verus!
