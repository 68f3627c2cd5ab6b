// Tests for the pure decoders: lead, section header, tag entries, values,
// and whole section bodies.

use rpm::{
    parse_lead, parse_section_data, parse_section_header, parse_tag_entry, parse_tagval,
    HeaderSectionHeader, Lead, ParseError, TagEntry, TagType, TagValue,
};

fn be32(v: u32) -> [u8; 4] {
    [(v >> 24) as u8, (v >> 16) as u8, (v >> 8) as u8, v as u8]
}

fn push_entry(buf: &mut Vec<u8>, tagid: u32, typ: u32, offset: u32, count: u32) {
    buf.extend_from_slice(&be32(tagid));
    buf.extend_from_slice(&be32(typ));
    buf.extend_from_slice(&be32(offset));
    buf.extend_from_slice(&be32(count));
}

/// The canonical 96-byte lead of a binary package named
/// "hardlink-1:1.0-23.fc24" for arch 1, OS 1, signature type 5.
fn sample_lead_bytes() -> Vec<u8> {
    let mut b = vec![0xED, 0xAB, 0xEE, 0xDB, 0x03, 0x00, 0x00, 0x00, 0x00, 0x01];
    let name = b"hardlink-1:1.0-23.fc24";
    let mut field = [0u8; 66];
    field[..name.len()].copy_from_slice(name);
    b.extend_from_slice(&field);
    b.extend_from_slice(&[0x00, 0x01, 0x00, 0x05]);
    b.extend_from_slice(&[0u8; 16]);
    assert_eq!(b.len(), 0x60);
    b
}

/// A signature section body declaring 8 entries and a 0x1484-byte store,
/// with the header digest for identifier 0x10d stored as text.
fn sample_sig_section_body() -> Vec<u8> {
    let digest = b"801d920f02ca12b3570a2f96eed3452616033538";
    let mut entries = Vec::new();
    push_entry(&mut entries, 0x3e, 7, 0x1474, 0x10);
    push_entry(&mut entries, 0x10d, 6, 0, 1);
    push_entry(&mut entries, 0x3e8, 4, 44, 1);
    push_entry(&mut entries, 0x3ec, 7, 48, 16);
    push_entry(&mut entries, 0x3ed, 7, 64, 100);
    push_entry(&mut entries, 0x3ef, 4, 164, 1);
    push_entry(&mut entries, 0x10c, 7, 168, 100);
    push_entry(&mut entries, 0x10e, 6, 268, 1);
    assert_eq!(entries.len(), 16 * 8);
    let mut store = vec![0u8; 0x1484];
    store[..digest.len()].copy_from_slice(digest);
    // digest occupies 0..40, its NUL terminator is the zero at 41
    store[268] = b'a';
    store[269] = b'b';
    // store[270] stays zero as the terminator
    let mut body = entries;
    body.extend_from_slice(&store);
    body
}

#[test]
fn parse_lead_bad_magic() {
    let bytes = [0; 0x60];
    assert_eq!(parse_lead(&bytes), Err(ParseError::BadMagic));
}

#[test]
fn parse_lead_empty() {
    let bytes = b"";
    assert_eq!(parse_lead(bytes), Err(ParseError::Truncated(4)));
}

#[test]
fn parse_lead_short() {
    let bytes = b"\xED\xAB\xEE\xDB\x03\x00";
    assert_eq!(parse_lead(bytes), Err(ParseError::Truncated(8)));
}

#[test]
fn parse_lead_ok() {
    let bytes = sample_lead_bytes();
    assert_eq!(
        parse_lead(&bytes),
        Ok(Lead {
            major: 3,
            minor: 0,
            rpm_type: 0,
            archnum: 1,
            name: String::from("hardlink-1:1.0-23.fc24"),
            osnum: 1,
            signature_type: 5,
        })
    );
}

#[test]
fn parse_section_header_ok() {
    let mut bytes = vec![0x8E, 0xAD, 0xE8, 0x01, 0, 0, 0, 0];
    bytes.extend_from_slice(&be32(8));
    bytes.extend_from_slice(&be32(0x1484));
    assert_eq!(
        parse_section_header(&bytes),
        Ok(HeaderSectionHeader { version: 1, count: 8, size: 0x1484 })
    );
}

#[test]
fn parse_section_header_bad_magic() {
    let bytes = [0u8; 16];
    assert_eq!(parse_section_header(&bytes), Err(ParseError::BadMagic));
}

#[test]
fn parse_tag_entry_ok() {
    let mut bytes = Vec::new();
    push_entry(&mut bytes, 0x3e, 7, 0x1474, 0x10);
    assert_eq!(
        parse_tag_entry(&bytes),
        Ok(TagEntry { tagid: 0x3e, tagtype: TagType::BIN, offset: 0x1474, count: 0x10 })
    );
}

#[test]
fn parse_tag_entry_bad_tagtype() {
    let bytes = b"\0\0\0\xAA\0\0\0\xBB\0\0\0\xCC\0\0\0\xDD";
    assert_eq!(parse_tag_entry(bytes), Err(ParseError::MalformedEntry));
}

#[test]
fn parse_tag_entry_negative_id() {
    let mut bytes = Vec::new();
    push_entry(&mut bytes, 0xffff_ffff, 0, 0, 0);
    let te = parse_tag_entry(&bytes).unwrap();
    assert_eq!(te.tagid, -1);
    assert_eq!(te.tagtype, TagType::NULL);
}

#[test]
fn parse_tagval_str() {
    let mut ministore = vec![0u8; 20];
    ministore[2..11].copy_from_slice(b"hardlink\0");
    let tag = TagEntry { tagid: 0x03e8, tagtype: TagType::STRING, offset: 0x0002, count: 1 };
    assert_eq!(
        parse_tagval(&ministore, &tag),
        Ok(TagValue::String(vec![String::from("hardlink")]))
    );
}

#[test]
fn parse_tagval_int_arrays() {
    let store = [0x01, 0x02, 0x03, 0x04, 0x05, 0x06, 0x07, 0x08];
    let t16 = TagEntry { tagid: 1, tagtype: TagType::INT16, offset: 0, count: 4 };
    assert_eq!(
        parse_tagval(&store, &t16),
        Ok(TagValue::Int16(vec![0x0102, 0x0304, 0x0506, 0x0708]))
    );
    let t32 = TagEntry { tagid: 1, tagtype: TagType::INT32, offset: 0, count: 2 };
    assert_eq!(parse_tagval(&store, &t32), Ok(TagValue::Int32(vec![0x01020304, 0x05060708])));
    let t64 = TagEntry { tagid: 1, tagtype: TagType::INT64, offset: 0, count: 1 };
    assert_eq!(parse_tagval(&store, &t64), Ok(TagValue::Int64(vec![0x0102030405060708])));
    let t8 = TagEntry { tagid: 1, tagtype: TagType::INT8, offset: 6, count: 2 };
    assert_eq!(parse_tagval(&store, &t8), Ok(TagValue::Int8(vec![0x07, 0x08])));
    let tc = TagEntry { tagid: 1, tagtype: TagType::CHAR, offset: 7, count: 1 };
    assert_eq!(parse_tagval(&store, &tc), Ok(TagValue::Char(vec![0x08])));
    let tb = TagEntry { tagid: 1, tagtype: TagType::BIN, offset: 4, count: 4 };
    assert_eq!(parse_tagval(&store, &tb), Ok(TagValue::Binary(vec![0x05, 0x06, 0x07, 0x08])));
    let tn = TagEntry { tagid: 1, tagtype: TagType::NULL, offset: 8, count: 7 };
    assert_eq!(parse_tagval(&store, &tn), Ok(TagValue::Null));
}

#[test]
fn parse_tagval_out_of_bounds() {
    let store = [0u8; 8];
    // 0 + 2 * 5 > 8
    let t16 = TagEntry { tagid: 1, tagtype: TagType::INT16, offset: 0, count: 5 };
    assert_eq!(parse_tagval(&store, &t16), Err(ParseError::BoundsViolation));
    // 6 + 4 > 8
    let tb = TagEntry { tagid: 1, tagtype: TagType::BIN, offset: 6, count: 4 };
    assert_eq!(parse_tagval(&store, &tb), Err(ParseError::BoundsViolation));
    // offset itself past the store
    let tn = TagEntry { tagid: 1, tagtype: TagType::NULL, offset: 9, count: 0 };
    assert_eq!(parse_tagval(&store, &tn), Err(ParseError::BoundsViolation));
}

#[test]
fn parse_tagval_unterminated_string() {
    let store = *b"abcdef";
    let ts = TagEntry { tagid: 1, tagtype: TagType::STRING, offset: 2, count: 1 };
    assert_eq!(parse_tagval(&store, &ts), Err(ParseError::BoundsViolation));
}

#[test]
fn parse_tagval_invalid_text() {
    let store = [b'a', 0xFF, 0xFE, 0x00];
    let ts = TagEntry { tagid: 1, tagtype: TagType::STRING, offset: 0, count: 1 };
    assert_eq!(parse_tagval(&store, &ts), Err(ParseError::InvalidText));
}

#[test]
fn parse_tagval_string_array() {
    let store = *b"one\0two\0three\0";
    let ts = TagEntry { tagid: 1, tagtype: TagType::STRING_ARRAY, offset: 0, count: 3 };
    assert_eq!(
        parse_tagval(&store, &ts),
        Ok(TagValue::String(vec![
            String::from("one"),
            String::from("two"),
            String::from("three")
        ]))
    );
}

#[test]
fn test_parse_header_ok() {
    let body = sample_sig_section_body();
    let hdr = parse_section_data(&body, 8, 0x1484).unwrap();
    assert_eq!(hdr.len(), 8);
    assert_eq!(
        hdr.get(&0x10d),
        Some(&TagValue::String(vec![String::from(
            "801d920f02ca12b3570a2f96eed3452616033538"
        )]))
    );
}

#[test]
fn parse_section_data_short() {
    let body = sample_sig_section_body();
    assert_eq!(
        parse_section_data(&body[..100], 8, 0x1484).unwrap_err(),
        ParseError::Truncated(16 * 8 + 0x1484)
    );
}

#[test]
fn parse_section_data_aborts_on_bad_entry() {
    // second entry has an unresolvable wire type: the whole section fails
    let mut body = Vec::new();
    push_entry(&mut body, 1, 4, 0, 1);
    push_entry(&mut body, 2, 99, 4, 1);
    body.extend_from_slice(&[0u8; 8]);
    assert_eq!(parse_section_data(&body, 2, 8).unwrap_err(), ParseError::MalformedEntry);
}

#[test]
fn parse_section_data_duplicate_id_last_wins() {
    let mut body = Vec::new();
    push_entry(&mut body, 7, 4, 0, 1);
    push_entry(&mut body, 7, 4, 4, 1);
    body.extend_from_slice(&be32(0x11111111));
    body.extend_from_slice(&be32(0x22222222));
    let hdr = parse_section_data(&body, 2, 8).unwrap();
    assert_eq!(hdr.len(), 1);
    assert_eq!(hdr.get(&7), Some(&TagValue::Int32(vec![0x22222222])));
}

#[test]
fn parse_section_data_overlapping_entries() {
    // entries may alias byte ranges of the store; both decode
    let mut body = Vec::new();
    push_entry(&mut body, 1, 4, 0, 1);
    push_entry(&mut body, 2, 3, 0, 2);
    body.extend_from_slice(&be32(0x0A0B0C0D));
    let hdr = parse_section_data(&body, 2, 4).unwrap();
    assert_eq!(hdr.get(&1), Some(&TagValue::Int32(vec![0x0A0B0C0D])));
    assert_eq!(hdr.get(&2), Some(&TagValue::Int16(vec![0x0A0B, 0x0C0D])));
}

#[test]
fn redecoding_same_buffer_is_deterministic() {
    let bytes = sample_lead_bytes();
    assert_eq!(parse_lead(&bytes), parse_lead(&bytes));
    let body = sample_sig_section_body();
    let h1 = parse_section_data(&body, 8, 0x1484).unwrap();
    let h2 = parse_section_data(&body, 8, 0x1484).unwrap();
    assert_eq!(h1.len(), h2.len());
    assert_eq!(h1.get(&0x10d), h2.get(&0x10d));
    assert_eq!(h1.get(&0x3e), h2.get(&0x3e));
}

#[test]
fn decoded_length_equals_declared_count() {
    let store = [0u8; 64];
    for (typ, count) in [(1u32, 64u32), (2, 64), (3, 32), (4, 16), (5, 8), (7, 64)] {
        let te = TagEntry {
            tagid: 1,
            tagtype: TagType::from_u32(typ).unwrap(),
            offset: 0,
            count,
        };
        let n = match parse_tagval(&store, &te).unwrap() {
            TagValue::Char(v) => v.len(),
            TagValue::Int8(v) => v.len(),
            TagValue::Int16(v) => v.len(),
            TagValue::Int32(v) => v.len(),
            TagValue::Int64(v) => v.len(),
            TagValue::Binary(v) => v.len(),
            _ => panic!("unexpected variant"),
        };
        assert_eq!(n, count as usize);
    }
}

#[test]
fn datasize_and_padsize() {
    let h = HeaderSectionHeader { version: 1, count: 8, size: 0x1484 };
    assert_eq!(h.datasize(), 16 * 8 + 0x1484);
    assert_eq!(h.padsize(), 4);
    let aligned = HeaderSectionHeader { version: 1, count: 3, size: 64 };
    assert_eq!(aligned.datasize(), 48 + 64);
    assert_eq!(aligned.padsize(), 0);
    let one = HeaderSectionHeader { version: 1, count: 0, size: 1 };
    assert_eq!(one.padsize(), 7);
}
