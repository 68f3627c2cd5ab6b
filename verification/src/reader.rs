//! The sequential reader: a cursor over a buffered archive that enforces
//! the read order lead, then signature section, then metadata section, and
//! computes each section's byte budget including the alignment padding
//! that follows the signature section.

use vstd::prelude::*;

use crate::error::{spec_rpm_error_of, ParseError, RPMError, RPMFileError};
use crate::header::{Header, Lead, LeadModel};
use crate::parser::{
    parse_lead, parse_section_data, parse_section_header, spec_padsize, spec_parse_lead,
    spec_parse_section_data, spec_parse_section_header, HeaderSectionHeader, MAX_ENTRY_COUNT,
    MAX_STORE_SIZE,
};
use crate::tag::ValueModel;

verus! {

/// Which of the three reads have been consumed, in their strict order.
#[derive(Debug, Clone, Copy, PartialEq, Eq, Structural)]
pub enum ReaderState {
    /// Nothing read yet; only the lead may be read.
    Start,
    /// The lead is read; the next read is the signature section.
    LeadRead,
    /// The signature section is read; the next read is the metadata
    /// section.
    SigRead,
    /// Both sections are read.
    Done,
}

/// The mathematical shape of a reader: the buffered bytes, the cursor, and
/// the state-machine position.
pub struct ReaderModel {
    pub bytes: Seq<u8>,
    pub pos: int,
    pub state: ReaderState,
}

/// What `lead` does to a reader: valid only in `Start`; consumes exactly
/// 96 bytes on success and moves to `LeadRead`; any failure leaves the
/// reader unchanged.
pub open spec fn spec_read_lead(m: ReaderModel) -> (ReaderModel, Result<LeadModel, RPMError>) {
    if m.state != ReaderState::Start {
        (m, Err(RPMError::Internal))
    } else if m.bytes.len() - m.pos < 96 {
        (m, Err(RPMError::Io(96)))
    } else {
        match spec_parse_lead(m.bytes.subrange(m.pos, m.pos + 96)) {
            Ok(l) => (
                ReaderModel { bytes: m.bytes, pos: m.pos + 96, state: ReaderState::LeadRead },
                Ok(l),
            ),
            Err(e) => (m, Err(spec_rpm_error_of(e))),
        }
    }
}

/// What `header` does to a reader: valid only in `LeadRead` (the signature
/// section, with alignment padding after it) and `SigRead` (the metadata
/// section, no padding).  On success it consumes the 16-byte framing, the
/// entry table, the store, and the padding, and advances the state; any
/// failure leaves the reader unchanged.  A declared entry count or store
/// size over the defensive caps is rejected before any decoding.
pub open spec fn spec_read_header(m: ReaderModel) -> (
    ReaderModel,
    Result<Map<int, ValueModel>, RPMError>,
) {
    if m.state != ReaderState::LeadRead && m.state != ReaderState::SigRead {
        (m, Err(RPMError::Internal))
    } else if m.bytes.len() - m.pos < 16 {
        (m, Err(RPMError::Io(16)))
    } else {
        match spec_parse_section_header(m.bytes.subrange(m.pos, m.pos + 16)) {
            Err(e) => (m, Err(spec_rpm_error_of(e))),
            Ok(h) => if h.count > MAX_ENTRY_COUNT || h.size > MAX_STORE_SIZE {
                (m, Err(RPMError::File(RPMFileError::HeaderSize)))
            } else {
                let pad = if m.state == ReaderState::LeadRead {
                    spec_padsize(h.size)
                } else {
                    0
                };
                let need = 16 * h.count + h.size + pad;
                if m.bytes.len() - (m.pos + 16) < need {
                    (m, Err(RPMError::Io((16 + need) as usize)))
                } else {
                    match spec_parse_section_data(
                        m.bytes.subrange(m.pos + 16, m.pos + 16 + 16 * h.count + h.size),
                        h.count as int,
                        h.size as int,
                    ) {
                        Err(e) => (m, Err(spec_rpm_error_of(e))),
                        Ok(map) => (
                            ReaderModel {
                                bytes: m.bytes,
                                pos: m.pos + 16 + need,
                                state: if m.state == ReaderState::LeadRead {
                                    ReaderState::SigRead
                                } else {
                                    ReaderState::Done
                                },
                            },
                            Ok(map),
                        ),
                    }
                }
            },
        }
    }
}

/// A reader over an in-memory archive.
#[derive(Debug)]
pub struct Reader {
    buf: Vec<u8>,
    pos: usize,
    state: ReaderState,
}

impl View for Reader {
    type V = ReaderModel;

    closed spec fn view(&self) -> ReaderModel {
        ReaderModel { bytes: self.buf@, pos: self.pos as int, state: self.state }
    }
}

impl Reader {
    #[verifier::type_invariant]
    spec fn wf(self) -> bool {
        self.pos <= self.buf@.len()
    }

    /// A reader over a buffer of bytes, positioned at its start.
    pub fn from_bytes(bytes: Vec<u8>) -> (r: Reader)
        ensures
            r@ == (ReaderModel { bytes: bytes@, pos: 0, state: ReaderState::Start }),
    {
        Reader { buf: bytes, pos: 0, state: ReaderState::Start }
    }

    /// A reader over the UTF-8 bytes of a string.
    pub fn from_string(s: String) -> (r: Reader)
        ensures
            r@ == (ReaderModel {
                bytes: vstd::utf8::encode_utf8(s@),
                pos: 0,
                state: ReaderState::Start,
            }),
    {
        let b = vstd::slice::slice_to_vec(s.as_str().as_bytes());
        Reader::from_bytes(b)
    }

    /// The number of bytes consumed so far.
    pub fn position(&self) -> (p: usize)
        ensures
            p == self@.pos,
    {
        self.pos
    }

    /// Read and decode the 96-byte lead.  Valid only before anything else
    /// has been read; on failure the reader is unchanged.
    pub fn lead(&mut self) -> (r: Result<Lead, RPMError>)
        ensures
            final(self)@ == spec_read_lead(old(self)@).0,
            match r {
                Ok(l) => spec_read_lead(old(self)@).1 == Ok::<LeadModel, RPMError>(l@),
                Err(e) => spec_read_lead(old(self)@).1 == Err::<LeadModel, RPMError>(e),
            },
    {
        proof {
            use_type_invariant(&*self);
        }
        match self.state {
            ReaderState::Start => {},
            _ => {
                return Err(RPMError::Internal);
            },
        }
        let n = self.buf.len();
        if n - self.pos < 96 {
            return Err(RPMError::Io(96));
        }
        let window = vstd::slice::slice_subrange(self.buf.as_slice(), self.pos, self.pos + 96);
        match parse_lead(window) {
            Ok(l) => {
                self.pos = self.pos + 96;
                self.state = ReaderState::LeadRead;
                Ok(l)
            },
            Err(e) => Err(e.to_rpm_error()),
        }
    }

    /// Decode the 16-byte section framing at the cursor, without moving
    /// the cursor.
    fn section_header(&self) -> (r: Result<HeaderSectionHeader, RPMError>)
        ensures
            match r {
                Ok(h) => self@.bytes.len() - self@.pos >= 16 && spec_parse_section_header(
                    self@.bytes.subrange(self@.pos, self@.pos + 16),
                ) == Ok::<HeaderSectionHeader, ParseError>(h),
                Err(e) => if self@.bytes.len() - self@.pos < 16 {
                    e == RPMError::Io(16)
                } else {
                    spec_parse_section_header(self@.bytes.subrange(self@.pos, self@.pos + 16))
                        matches Err(pe) && e == spec_rpm_error_of(pe)
                },
            },
    {
        proof {
            use_type_invariant(&*self);
        }
        let n = self.buf.len();
        if n - self.pos < 16 {
            return Err(RPMError::Io(16));
        }
        let window = vstd::slice::slice_subrange(self.buf.as_slice(), self.pos, self.pos + 16);
        match parse_section_header(window) {
            Ok(h) => Ok(h),
            Err(e) => Err(e.to_rpm_error()),
        }
    }

    /// Read and decode one header section: the signature section on the
    /// first call after the lead, the metadata section on the second.  On
    /// failure the reader is unchanged.
    pub fn header(&mut self) -> (r: Result<Header, RPMError>)
        ensures
            final(self)@ == spec_read_header(old(self)@).0,
            match r {
                Ok(h) => spec_read_header(old(self)@).1 == Ok::<Map<int, ValueModel>, RPMError>(
                    h@,
                ),
                Err(e) => spec_read_header(old(self)@).1 == Err::<
                    Map<int, ValueModel>,
                    RPMError,
                >(e),
            },
    {
        proof {
            use_type_invariant(&*self);
        }
        let is_sig: bool;
        match self.state {
            ReaderState::LeadRead => {
                is_sig = true;
            },
            ReaderState::SigRead => {
                is_sig = false;
            },
            _ => {
                return Err(RPMError::Internal);
            },
        }
        let h = match self.section_header() {
            Err(e) => {
                return Err(e);
            },
            Ok(h) => h,
        };
        if h.count > MAX_ENTRY_COUNT || h.size > MAX_STORE_SIZE {
            return Err(RPMError::File(RPMFileError::HeaderSize));
        }
        let pad = if is_sig {
            h.padsize()
        } else {
            0
        };
        let datasize = h.datasize();
        let need = datasize + pad;
        let n = self.buf.len();
        if (n - self.pos) - 16 < need {
            return Err(RPMError::Io(16 + need));
        }
        let body = vstd::slice::slice_subrange(
            self.buf.as_slice(),
            self.pos + 16,
            self.pos + 16 + datasize,
        );
        match parse_section_data(body, h.count as usize, h.size as usize) {
            Err(e) => Err(e.to_rpm_error()),
            Ok(hdr) => {
                self.pos = self.pos + 16 + need;
                self.state = if is_sig {
                    ReaderState::SigRead
                } else {
                    ReaderState::Done
                };
                Ok(hdr)
            },
        }
    }
}

/// Reading a whole archive consumes exactly the bytes of its header
/// region.  From the start state, a successful lead read followed by two
/// successful section reads consumes 96 bytes for the lead, then each
/// section's 16-byte framing plus its declared table and store sizes, plus
/// the signature section's alignment padding, and ends in the final state
/// with the buffered bytes untouched.
pub proof fn lemma_full_read_consumption(m0: ReaderModel)
    requires
        m0.state == ReaderState::Start,
        spec_read_lead(m0).1 is Ok,
        spec_read_header(spec_read_lead(m0).0).1 is Ok,
        spec_read_header(spec_read_header(spec_read_lead(m0).0).0).1 is Ok,
    ensures
        ({
            let m1 = spec_read_lead(m0).0;
            let m2 = spec_read_header(m1).0;
            let m3 = spec_read_header(m2).0;
            let sig = spec_parse_section_header(
                m1.bytes.subrange(m1.pos, m1.pos + 16),
            ).unwrap();
            let hdr = spec_parse_section_header(
                m2.bytes.subrange(m2.pos, m2.pos + 16),
            ).unwrap();
            m3.bytes == m0.bytes && m3.state == ReaderState::Done && m3.pos == m0.pos + 96 + 16
                + 16 * sig.count + sig.size + spec_padsize(sig.size) + 16 + 16 * hdr.count
                + hdr.size
        }),
{
}

} // verus!
