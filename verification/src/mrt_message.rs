//! The framing layer: one envelope plus the exactly `length` payload bytes it
//! declares. Decoding one message consumes exactly `12 + length` bytes.

use vstd::prelude::*;
use crate::error::Error;
use crate::mrt_header::{spec_mrt_header, MRTHeader};

verus! {

#[derive(Debug)]
pub struct MRTMessage {
    pub header: MRTHeader,
    /// Exactly `header.length` bytes, the slice of the input right after the
    /// envelope.
    pub payload: Vec<u8>,
}

/// What decoding one framed message at `pos` yields: the header, the payload
/// bytes, and the position right after them, `pos + 12 + length`.
pub open spec fn spec_mrt_message(b: Seq<u8>, pos: int) -> Result<(MRTHeader, Seq<u8>, int), Error> {
    match spec_mrt_header(b, pos) {
        Err(e) => Err(e),
        Ok(h) => {
            if b.len() - (pos + 12) < h.length {
                Err(Error::Truncated)
            } else {
                Ok((h, b.subrange(pos + 12, pos + 12 + h.length), pos + 12 + h.length))
            }
        },
    }
}

impl MRTMessage {
    /// Decode one framed message. On success the payload is identical to the
    /// input slice `bytes[pos+12 .. pos+12+length]` and the returned position
    /// has advanced by exactly `12 + length` bytes.
    pub fn from_reader(bytes: &[u8], pos: usize) -> (r: Result<(MRTMessage, usize), Error>)
        requires
            pos <= bytes@.len(),
        ensures
            match r {
                Ok((m, n)) => spec_mrt_message(bytes@, pos as int) == Ok::<_, Error>(
                    (m.header, m.payload@, n as int),
                ) && m.payload@.len() == m.header.length && n == pos + 12 + m.header.length,
                Err(e) => spec_mrt_message(bytes@, pos as int) == Err::<(MRTHeader, Seq<u8>, int), _>(
                    e,
                ),
            },
    {
        proof {
            vstd::slice::axiom_spec_len(bytes);
        }
        let (header, body_pos) = match MRTHeader::from_reader(bytes, pos) {
            Ok(hn) => hn,
            Err(e) => {
                return Err(e);
            },
        };
        if bytes.len() - body_pos < header.length as usize {
            return Err(Error::Truncated);
        }
        let end = body_pos + header.length as usize;
        let payload = vstd::slice::slice_to_vec(vstd::slice::slice_subrange(bytes, body_pos, end));
        Ok((MRTMessage { header, payload }, end))
    }
}

} // verus!
