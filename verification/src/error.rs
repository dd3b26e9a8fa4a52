//! Decode errors. Every failure is a typed condition naming the failure kind
//! and, where relevant, the offending numeric value.

use vstd::prelude::*;
use crate::mrt_header::{MRTSubType, MRTType};

verus! {

#[derive(Debug, Clone, Copy, PartialEq, Eq, Structural)]
pub enum Error {
    /// The envelope's type field holds an unknown or unsupported code.
    BadMrtType(u16),
    /// The envelope's subtype field holds an unknown or unsupported code.
    BadMrtSubtype(u16),
    /// An attribute header carries an unrecognized attribute type code.
    ParsingBgpAttribute(u8),
    /// A message of this type/subtype was not expected in the current state.
    InvalidMrtType(MRTType, MRTSubType),
    /// The buffer ended before the structure being decoded was complete.
    Truncated,
    /// The peer table's view name is not valid UTF-8.
    InvalidUtf8,
    /// An origin attribute body holds a value outside the closed enumeration.
    InvalidBgpOriginType(u8),
    /// A route entry references a peer index at or past the table's length.
    InvalidPeerIndex(u16),
    /// A prefix length field exceeds the 32 bits of an IPv4 address.
    InvalidPrefixLength(u8),
}

} // verus!
