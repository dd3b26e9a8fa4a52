//! The fixed 12-byte outer envelope of every MRT message: timestamp, type,
//! subtype and payload length.

use vstd::prelude::*;
use crate::bytes::{be16, be32, read_u16_be, read_u32_be};
use crate::error::Error;

verus! {

#[derive(Debug, Clone, Copy, PartialEq, Eq, Structural)]
pub enum MRTType {
    OspfV2,
    TableDump,
    TableDumpV2,
    Bgp4Mp,
    Bgp4MpEt,
    Isis,
    IsisEt,
    OspfV3,
    OspfV3Et,
}

#[derive(Debug, Clone, Copy, PartialEq, Eq, Structural)]
pub enum MRTSubType {
    PeerIndexTable,
    RibIpV4Unicast,
}

/// The closed mapping from an envelope type code to its meaning.
pub open spec fn spec_mrt_type(v: u16) -> Option<MRTType> {
    if v == 11 {
        Some(MRTType::OspfV2)
    } else if v == 12 {
        Some(MRTType::TableDump)
    } else if v == 13 {
        Some(MRTType::TableDumpV2)
    } else if v == 16 {
        Some(MRTType::Bgp4Mp)
    } else if v == 17 {
        Some(MRTType::Bgp4MpEt)
    } else if v == 32 {
        Some(MRTType::Isis)
    } else if v == 33 {
        Some(MRTType::IsisEt)
    } else if v == 48 {
        Some(MRTType::OspfV3)
    } else if v == 49 {
        Some(MRTType::OspfV3Et)
    } else {
        None
    }
}

/// The closed mapping from an envelope subtype code to its meaning.
pub open spec fn spec_mrt_subtype(v: u16) -> Option<MRTSubType> {
    if v == 1 {
        Some(MRTSubType::PeerIndexTable)
    } else if v == 2 {
        Some(MRTSubType::RibIpV4Unicast)
    } else {
        None
    }
}

impl MRTType {
    pub fn from_repr(v: u16) -> (r: Option<MRTType>)
        ensures
            r == spec_mrt_type(v),
    {
        match v {
            11 => Some(MRTType::OspfV2),
            12 => Some(MRTType::TableDump),
            13 => Some(MRTType::TableDumpV2),
            16 => Some(MRTType::Bgp4Mp),
            17 => Some(MRTType::Bgp4MpEt),
            32 => Some(MRTType::Isis),
            33 => Some(MRTType::IsisEt),
            48 => Some(MRTType::OspfV3),
            49 => Some(MRTType::OspfV3Et),
            _ => None,
        }
    }
}

impl MRTSubType {
    pub fn from_repr(v: u16) -> (r: Option<MRTSubType>)
        ensures
            r == spec_mrt_subtype(v),
    {
        match v {
            1 => Some(MRTSubType::PeerIndexTable),
            2 => Some(MRTSubType::RibIpV4Unicast),
            _ => None,
        }
    }
}

#[derive(Debug, Clone, Copy, PartialEq, Eq, Structural)]
pub struct MRTHeader {
    /// Seconds since the epoch.
    pub ts: u32,
    pub mrt_type: MRTType,
    pub mrt_subtype: MRTSubType,
    /// Length in bytes of the payload that follows the 12 header bytes.
    pub length: u32,
}

/// What decoding an envelope at `pos` yields: the header's four fields read
/// big-endian from the 12 bytes there, provided the type and subtype codes are
/// known; the exact error otherwise.
pub open spec fn spec_mrt_header(b: Seq<u8>, pos: int) -> Result<MRTHeader, Error> {
    if b.len() - pos < 12 {
        Err(Error::Truncated)
    } else {
        let t = be16(b, pos + 4);
        let s = be16(b, pos + 6);
        match spec_mrt_type(t) {
            None => Err(Error::BadMrtType(t)),
            Some(mrt_type) => match spec_mrt_subtype(s) {
                None => Err(Error::BadMrtSubtype(s)),
                Some(mrt_subtype) => Ok(
                    MRTHeader {
                        ts: be32(b, pos),
                        mrt_type,
                        mrt_subtype,
                        length: be32(b, pos + 8),
                    },
                ),
            },
        }
    }
}

impl MRTHeader {
    /// Decode one envelope from the 12 bytes at `pos`; on success the new
    /// position is exactly `pos + 12`.
    pub fn from_reader(bytes: &[u8], pos: usize) -> (r: Result<(MRTHeader, usize), Error>)
        requires
            pos <= bytes@.len(),
        ensures
            match r {
                Ok((h, n)) => spec_mrt_header(bytes@, pos as int) == Ok::<MRTHeader, Error>(h)
                    && n == pos + 12,
                Err(e) => spec_mrt_header(bytes@, pos as int) == Err::<MRTHeader, Error>(e),
            },
    {
        proof {
            vstd::slice::axiom_spec_len(bytes);
        }
        if bytes.len() - pos < 12 {
            return Err(Error::Truncated);
        }
        let ts = read_u32_be(bytes, pos);
        let t = read_u16_be(bytes, pos + 4);
        let s = read_u16_be(bytes, pos + 6);
        let length = read_u32_be(bytes, pos + 8);
        let mrt_type = match MRTType::from_repr(t) {
            Some(mt) => mt,
            None => {
                return Err(Error::BadMrtType(t));
            },
        };
        let mrt_subtype = match MRTSubType::from_repr(s) {
            Some(ms) => ms,
            None => {
                return Err(Error::BadMrtSubtype(s));
            },
        };
        Ok((MRTHeader { ts, mrt_type, mrt_subtype, length }, pos + 12))
    }
}

} // verus!
