//! The TLV attribute codec: one attribute header (flag, type code, and a
//! length field whose own width depends on flag bit 0x10), plus the
//! type-specific bodies of the recognized attributes.

use vstd::prelude::*;
use crate::bytes::{be16, be32, read_u16_be, read_u32_be, read_u8};
use crate::error::Error;

verus! {

#[derive(Debug, Clone, Copy, PartialEq, Eq, Structural)]
pub enum BgpOriginType {
    Igp,
    Egp,
    Incomplete,
}

#[derive(Debug, Clone, Copy, PartialEq, Eq, Structural)]
pub enum BgpAttributeType {
    Origin,
    AsPath,
    NextHop,
    MultiExitDisc,
    AtomicAggregate,
    Aggregator,
    Community,
    LargeCommunity,
    Otc,
    BfdDiscriminator,
}

/// The closed mapping from an attribute type code to its meaning.
pub open spec fn spec_attr_type(v: u8) -> Option<BgpAttributeType> {
    if v == 1 {
        Some(BgpAttributeType::Origin)
    } else if v == 2 {
        Some(BgpAttributeType::AsPath)
    } else if v == 3 {
        Some(BgpAttributeType::NextHop)
    } else if v == 4 {
        Some(BgpAttributeType::MultiExitDisc)
    } else if v == 6 {
        Some(BgpAttributeType::AtomicAggregate)
    } else if v == 7 {
        Some(BgpAttributeType::Aggregator)
    } else if v == 8 {
        Some(BgpAttributeType::Community)
    } else if v == 32 {
        Some(BgpAttributeType::LargeCommunity)
    } else if v == 35 {
        Some(BgpAttributeType::Otc)
    } else if v == 38 {
        Some(BgpAttributeType::BfdDiscriminator)
    } else {
        None
    }
}

/// The closed mapping from an origin code to its meaning.
pub open spec fn spec_origin_type(v: u8) -> Option<BgpOriginType> {
    if v == 0 {
        Some(BgpOriginType::Igp)
    } else if v == 1 {
        Some(BgpOriginType::Egp)
    } else if v == 2 {
        Some(BgpOriginType::Incomplete)
    } else {
        None
    }
}

impl BgpAttributeType {
    pub fn from_repr(v: u8) -> (r: Option<BgpAttributeType>)
        ensures
            r == spec_attr_type(v),
    {
        match v {
            1 => Some(BgpAttributeType::Origin),
            2 => Some(BgpAttributeType::AsPath),
            3 => Some(BgpAttributeType::NextHop),
            4 => Some(BgpAttributeType::MultiExitDisc),
            6 => Some(BgpAttributeType::AtomicAggregate),
            7 => Some(BgpAttributeType::Aggregator),
            8 => Some(BgpAttributeType::Community),
            32 => Some(BgpAttributeType::LargeCommunity),
            35 => Some(BgpAttributeType::Otc),
            38 => Some(BgpAttributeType::BfdDiscriminator),
            _ => None,
        }
    }
}

impl BgpOriginType {
    pub fn from_repr(v: u8) -> (r: Option<BgpOriginType>)
        ensures
            r == spec_origin_type(v),
    {
        match v {
            0 => Some(BgpOriginType::Igp),
            1 => Some(BgpOriginType::Egp),
            2 => Some(BgpOriginType::Incomplete),
            _ => None,
        }
    }
}

#[derive(Debug, Clone, Copy, PartialEq, Eq, Structural)]
pub struct BgpOrigin(pub BgpOriginType);

#[derive(Debug, Clone, Copy, PartialEq, Eq, Structural)]
pub struct BgpMultiExitDisc(pub u32);

/// An IPv4 next hop, the four wire bytes read big-endian.
#[derive(Debug, Clone, Copy, PartialEq, Eq, Structural)]
pub struct BgpNextHop(pub u32);

#[derive(Debug, Clone, Copy, PartialEq, Eq, Structural)]
pub struct BgpAggregator {
    pub asn: u32,
    /// The aggregator's IPv4 address, read big-endian.
    pub ip: u32,
}

#[derive(Debug, PartialEq, Eq)]
pub struct BgpCommunity(pub Vec<(u16, u16)>);

#[derive(Debug, PartialEq, Eq)]
pub struct BgpLargeCommunity(pub Vec<(u32, u32, u32)>);

#[derive(Debug, PartialEq, Eq)]
pub struct BgpAsPath {
    pub segment_type: u8,
    pub segments: Vec<i32>,
}

pub struct AsPathView {
    pub segment_type: u8,
    pub segments: Seq<i32>,
}

impl View for BgpAsPath {
    type V = AsPathView;

    open spec fn view(&self) -> AsPathView {
        AsPathView { segment_type: self.segment_type, segments: self.segments@ }
    }
}

impl View for BgpCommunity {
    type V = Seq<(u16, u16)>;

    open spec fn view(&self) -> Seq<(u16, u16)> {
        self.0@
    }
}

impl View for BgpLargeCommunity {
    type V = Seq<(u32, u32, u32)>;

    open spec fn view(&self) -> Seq<(u32, u32, u32)> {
        self.0@
    }
}

#[derive(Debug, Clone, Copy, PartialEq, Eq, Structural)]
pub struct BgpAttributeHeader {
    pub attribute_flag: u8,
    pub attribute_type: BgpAttributeType,
    pub attribute_length: u16,
    /// Header size plus declared body length: how far the cursor advances from
    /// the start of this attribute to the start of the next one.
    pub offset: u32,
}

/// The header's own size: 3 bytes with flag bit 0x10 clear (1-byte length
/// field), 4 bytes with it set (2-byte big-endian length field).
pub open spec fn spec_attr_header_len(flag: u8) -> int {
    if flag & 0x10 == 0 {
        3
    } else {
        4
    }
}

/// What the three raw header fields at `pos` are, read within `limit`:
/// flag byte, type code, declared body length, and the position of the body.
pub open spec fn spec_attr_raw(b: Seq<u8>, pos: int, limit: int) -> Option<(u8, u8, u16, int)> {
    if limit - pos < 2 {
        None
    } else {
        let flag = b[pos];
        if limit - pos < spec_attr_header_len(flag) {
            None
        } else {
            let length = if flag & 0x10 == 0 {
                b[pos + 2] as u16
            } else {
                be16(b, pos + 2)
            };
            Some((flag, b[pos + 1], length, pos + spec_attr_header_len(flag)))
        }
    }
}

/// Decode the raw header fields at `pos`, reading no byte at or past `limit`.
pub(crate) fn attr_raw(bytes: &[u8], pos: usize, limit: usize) -> (r: Option<(u8, u8, u16, usize)>)
    requires
        pos <= limit <= bytes@.len(),
    ensures
        match r {
            Some((flag, code, length, n)) => spec_attr_raw(bytes@, pos as int, limit as int)
                == Some((flag, code, length, n as int)),
            None => spec_attr_raw(bytes@, pos as int, limit as int) is None,
        },
{
    proof {
        vstd::slice::axiom_spec_len(bytes);
    }
    if limit - pos < 2 {
        return None;
    }
    let flag = read_u8(bytes, pos);
    let code = read_u8(bytes, pos + 1);
    if flag & 0x10 == 0 {
        if limit - pos < 3 {
            return None;
        }
        Some((flag, code, read_u8(bytes, pos + 2) as u16, pos + 3))
    } else {
        if limit - pos < 4 {
            return None;
        }
        Some((flag, code, read_u16_be(bytes, pos + 2), pos + 4))
    }
}

impl BgpAttributeHeader {
    /// Decode one attribute header at `pos`. The length field is 1 byte when
    /// flag bit 0x10 is clear and 2 bytes when it is set, so `offset`, the
    /// whole attribute's footprint, is `3 + attribute_length` respectively
    /// `4 + attribute_length`; an unrecognized type code is reported with its
    /// value.
    pub fn from_reader(bytes: &[u8], pos: usize) -> (r: Result<(BgpAttributeHeader, usize), Error>)
        requires
            pos <= bytes@.len(),
        ensures
            match spec_attr_raw(bytes@, pos as int, bytes@.len() as int) {
                None => r == Err::<(BgpAttributeHeader, usize), Error>(Error::Truncated),
                Some((flag, code, length, next)) => match spec_attr_type(code) {
                    None => r == Err::<(BgpAttributeHeader, usize), Error>(
                        Error::ParsingBgpAttribute(code),
                    ),
                    Some(t) => r == Ok::<(BgpAttributeHeader, usize), Error>(
                        (
                            BgpAttributeHeader {
                                attribute_flag: flag,
                                attribute_type: t,
                                attribute_length: length,
                                offset: (spec_attr_header_len(flag) + length) as u32,
                            },
                            next as usize,
                        ),
                    ),
                },
            },
            // The offset law: header plus declared body, 3 + N or 4 + N by flag
            // bit 0x10.
            r is Ok ==> r->Ok_0.0.offset == (if r->Ok_0.0.attribute_flag & 0x10 == 0 {
                3 + r->Ok_0.0.attribute_length as u32
            } else {
                4 + r->Ok_0.0.attribute_length as u32
            }),
            r is Ok ==> r->Ok_0.1 + r->Ok_0.0.attribute_length == pos + r->Ok_0.0.offset,
    {
        proof {
            vstd::slice::axiom_spec_len(bytes);
        }
        let (attribute_flag, code, attribute_length, next) = match attr_raw(
            bytes,
            pos,
            bytes.len(),
        ) {
            Some(raw) => raw,
            None => {
                return Err(Error::Truncated);
            },
        };
        let attribute_type = match BgpAttributeType::from_repr(code) {
            Some(t) => t,
            None => {
                return Err(Error::ParsingBgpAttribute(code));
            },
        };
        let header_len: u32 = if attribute_flag & 0x10 == 0 {
            3
        } else {
            4
        };
        Ok(
            (
                BgpAttributeHeader {
                    attribute_flag,
                    attribute_type,
                    attribute_length,
                    offset: header_len + attribute_length as u32,
                },
                next,
            ),
        )
    }
}

/// What decoding an origin body at `pos` yields: the one byte there, mapped
/// over the closed enumeration.
pub open spec fn spec_origin(b: Seq<u8>, pos: int) -> Result<(BgpOriginType, int), Error> {
    if b.len() - pos < 1 {
        Err(Error::Truncated)
    } else {
        match spec_origin_type(b[pos]) {
            None => Err(Error::InvalidBgpOriginType(b[pos])),
            Some(t) => Ok((t, pos + 1)),
        }
    }
}

/// Big-endian value of the four bytes at `i`, reinterpreted as a signed path
/// element.
pub open spec fn be_i32(b: Seq<u8>, i: int) -> i32 {
    be32(b, i) as i32
}

/// What decoding an AS-path body at `pos` yields: segment type, element count
/// N, then N 4-byte path elements.
pub open spec fn spec_as_path(b: Seq<u8>, pos: int) -> Result<(AsPathView, int), Error> {
    if b.len() - pos < 2 {
        Err(Error::Truncated)
    } else {
        let count = b[pos + 1] as int;
        if b.len() - (pos + 2) < 4 * count {
            Err(Error::Truncated)
        } else {
            Ok(
                (
                    AsPathView {
                        segment_type: b[pos],
                        segments: Seq::new(count as nat, |k: int| be_i32(b, pos + 2 + 4 * k)),
                    },
                    pos + 2 + 4 * count,
                ),
            )
        }
    }
}

/// What decoding a next-hop body at `pos` yields: one 4-byte IPv4 address.
pub open spec fn spec_next_hop(b: Seq<u8>, pos: int) -> Result<(u32, int), Error> {
    if b.len() - pos < 4 {
        Err(Error::Truncated)
    } else {
        Ok((be32(b, pos), pos + 4))
    }
}

/// What decoding a multi-exit-discriminator body at `pos` yields: one 4-byte
/// metric.
pub open spec fn spec_multi_exit_disc(b: Seq<u8>, pos: int) -> Result<(u32, int), Error> {
    if b.len() - pos < 4 {
        Err(Error::Truncated)
    } else {
        Ok((be32(b, pos), pos + 4))
    }
}

/// What decoding an aggregator body at `pos` yields: a 4-byte ASN followed by
/// a 4-byte IPv4 address.
pub open spec fn spec_aggregator(b: Seq<u8>, pos: int) -> Result<(BgpAggregator, int), Error> {
    if b.len() - pos < 8 {
        Err(Error::Truncated)
    } else {
        Ok((BgpAggregator { asn: be32(b, pos), ip: be32(b, pos + 4) }, pos + 8))
    }
}

/// What decoding a community body of declared length `length` at `pos` yields:
/// exactly `length / 4` pairs; a trailing incomplete group is dropped.
pub open spec fn spec_community(b: Seq<u8>, pos: int, length: u16) -> Result<
    (Seq<(u16, u16)>, int),
    Error,
> {
    let count = length as int / 4;
    if b.len() - pos < 4 * count {
        Err(Error::Truncated)
    } else {
        Ok(
            (
                Seq::new(count as nat, |j: int| (be16(b, pos + 4 * j), be16(b, pos + 4 * j + 2))),
                pos + 4 * count,
            ),
        )
    }
}

/// What decoding a large-community body of declared length `length` at `pos`
/// yields: exactly `length / 12` triples; a trailing incomplete group is
/// dropped.
pub open spec fn spec_large_community(b: Seq<u8>, pos: int, length: u16) -> Result<
    (Seq<(u32, u32, u32)>, int),
    Error,
> {
    let count = length as int / 12;
    if b.len() - pos < 12 * count {
        Err(Error::Truncated)
    } else {
        Ok(
            (
                Seq::new(
                    count as nat,
                    |j: int|
                        (
                            be32(b, pos + 12 * j),
                            be32(b, pos + 12 * j + 4),
                            be32(b, pos + 12 * j + 8),
                        ),
                ),
                pos + 12 * count,
            ),
        )
    }
}

impl BgpOrigin {
    /// Decode an origin body: one byte, an out-of-range value is an error
    /// local to this attribute.
    pub fn from_reader(bytes: &[u8], pos: usize) -> (r: Result<(BgpOrigin, usize), Error>)
        requires
            pos <= bytes@.len(),
        ensures
            match r {
                Ok((v, n)) => spec_origin(bytes@, pos as int) == Ok::<_, Error>((v.0, n as int)),
                Err(e) => spec_origin(bytes@, pos as int) == Err::<(BgpOriginType, int), _>(e),
            },
    {
        proof {
            vstd::slice::axiom_spec_len(bytes);
        }
        if bytes.len() - pos < 1 {
            return Err(Error::Truncated);
        }
        let v = read_u8(bytes, pos);
        match BgpOriginType::from_repr(v) {
            Some(t) => Ok((BgpOrigin(t), pos + 1)),
            None => Err(Error::InvalidBgpOriginType(v)),
        }
    }
}

impl BgpAsPath {
    /// Decode an AS-path body: 1-byte segment type, 1-byte element count N,
    /// then N 4-byte path elements.
    #[verifier::loop_isolation(false)]
    pub fn from_reader(bytes: &[u8], pos: usize) -> (r: Result<(BgpAsPath, usize), Error>)
        requires
            pos <= bytes@.len(),
        ensures
            match r {
                Ok((v, n)) => spec_as_path(bytes@, pos as int) == Ok::<_, Error>((v@, n as int)),
                Err(e) => spec_as_path(bytes@, pos as int) == Err::<(AsPathView, int), _>(e),
            },
    {
        proof {
            vstd::slice::axiom_spec_len(bytes);
        }
        if bytes.len() - pos < 2 {
            return Err(Error::Truncated);
        }
        let segment_type = read_u8(bytes, pos);
        let count = read_u8(bytes, pos + 1) as usize;
        if (bytes.len() - (pos + 2)) / 4 < count {
            return Err(Error::Truncated);
        }
        let mut segments: Vec<i32> = Vec::new();
        let mut i: usize = 0;
        while i < count
            invariant
                i <= count,
                segments@.len() == i as int,
                forall|k: int| 0 <= k < i ==> segments@[k] == be_i32(bytes@, pos + 2 + 4 * k),
            decreases count - i,
        {
            let word = read_u32_be(bytes, pos + 2 + 4 * i);
            segments.push(#[verifier::truncate] (word as i32));
            i = i + 1;
        }
        proof {
            assert(segments@ =~= Seq::new(count as nat, |k: int| be_i32(bytes@, pos + 2 + 4 * k)));
        }
        Ok((BgpAsPath { segment_type, segments }, pos + 2 + 4 * count))
    }
}

impl BgpNextHop {
    /// Decode a next-hop body: 4 bytes as an IPv4 address.
    pub fn from_reader(bytes: &[u8], pos: usize) -> (r: Result<(BgpNextHop, usize), Error>)
        requires
            pos <= bytes@.len(),
        ensures
            match r {
                Ok((v, n)) => spec_next_hop(bytes@, pos as int) == Ok::<_, Error>((v.0, n as int)),
                Err(e) => spec_next_hop(bytes@, pos as int) == Err::<(u32, int), _>(e),
            },
    {
        proof {
            vstd::slice::axiom_spec_len(bytes);
        }
        if bytes.len() - pos < 4 {
            return Err(Error::Truncated);
        }
        Ok((BgpNextHop(read_u32_be(bytes, pos)), pos + 4))
    }
}

impl BgpMultiExitDisc {
    /// Decode a multi-exit-discriminator body: one 32-bit metric.
    pub fn from_reader(bytes: &[u8], pos: usize) -> (r: Result<(BgpMultiExitDisc, usize), Error>)
        requires
            pos <= bytes@.len(),
        ensures
            match r {
                Ok((v, n)) => spec_multi_exit_disc(bytes@, pos as int) == Ok::<_, Error>(
                    (v.0, n as int),
                ),
                Err(e) => spec_multi_exit_disc(bytes@, pos as int) == Err::<(u32, int), _>(e),
            },
    {
        proof {
            vstd::slice::axiom_spec_len(bytes);
        }
        if bytes.len() - pos < 4 {
            return Err(Error::Truncated);
        }
        Ok((BgpMultiExitDisc(read_u32_be(bytes, pos)), pos + 4))
    }
}

impl BgpAggregator {
    /// Decode an aggregator body: 32-bit ASN followed by a 4-byte IPv4
    /// address.
    pub fn from_reader(bytes: &[u8], pos: usize) -> (r: Result<(BgpAggregator, usize), Error>)
        requires
            pos <= bytes@.len(),
        ensures
            match r {
                Ok((v, n)) => spec_aggregator(bytes@, pos as int) == Ok::<_, Error>((v, n as int)),
                Err(e) => spec_aggregator(bytes@, pos as int) == Err::<(BgpAggregator, int), _>(e),
            },
    {
        proof {
            vstd::slice::axiom_spec_len(bytes);
        }
        if bytes.len() - pos < 8 {
            return Err(Error::Truncated);
        }
        Ok((BgpAggregator { asn: read_u32_be(bytes, pos), ip: read_u32_be(bytes, pos + 4) }, pos + 8))
    }
}

impl BgpCommunity {
    /// Decode a community body of declared length `length`: exactly
    /// `length / 4` pairs of 16-bit values; a trailing incomplete group is
    /// dropped.
    #[verifier::loop_isolation(false)]
    pub fn from_reader(bytes: &[u8], pos: usize, length: u16) -> (r: Result<
        (BgpCommunity, usize),
        Error,
    >)
        requires
            pos <= bytes@.len(),
        ensures
            match r {
                Ok((v, n)) => spec_community(bytes@, pos as int, length) == Ok::<_, Error>(
                    (v@, n as int),
                ),
                Err(e) => spec_community(bytes@, pos as int, length) == Err::<
                    (Seq<(u16, u16)>, int),
                    _,
                >(e),
            },
            // The arity law: a body of declared length 4 * k decodes to
            // exactly k pairs.
            r is Ok ==> r->Ok_0.0@.len() == length as int / 4,
    {
        proof {
            vstd::slice::axiom_spec_len(bytes);
        }
        let count = (length / 4) as usize;
        if (bytes.len() - pos) / 4 < count {
            return Err(Error::Truncated);
        }
        let mut community: Vec<(u16, u16)> = Vec::new();
        let mut i: usize = 0;
        while i < count
            invariant
                i <= count,
                community@.len() == i as int,
                forall|j: int|
                    0 <= j < i ==> community@[j] == (
                        be16(bytes@, pos + 4 * j),
                        be16(bytes@, pos + 4 * j + 2),
                    ),
            decreases count - i,
        {
            let asn = read_u16_be(bytes, pos + 4 * i);
            let local = read_u16_be(bytes, pos + 4 * i + 2);
            community.push((asn, local));
            i = i + 1;
        }
        proof {
            assert(community@ =~= Seq::new(
                count as nat,
                |j: int| (be16(bytes@, pos + 4 * j), be16(bytes@, pos + 4 * j + 2)),
            ));
        }
        Ok((BgpCommunity(community), pos + 4 * count))
    }
}

impl BgpLargeCommunity {
    /// Decode a large-community body of declared length `length`: exactly
    /// `length / 12` triples of 32-bit values; a trailing incomplete group is
    /// dropped.
    #[verifier::loop_isolation(false)]
    pub fn from_reader(bytes: &[u8], pos: usize, length: u16) -> (r: Result<
        (BgpLargeCommunity, usize),
        Error,
    >)
        requires
            pos <= bytes@.len(),
        ensures
            match r {
                Ok((v, n)) => spec_large_community(bytes@, pos as int, length) == Ok::<_, Error>(
                    (v@, n as int),
                ),
                Err(e) => spec_large_community(bytes@, pos as int, length) == Err::<
                    (Seq<(u32, u32, u32)>, int),
                    _,
                >(e),
            },
            // The arity law: a body of declared length 12 * k decodes to
            // exactly k triples.
            r is Ok ==> r->Ok_0.0@.len() == length as int / 12,
    {
        proof {
            vstd::slice::axiom_spec_len(bytes);
        }
        let count = (length / 12) as usize;
        if (bytes.len() - pos) / 12 < count {
            return Err(Error::Truncated);
        }
        let mut community: Vec<(u32, u32, u32)> = Vec::new();
        let mut i: usize = 0;
        while i < count
            invariant
                i <= count,
                community@.len() == i as int,
                forall|j: int|
                    0 <= j < i ==> community@[j] == (
                        be32(bytes@, pos + 12 * j),
                        be32(bytes@, pos + 12 * j + 4),
                        be32(bytes@, pos + 12 * j + 8),
                    ),
            decreases count - i,
        {
            let global_administrator = read_u32_be(bytes, pos + 12 * i);
            let local_1 = read_u32_be(bytes, pos + 12 * i + 4);
            let local_2 = read_u32_be(bytes, pos + 12 * i + 8);
            community.push((global_administrator, local_1, local_2));
            i = i + 1;
        }
        proof {
            assert(community@ =~= Seq::new(
                count as nat,
                |j: int|
                    (
                        be32(bytes@, pos + 12 * j),
                        be32(bytes@, pos + 12 * j + 4),
                        be32(bytes@, pos + 12 * j + 8),
                    ),
            ));
        }
        Ok((BgpLargeCommunity(community), pos + 12 * count))
    }
}

} // verus!
