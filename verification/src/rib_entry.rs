//! One per-peer route record: peer reference, origination time, and the walk
//! over its attribute block. The walk always advances by each attribute's
//! declared header-plus-body footprint, so one malformed or unrecognized
//! attribute never desynchronizes the stream; it is merely left out of the
//! entry. The whole entry consumes exactly `8 + attribute_block_length` bytes.

use vstd::prelude::*;
use crate::bgp_attribute::{
    spec_aggregator, spec_as_path, spec_attr_raw, spec_community, spec_large_community,
    spec_multi_exit_disc, spec_next_hop, spec_origin, attr_raw, AsPathView, BgpAggregator,
    BgpAsPath, BgpCommunity, BgpLargeCommunity, BgpMultiExitDisc, BgpNextHop, BgpOrigin,
    BgpOriginType,
};
use crate::bytes::{be16, be32, read_u16_be, read_u32_be};
use crate::error::Error;
use crate::peer_index_table::{IpAddress, PeerEntry, PeerIndexTable};

verus! {

/// At most one instance of each recognized attribute variant; when a variant
/// appears twice in one block, the last successfully decoded one wins.
pub struct AttrSlots {
    pub origin: Option<BgpOriginType>,
    pub as_path: Option<AsPathView>,
    pub next_hop: Option<u32>,
    pub community: Option<Seq<(u16, u16)>>,
    pub large_community: Option<Seq<(u32, u32, u32)>>,
    pub multi_exit_disc: Option<u32>,
    pub aggregator: Option<BgpAggregator>,
}

pub open spec fn empty_slots() -> AttrSlots {
    AttrSlots {
        origin: None,
        as_path: None,
        next_hop: None,
        community: None,
        large_community: None,
        multi_exit_disc: None,
        aggregator: None,
    }
}

/// One attribute's effect on the slots. The body must decode successfully and
/// lie within both its declared length and the attribute block (`limit`);
/// otherwise, and for every type code without a slot, the slots are unchanged.
pub open spec fn spec_update_slot(
    b: Seq<u8>,
    code: u8,
    body: int,
    len: u16,
    limit: int,
    acc: AttrSlots,
) -> AttrSlots {
    if code == 1 {
        match spec_origin(b, body) {
            Ok((v, end)) => if end <= limit && end <= body + len {
                AttrSlots { origin: Some(v), ..acc }
            } else {
                acc
            },
            Err(_) => acc,
        }
    } else if code == 2 {
        match spec_as_path(b, body) {
            Ok((v, end)) => if end <= limit && end <= body + len {
                AttrSlots { as_path: Some(v), ..acc }
            } else {
                acc
            },
            Err(_) => acc,
        }
    } else if code == 3 {
        match spec_next_hop(b, body) {
            Ok((v, end)) => if end <= limit && end <= body + len {
                AttrSlots { next_hop: Some(v), ..acc }
            } else {
                acc
            },
            Err(_) => acc,
        }
    } else if code == 4 {
        match spec_multi_exit_disc(b, body) {
            Ok((v, end)) => if end <= limit && end <= body + len {
                AttrSlots { multi_exit_disc: Some(v), ..acc }
            } else {
                acc
            },
            Err(_) => acc,
        }
    } else if code == 7 {
        match spec_aggregator(b, body) {
            Ok((v, end)) => if end <= limit && end <= body + len {
                AttrSlots { aggregator: Some(v), ..acc }
            } else {
                acc
            },
            Err(_) => acc,
        }
    } else if code == 8 {
        match spec_community(b, body, len) {
            Ok((v, end)) => if end <= limit {
                AttrSlots { community: Some(v), ..acc }
            } else {
                acc
            },
            Err(_) => acc,
        }
    } else if code == 32 {
        match spec_large_community(b, body, len) {
            Ok((v, end)) => if end <= limit {
                AttrSlots { large_community: Some(v), ..acc }
            } else {
                acc
            },
            Err(_) => acc,
        }
    } else {
        acc
    }
}

/// The walk over an attribute block: starting from `acc`, decode one header at
/// `pos`, apply the attribute to the slots, advance by the declared footprint,
/// and repeat while still inside the block. A header that does not fit in the
/// remaining block ends the walk.
pub open spec fn spec_walk(b: Seq<u8>, pos: int, limit: int, acc: AttrSlots) -> AttrSlots
    decreases limit - pos,
{
    if pos >= limit {
        acc
    } else {
        match spec_attr_raw(b, pos, limit) {
            None => acc,
            Some((flag, code, len, body)) => {
                let acc2 = spec_update_slot(b, code, body, len, limit, acc);
                if body + len >= limit {
                    acc2
                } else {
                    spec_walk(b, body + len, limit, acc2)
                }
            },
        }
    }
}

#[derive(Debug)]
pub struct RibEntry {
    pub peer_index: u16,
    /// Resolved from the peer table at decode time.
    pub peer_asn: u32,
    /// Resolved from the peer table at decode time.
    pub peer_ip: IpAddress,
    /// Seconds since the epoch.
    pub originated_time: u32,
    /// Declared length of the attribute block.
    pub attribute_length: u16,
    pub bgp_origin: Option<BgpOrigin>,
    pub bgp_as_path: Option<BgpAsPath>,
    pub bgp_next_hop: Option<BgpNextHop>,
    pub bgp_community: Option<BgpCommunity>,
    pub bgp_large_community: Option<BgpLargeCommunity>,
    pub bgp_multi_exit_disc: Option<BgpMultiExitDisc>,
    pub bgp_aggregator: Option<BgpAggregator>,
}

pub struct RibEntryView {
    pub peer_index: u16,
    pub peer_asn: u32,
    pub peer_ip: IpAddress,
    pub originated_time: u32,
    pub attribute_length: u16,
    pub attrs: AttrSlots,
}

impl View for RibEntry {
    type V = RibEntryView;

    open spec fn view(&self) -> RibEntryView {
        RibEntryView {
            peer_index: self.peer_index,
            peer_asn: self.peer_asn,
            peer_ip: self.peer_ip,
            originated_time: self.originated_time,
            attribute_length: self.attribute_length,
            attrs: AttrSlots {
                origin: match self.bgp_origin {
                    Some(v) => Some(v.0),
                    None => None,
                },
                as_path: match self.bgp_as_path {
                    Some(v) => Some(v@),
                    None => None,
                },
                next_hop: match self.bgp_next_hop {
                    Some(v) => Some(v.0),
                    None => None,
                },
                community: match self.bgp_community {
                    Some(v) => Some(v@),
                    None => None,
                },
                large_community: match self.bgp_large_community {
                    Some(v) => Some(v@),
                    None => None,
                },
                multi_exit_disc: match self.bgp_multi_exit_disc {
                    Some(v) => Some(v.0),
                    None => None,
                },
                aggregator: self.bgp_aggregator,
            },
        }
    }
}

/// What decoding one route entry at `pos` against `peers` yields: the fixed
/// 8-byte header (peer index, origination time, attribute block length), the
/// resolved peer identity, and the slots the attribute walk fills. The entry
/// occupies exactly `8 + attribute_length` bytes. An out-of-range peer index
/// is reported with its value, before the attribute block is touched.
pub open spec fn spec_rib_entry(b: Seq<u8>, pos: int, peers: Seq<PeerEntry>) -> Result<
    (RibEntryView, int),
    Error,
> {
    if b.len() - pos < 8 {
        Err(Error::Truncated)
    } else {
        let peer_index = be16(b, pos);
        if peer_index as int >= peers.len() {
            Err(Error::InvalidPeerIndex(peer_index))
        } else {
            let attribute_length = be16(b, pos + 6);
            if b.len() - (pos + 8) < attribute_length {
                Err(Error::Truncated)
            } else {
                Ok(
                    (
                        RibEntryView {
                            peer_index,
                            peer_asn: peers[peer_index as int].peer_asn,
                            peer_ip: peers[peer_index as int].peer_ip,
                            originated_time: be32(b, pos + 2),
                            attribute_length,
                            attrs: spec_walk(
                                b,
                                pos + 8,
                                pos + 8 + attribute_length,
                                empty_slots(),
                            ),
                        },
                        pos + 8 + attribute_length,
                    ),
                )
            }
        }
    }
}

impl RibEntry {
    /// Decode one route entry at `pos`, resolving the peer from the table in
    /// force. A `peer_index` at or past the table's length always yields
    /// `InvalidPeerIndex`; on success exactly `8 + attribute_length` bytes are
    /// consumed, whatever the attribute block holds.
    #[verifier::loop_isolation(false)]
    pub fn from_reader(bytes: &[u8], pos: usize, peer_index_table: &PeerIndexTable) -> (r: Result<
        (RibEntry, usize),
        Error,
    >)
        requires
            pos <= bytes@.len(),
        ensures
            match r {
                Ok((e, n)) => spec_rib_entry(bytes@, pos as int, peer_index_table@.entries)
                    == Ok::<_, Error>((e@, n as int)),
                Err(e) => spec_rib_entry(bytes@, pos as int, peer_index_table@.entries) == Err::<
                    (RibEntryView, int),
                    _,
                >(e),
            },
            // The peer-index bound: an index at or past the table length is
            // always rejected, with its value.
            bytes@.len() - pos >= 8 && be16(bytes@, pos as int) as int
                >= peer_index_table@.entries.len() ==> r == Err::<(RibEntry, usize), Error>(
                Error::InvalidPeerIndex(be16(bytes@, pos as int)),
            ),
    {
        proof {
            vstd::slice::axiom_spec_len(bytes);
        }
        if bytes.len() - pos < 8 {
            return Err(Error::Truncated);
        }
        let peer_index = read_u16_be(bytes, pos);
        let originated_time = read_u32_be(bytes, pos + 2);
        let attribute_length = read_u16_be(bytes, pos + 6);
        if peer_index as usize >= peer_index_table.entries.len() {
            return Err(Error::InvalidPeerIndex(peer_index));
        }
        if bytes.len() - (pos + 8) < attribute_length as usize {
            return Err(Error::Truncated);
        }
        let peer = peer_index_table.entries[peer_index as usize];
        let mut entry = RibEntry {
            peer_index,
            peer_asn: peer.peer_asn,
            peer_ip: peer.peer_ip,
            originated_time,
            attribute_length,
            bgp_origin: None,
            bgp_as_path: None,
            bgp_next_hop: None,
            bgp_community: None,
            bgp_large_community: None,
            bgp_multi_exit_disc: None,
            bgp_aggregator: None,
        };
        let block_start = pos + 8;
        let block_end = block_start + attribute_length as usize;
        let mut cur = block_start;
        while cur < block_end
            invariant
                block_start <= cur <= block_end,
                entry.peer_index == peer_index,
                entry.peer_asn == peer.peer_asn,
                entry.peer_ip == peer.peer_ip,
                entry.originated_time == originated_time,
                entry.attribute_length == attribute_length,
                spec_walk(bytes@, block_start as int, block_end as int, empty_slots())
                    == spec_walk(bytes@, cur as int, block_end as int, entry@.attrs),
            decreases block_end - cur,
        {
            match attr_raw(bytes, cur, block_end) {
                None => {
                    // The header does not fit in the remaining block: the walk
                    // ends, and the entry still consumes the whole block.
                    cur = block_end;
                },
                Some((_flag, code, len, body)) => {
                    let ghost acc0 = entry@.attrs;
                    if code == 1 {
                        match BgpOrigin::from_reader(bytes, body) {
                            Ok((v, end)) => {
                                proof {
                                    assert(end >= body);
                                }
                                if end <= block_end && end - body <= len as usize {
                                    entry.bgp_origin = Some(v);
                                }
                            },
                            Err(_) => {},
                        }
                    } else if code == 2 {
                        match BgpAsPath::from_reader(bytes, body) {
                            Ok((v, end)) => {
                                proof {
                                    assert(end >= body);
                                }
                                if end <= block_end && end - body <= len as usize {
                                    entry.bgp_as_path = Some(v);
                                }
                            },
                            Err(_) => {},
                        }
                    } else if code == 3 {
                        match BgpNextHop::from_reader(bytes, body) {
                            Ok((v, end)) => {
                                proof {
                                    assert(end >= body);
                                }
                                if end <= block_end && end - body <= len as usize {
                                    entry.bgp_next_hop = Some(v);
                                }
                            },
                            Err(_) => {},
                        }
                    } else if code == 4 {
                        match BgpMultiExitDisc::from_reader(bytes, body) {
                            Ok((v, end)) => {
                                proof {
                                    assert(end >= body);
                                }
                                if end <= block_end && end - body <= len as usize {
                                    entry.bgp_multi_exit_disc = Some(v);
                                }
                            },
                            Err(_) => {},
                        }
                    } else if code == 7 {
                        match BgpAggregator::from_reader(bytes, body) {
                            Ok((v, end)) => {
                                proof {
                                    assert(end >= body);
                                }
                                if end <= block_end && end - body <= len as usize {
                                    entry.bgp_aggregator = Some(v);
                                }
                            },
                            Err(_) => {},
                        }
                    } else if code == 8 {
                        match BgpCommunity::from_reader(bytes, body, len) {
                            Ok((v, end)) => {
                                if end <= block_end {
                                    entry.bgp_community = Some(v);
                                }
                            },
                            Err(_) => {},
                        }
                    } else if code == 32 {
                        match BgpLargeCommunity::from_reader(bytes, body, len) {
                            Ok((v, end)) => {
                                if end <= block_end {
                                    entry.bgp_large_community = Some(v);
                                }
                            },
                            Err(_) => {},
                        }
                    }
                    proof {
                        assert(entry@.attrs == spec_update_slot(
                            bytes@,
                            code,
                            body as int,
                            len,
                            block_end as int,
                            acc0,
                        ));
                    }
                    if block_end - body <= len as usize {
                        // The declared body reaches or crosses the block end:
                        // this attribute is the last one of the walk.
                        cur = block_end;
                    } else {
                        cur = body + len as usize;
                    }
                },
            }
        }
        Ok((entry, block_end))
    }
}

} // verus!
