//! One RIB IPv4-unicast message: sequence number, the announced prefix, and
//! the per-peer route entries for it. The prefix occupies only
//! `ceil(prefix_length / 8)` bytes on the wire; unread low-order bytes of the
//! 4-byte address are zero.

use vstd::prelude::*;
use crate::bytes::{be16, be32, read_u16_be, read_u32_be, read_u8};
use crate::error::Error;
use crate::peer_index_table::{PeerEntry, PeerIndexTable};
use crate::rib_entry::{spec_rib_entry, RibEntry, RibEntryView};

verus! {

#[derive(Debug)]
pub struct RibIpV4Unicast {
    /// The enclosing message's envelope timestamp, seconds since the epoch.
    pub time: u32,
    pub sequence_number: u32,
    /// Length of the prefix in bits, 0 to 32.
    pub prefix_len: u8,
    /// The network prefix as a 32-bit value, wire bytes in the high-order
    /// positions and unread low-order bytes zero.
    pub prefix: u32,
    pub entry_count: u16,
    pub rib_entries: Vec<RibEntry>,
}

pub struct RibIpV4UnicastView {
    pub time: u32,
    pub sequence_number: u32,
    pub prefix_len: u8,
    pub prefix: u32,
    pub entry_count: u16,
    pub rib_entries: Seq<RibEntryView>,
}

impl View for RibIpV4Unicast {
    type V = RibIpV4UnicastView;

    open spec fn view(&self) -> RibIpV4UnicastView {
        RibIpV4UnicastView {
            time: self.time,
            sequence_number: self.sequence_number,
            prefix_len: self.prefix_len,
            prefix: self.prefix,
            entry_count: self.entry_count,
            rib_entries: self.rib_entries@.map_values(|e: RibEntry| e@),
        }
    }
}

/// The 32-bit prefix value made of the `nbytes` wire bytes at `pos` in the
/// high-order positions, the remaining low-order bytes zero.
pub open spec fn spec_prefix(b: Seq<u8>, pos: int, nbytes: int) -> u32 {
    if nbytes <= 0 {
        0
    } else if nbytes == 1 {
        (b[pos] as int * 0x100_0000) as u32
    } else if nbytes == 2 {
        (be16(b, pos) as int * 0x1_0000) as u32
    } else if nbytes == 3 {
        (be16(b, pos) as int * 0x1_0000 + b[pos + 2] as int * 0x100) as u32
    } else {
        be32(b, pos)
    }
}

/// What decoding `count` route entries in order starting at `pos` yields: the
/// entries and the position after the last one, or the first entry's error.
pub open spec fn spec_rib_entries(b: Seq<u8>, pos: int, count: int, peers: Seq<PeerEntry>) -> Result<
    (Seq<RibEntryView>, int),
    Error,
>
    decreases count,
{
    if count <= 0 {
        Ok((Seq::empty(), pos))
    } else {
        match spec_rib_entry(b, pos, peers) {
            Err(e) => Err(e),
            Ok((entry, next)) => match spec_rib_entries(b, next, count - 1, peers) {
                Err(e) => Err(e),
                Ok((rest, end)) => Ok((seq![entry] + rest, end)),
            },
        }
    }
}

/// What decoding a whole RIB IPv4-unicast payload at `pos` yields: sequence
/// number, prefix length (0 to 32, anything larger is rejected with its
/// value), `ceil(prefix_len / 8)` prefix bytes, then `entry_count` route
/// entries decoded against `peers`.
pub open spec fn spec_rib_ipv4_unicast(
    b: Seq<u8>,
    pos: int,
    peers: Seq<PeerEntry>,
    time: u32,
) -> Result<(RibIpV4UnicastView, int), Error> {
    if b.len() - pos < 5 {
        Err(Error::Truncated)
    } else {
        let prefix_len = b[pos + 4];
        if prefix_len > 32 {
            Err(Error::InvalidPrefixLength(prefix_len))
        } else {
            let nbytes = (prefix_len + 7) as int / 8;
            if b.len() - (pos + 5) < nbytes {
                Err(Error::Truncated)
            } else {
                let count_pos = pos + 5 + nbytes;
                if b.len() - count_pos < 2 {
                    Err(Error::Truncated)
                } else {
                    let entry_count = be16(b, count_pos);
                    match spec_rib_entries(b, count_pos + 2, entry_count as int, peers) {
                        Err(e) => Err(e),
                        Ok((entries, end)) => Ok(
                            (
                                RibIpV4UnicastView {
                                    time,
                                    sequence_number: be32(b, pos),
                                    prefix_len,
                                    prefix: spec_prefix(b, pos + 5, nbytes),
                                    entry_count,
                                    rib_entries: entries,
                                },
                                end,
                            ),
                        ),
                    }
                }
            }
        }
    }
}

impl RibIpV4Unicast {
    /// Decode a whole RIB IPv4-unicast payload at `pos` against the peer table
    /// in force, carrying the enclosing envelope's timestamp. The first failing
    /// entry's error fails the message.
    #[verifier::loop_isolation(false)]
    pub fn from_reader(
        bytes: &[u8],
        pos: usize,
        peer_index_table: &PeerIndexTable,
        time: u32,
    ) -> (r: Result<(RibIpV4Unicast, usize), Error>)
        requires
            pos <= bytes@.len(),
        ensures
            match r {
                Ok((m, n)) => spec_rib_ipv4_unicast(
                    bytes@,
                    pos as int,
                    peer_index_table@.entries,
                    time,
                ) == Ok::<_, Error>((m@, n as int)) && m@.rib_entries.len() == m.entry_count,
                Err(e) => spec_rib_ipv4_unicast(bytes@, pos as int, peer_index_table@.entries, time)
                    == Err::<(RibIpV4UnicastView, int), _>(e),
            },
    {
        proof {
            vstd::slice::axiom_spec_len(bytes);
        }
        if bytes.len() - pos < 5 {
            return Err(Error::Truncated);
        }
        let sequence_number = read_u32_be(bytes, pos);
        let prefix_len = read_u8(bytes, pos + 4);
        if prefix_len > 32 {
            return Err(Error::InvalidPrefixLength(prefix_len));
        }
        let nbytes = ((prefix_len + 7) / 8) as usize;
        if bytes.len() - (pos + 5) < nbytes {
            return Err(Error::Truncated);
        }
        let prefix: u32 = if nbytes == 0 {
            0
        } else if nbytes == 1 {
            read_u8(bytes, pos + 5) as u32 * 0x100_0000
        } else if nbytes == 2 {
            read_u16_be(bytes, pos + 5) as u32 * 0x1_0000
        } else if nbytes == 3 {
            read_u16_be(bytes, pos + 5) as u32 * 0x1_0000 + read_u8(bytes, pos + 7) as u32 * 0x100
        } else {
            read_u32_be(bytes, pos + 5)
        };
        let count_pos = pos + 5 + nbytes;
        if bytes.len() - count_pos < 2 {
            return Err(Error::Truncated);
        }
        let entry_count = read_u16_be(bytes, count_pos);
        let mut rib_entries: Vec<RibEntry> = Vec::new();
        let mut cur = count_pos + 2;
        let ghost entries_start = count_pos + 2;
        let mut i: u16 = 0;
        while i < entry_count
            invariant
                i <= entry_count,
                rib_entries@.len() == i as int,
                cur <= bytes@.len(),
                spec_rib_entries(
                    bytes@,
                    entries_start as int,
                    entry_count as int,
                    peer_index_table@.entries,
                ) == (match spec_rib_entries(
                    bytes@,
                    cur as int,
                    entry_count as int - i as int,
                    peer_index_table@.entries,
                ) {
                    Err(e) => Err::<(Seq<RibEntryView>, int), Error>(e),
                    Ok((rest, end)) => Ok(
                        (rib_entries@.map_values(|e: RibEntry| e@) + rest, end),
                    ),
                }),
            decreases entry_count as int - i as int,
        {
            let (entry, next) = match RibEntry::from_reader(bytes, cur, peer_index_table) {
                Ok(en) => en,
                Err(e) => {
                    return Err(e);
                },
            };
            let ghost before = rib_entries@.map_values(|e: RibEntry| e@);
            rib_entries.push(entry);
            proof {
                let rem = entry_count as int - i as int;
                assert(rib_entries@.map_values(|e: RibEntry| e@) =~= before.push(entry@));
                if spec_rib_entries(bytes@, next as int, rem - 1, peer_index_table@.entries)
                    is Ok {
                    let (rest, _end) = spec_rib_entries(
                        bytes@,
                        next as int,
                        rem - 1,
                        peer_index_table@.entries,
                    )->Ok_0;
                    assert(before + (seq![entry@] + rest) =~= before.push(entry@) + rest);
                }
            }
            cur = next;
            i = i + 1;
        }
        proof {
            assert(rib_entries@.map_values(|e: RibEntry| e@) + Seq::<RibEntryView>::empty()
                =~= rib_entries@.map_values(|e: RibEntry| e@));
        }
        Ok(
            (
                RibIpV4Unicast {
                    time,
                    sequence_number,
                    prefix_len,
                    prefix,
                    entry_count,
                    rib_entries,
                },
                cur,
            ),
        )
    }
}

} // verus!
