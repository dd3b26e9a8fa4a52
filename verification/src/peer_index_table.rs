//! The one-per-file table of BGP peers. Each entry's flag byte selects the
//! address family (bit 0: IPv6) and the ASN width on the wire (bit 1: 32-bit);
//! the decoded ASN is always held as 32 bits.

use vstd::prelude::*;
use vstd::utf8::{decode_utf8, valid_utf8};
use crate::bytes::{be128, be16, be32, read_u128_be, read_u16_be, read_u32_be, read_u8};
use crate::error::Error;

verus! {

/// A peer's address, already normalized: four wire bytes become a `V4` value,
/// sixteen become a `V6` value, both read big-endian.
#[derive(Debug, Clone, Copy, PartialEq, Eq, Structural)]
pub enum IpAddress {
    V4(u32),
    V6(u128),
}

#[derive(Debug, Clone, Copy, PartialEq, Eq, Structural)]
pub struct PeerEntry {
    pub bgp_id: u32,
    pub peer_ip: IpAddress,
    /// Always 32 bits here, zero-extended when the wire carried 16.
    pub peer_asn: u32,
}

#[derive(Debug)]
pub struct PeerIndexTable {
    pub collector_bgp_id: u32,
    pub view_name_len: u16,
    pub view_name: String,
    pub nentries: u16,
    pub entries: Vec<PeerEntry>,
}

pub struct PeerIndexTableView {
    pub collector_bgp_id: u32,
    pub view_name_len: u16,
    pub view_name: Seq<char>,
    pub nentries: u16,
    pub entries: Seq<PeerEntry>,
}

impl View for PeerIndexTable {
    type V = PeerIndexTableView;

    open spec fn view(&self) -> PeerIndexTableView {
        PeerIndexTableView {
            collector_bgp_id: self.collector_bgp_id,
            view_name_len: self.view_name_len,
            view_name: self.view_name@,
            nentries: self.nentries,
            entries: self.entries@,
        }
    }
}

/// How many bytes one peer entry with this flag byte occupies: the flag byte,
/// the 4-byte BGP id, a 4- or 16-byte address, a 2- or 4-byte ASN.
pub open spec fn spec_peer_entry_len(flags: u8) -> int {
    5 + (if flags & 0x01 == 0x01 {
        16int
    } else {
        4int
    }) + (if flags & 0x02 == 0x02 {
        4int
    } else {
        2int
    })
}

/// What decoding one peer entry at `pos` yields. Flag bit 0 selects a 16-byte
/// IPv6 address over a 4-byte IPv4 one; flag bit 1 selects a 4-byte ASN over a
/// 2-byte one, which is zero-extended.
pub open spec fn spec_peer_entry(b: Seq<u8>, pos: int) -> Result<(PeerEntry, int), Error> {
    if b.len() - pos < 1 {
        Err(Error::Truncated)
    } else {
        let flags = b[pos];
        if b.len() - pos < spec_peer_entry_len(flags) {
            Err(Error::Truncated)
        } else {
            let asn_pos = pos + 5 + (if flags & 0x01 == 0x01 {
                16int
            } else {
                4int
            });
            Ok(
                (
                    PeerEntry {
                        bgp_id: be32(b, pos + 1),
                        peer_ip: if flags & 0x01 == 0x01 {
                            IpAddress::V6(be128(b, pos + 5))
                        } else {
                            IpAddress::V4(be32(b, pos + 5))
                        },
                        peer_asn: if flags & 0x02 == 0x02 {
                            be32(b, asn_pos)
                        } else {
                            be16(b, asn_pos) as u32
                        },
                    },
                    pos + spec_peer_entry_len(flags),
                ),
            )
        }
    }
}

/// What decoding `count` peer entries in order starting at `pos` yields: the
/// entries and the position after the last one, or the first entry's error.
pub open spec fn spec_peer_entries(b: Seq<u8>, pos: int, count: int) -> Result<
    (Seq<PeerEntry>, int),
    Error,
>
    decreases count,
{
    if count <= 0 {
        Ok((Seq::empty(), pos))
    } else {
        match spec_peer_entry(b, pos) {
            Err(e) => Err(e),
            Ok((entry, next)) => match spec_peer_entries(b, next, count - 1) {
                Err(e) => Err(e),
                Ok((rest, end)) => Ok((seq![entry] + rest, end)),
            },
        }
    }
}

/// What decoding a whole peer-table payload at `pos` yields: collector BGP id,
/// the view name (exactly `view_name_len` bytes, decoded as UTF-8), and
/// `nentries` peer entries in order.
pub open spec fn spec_peer_index_table(b: Seq<u8>, pos: int) -> Result<
    (PeerIndexTableView, int),
    Error,
> {
    if b.len() - pos < 6 {
        Err(Error::Truncated)
    } else {
        let view_name_len = be16(b, pos + 4);
        if b.len() - (pos + 6) < view_name_len {
            Err(Error::Truncated)
        } else {
            let name_bytes = b.subrange(pos + 6, pos + 6 + view_name_len);
            if !valid_utf8(name_bytes) {
                Err(Error::InvalidUtf8)
            } else {
                let count_pos = pos + 6 + view_name_len;
                if b.len() - count_pos < 2 {
                    Err(Error::Truncated)
                } else {
                    let nentries = be16(b, count_pos);
                    match spec_peer_entries(b, count_pos + 2, nentries as int) {
                        Err(e) => Err(e),
                        Ok((entries, end)) => Ok(
                            (
                                PeerIndexTableView {
                                    collector_bgp_id: be32(b, pos),
                                    view_name_len,
                                    view_name: decode_utf8(name_bytes),
                                    nentries,
                                    entries,
                                },
                                end,
                            ),
                        ),
                    }
                }
            }
        }
    }
}

/// The ASN/address width law. A peer entry whose flag byte is 0x00 decodes a
/// 4-byte IPv4 address and a 16-bit ASN zero-extended to 32 bits, 11 bytes in
/// all; one whose flag byte is 0x03 decodes a 16-byte IPv6 address and a full
/// 32-bit ASN, 25 bytes in all.
pub proof fn lemma_peer_entry_width_law(b: Seq<u8>, pos: int)
    requires
        0 <= pos,
    ensures
        b[pos] == 0x00 && pos + 11 <= b.len() ==> spec_peer_entry(b, pos) == Ok::<_, Error>(
            (
                PeerEntry {
                    bgp_id: be32(b, pos + 1),
                    peer_ip: IpAddress::V4(be32(b, pos + 5)),
                    peer_asn: be16(b, pos + 9) as u32,
                },
                pos + 11,
            ),
        ),
        b[pos] == 0x03 && pos + 25 <= b.len() ==> spec_peer_entry(b, pos) == Ok::<_, Error>(
            (
                PeerEntry {
                    bgp_id: be32(b, pos + 1),
                    peer_ip: IpAddress::V6(be128(b, pos + 5)),
                    peer_asn: be32(b, pos + 21),
                },
                pos + 25,
            ),
        ),
{
    assert(0x00u8 & 0x01 == 0) by (bit_vector);
    assert(0x00u8 & 0x02 == 0) by (bit_vector);
    assert(0x03u8 & 0x01 == 0x01) by (bit_vector);
    assert(0x03u8 & 0x02 == 0x02) by (bit_vector);
}

/// Relies on std's `String::from_utf8`: it succeeds exactly on input that is
/// valid UTF-8, and then holds the characters that input encodes.
#[verifier::external_body]
fn string_from_utf8(bytes: Vec<u8>) -> (r: Option<String>)
    ensures
        match r {
            Some(s) => valid_utf8(bytes@) && s@ == decode_utf8(bytes@),
            None => !valid_utf8(bytes@),
        },
{
    String::from_utf8(bytes).ok()
}

impl PeerEntry {
    /// Decode one peer entry at `pos`. A flag byte with bit 0 clear yields a
    /// 4-byte IPv4 address, with bit 0 set a 16-byte IPv6 one; with bit 1
    /// clear a 16-bit ASN zero-extended to 32 bits, with bit 1 set a full
    /// 32-bit ASN.
    pub fn from_reader(bytes: &[u8], pos: usize) -> (r: Result<(PeerEntry, usize), Error>)
        requires
            pos <= bytes@.len(),
        ensures
            match r {
                Ok((e, n)) => spec_peer_entry(bytes@, pos as int) == Ok::<_, Error>((e, n as int)),
                Err(e) => spec_peer_entry(bytes@, pos as int) == Err::<(PeerEntry, int), _>(e),
            },
            r is Ok && bytes@[pos as int] & 0x01 == 0 ==> r->Ok_0.0.peer_ip is V4,
            r is Ok && bytes@[pos as int] & 0x01 == 0x01 ==> r->Ok_0.0.peer_ip is V6,
    {
        proof {
            vstd::slice::axiom_spec_len(bytes);
        }
        if bytes.len() - pos < 1 {
            return Err(Error::Truncated);
        }
        let flags = read_u8(bytes, pos);
        let ip_len: usize = if flags & 0x01 == 0x01 {
            16
        } else {
            4
        };
        let asn_len: usize = if flags & 0x02 == 0x02 {
            4
        } else {
            2
        };
        if bytes.len() - pos < 5 + ip_len + asn_len {
            return Err(Error::Truncated);
        }
        let bgp_id = read_u32_be(bytes, pos + 1);
        let peer_ip = if flags & 0x01 == 0x01 {
            IpAddress::V6(read_u128_be(bytes, pos + 5))
        } else {
            IpAddress::V4(read_u32_be(bytes, pos + 5))
        };
        let asn_pos = pos + 5 + ip_len;
        let peer_asn = if flags & 0x02 == 0x02 {
            read_u32_be(bytes, asn_pos)
        } else {
            read_u16_be(bytes, asn_pos) as u32
        };
        Ok((PeerEntry { bgp_id, peer_ip, peer_asn }, asn_pos + asn_len))
    }
}

impl PeerIndexTable {
    /// Decode a whole peer-table payload at `pos`: collector BGP id, view name
    /// length, that many bytes of UTF-8 view name, entry count, then that many
    /// peer entries in order. The table is immutable once returned.
    #[verifier::loop_isolation(false)]
    pub fn from_reader(bytes: &[u8], pos: usize) -> (r: Result<(PeerIndexTable, usize), Error>)
        requires
            pos <= bytes@.len(),
        ensures
            match r {
                Ok((t, n)) => spec_peer_index_table(bytes@, pos as int) == Ok::<_, Error>(
                    (t@, n as int),
                ) && t@.entries.len() == t.nentries,
                Err(e) => spec_peer_index_table(bytes@, pos as int) == Err::<
                    (PeerIndexTableView, int),
                    _,
                >(e),
            },
    {
        proof {
            vstd::slice::axiom_spec_len(bytes);
        }
        if bytes.len() - pos < 6 {
            return Err(Error::Truncated);
        }
        let collector_bgp_id = read_u32_be(bytes, pos);
        let view_name_len = read_u16_be(bytes, pos + 4);
        if bytes.len() - (pos + 6) < view_name_len as usize {
            return Err(Error::Truncated);
        }
        let name_end = pos + 6 + view_name_len as usize;
        let name_bytes = vstd::slice::slice_to_vec(
            vstd::slice::slice_subrange(bytes, pos + 6, name_end),
        );
        let view_name = match string_from_utf8(name_bytes) {
            Some(s) => s,
            None => {
                return Err(Error::InvalidUtf8);
            },
        };
        if bytes.len() - name_end < 2 {
            return Err(Error::Truncated);
        }
        let nentries = read_u16_be(bytes, name_end);
        let mut entries: Vec<PeerEntry> = Vec::new();
        let mut cur = name_end + 2;
        let ghost entries_start = name_end + 2;
        let mut i: u16 = 0;
        while i < nentries
            invariant
                pos <= bytes@.len(),
                i <= nentries,
                entries@.len() == i as int,
                cur <= bytes@.len(),
                spec_peer_entries(bytes@, entries_start as int, nentries as int) == (match spec_peer_entries(
                    bytes@,
                    cur as int,
                    nentries as int - i as int,
                ) {
                    Err(e) => Err::<(Seq<PeerEntry>, int), Error>(e),
                    Ok((rest, end)) => Ok((entries@ + rest, end)),
                }),
            decreases nentries as int - i as int,
        {
            let (entry, next) = match PeerEntry::from_reader(bytes, cur) {
                Ok(en) => en,
                Err(e) => {
                    return Err(e);
                },
            };
            let ghost before = entries@;
            entries.push(entry);
            proof {
                let rem = nentries as int - i as int;
                if spec_peer_entries(bytes@, next as int, rem - 1) is Ok {
                    let (rest, _end) = spec_peer_entries(bytes@, next as int, rem - 1)->Ok_0;
                    assert(before + (seq![entry] + rest) =~= entries@ + rest);
                }
            }
            cur = next;
            i = i + 1;
        }
        proof {
            assert(entries@ + Seq::<PeerEntry>::empty() =~= entries@);
        }
        Ok(
            (
                PeerIndexTable {
                    collector_bgp_id,
                    view_name_len,
                    view_name,
                    nentries,
                    entries,
                },
                cur,
            ),
        )
    }
}

} // verus!
