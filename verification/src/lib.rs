//! Decoder for MRT routing-table snapshot files: the TABLE_DUMP_V2 peer-index
//! table and the IPv4-unicast RIB subtype. The framing layer, the peer-table
//! decoder and the per-route attribute walker all operate on in-memory byte
//! buffers; every decoder carries a contract that pins its result down to the
//! bytes it consumed.

pub mod bytes;
pub mod bgp_attribute;
pub mod dump;
pub mod error;
pub mod mrt_header;
pub mod mrt_message;
pub mod peer_index_table;
pub mod rib_entry;
pub mod rib_ipv4_unicast;

pub use bytes::{be16, be32, be64, be128};
pub use bgp_attribute::{BgpAggregator, BgpAsPath, BgpAttributeHeader, BgpAttributeType, BgpCommunity, BgpLargeCommunity, BgpMultiExitDisc, BgpNextHop, BgpOrigin, BgpOriginType};
pub use dump::DumpDecoder;
pub use error::Error;
pub use mrt_header::{MRTHeader, MRTSubType, MRTType};
pub use mrt_message::MRTMessage;
pub use peer_index_table::{IpAddress, PeerEntry, PeerIndexTable};
pub use rib_entry::RibEntry;
pub use rib_ipv4_unicast::RibIpV4Unicast;
