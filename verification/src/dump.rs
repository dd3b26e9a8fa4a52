//! The dump driver: a two-state machine over the sequence of framed messages.
//! Before a peer table has been decoded, the only acceptable message is a
//! TABLE_DUMP_V2 peer-index table; after it, every message must be a
//! TABLE_DUMP_V2 IPv4-unicast RIB message, decoded against the retained table.
//! End of input is the caller's concern: stopping after the table is a normal
//! end of the dump, stopping before it means the dump was empty or truncated.

use vstd::prelude::*;
use crate::error::Error;
use crate::mrt_header::{MRTSubType, MRTType};
use crate::mrt_message::MRTMessage;
use crate::peer_index_table::{spec_peer_index_table, PeerIndexTable};
use crate::rib_ipv4_unicast::{spec_rib_ipv4_unicast, RibIpV4Unicast};

verus! {

/// The driver's whole state: `None` while a peer table is still expected,
/// `Some` once one has been decoded and retained.
#[derive(Debug)]
pub struct DumpDecoder {
    pub table: Option<PeerIndexTable>,
}

impl DumpDecoder {
    /// A fresh driver, expecting the peer-index table.
    pub fn new() -> (s: DumpDecoder)
        ensures
            s.table is None,
    {
        DumpDecoder { table: None }
    }

    /// Whether the peer table has been decoded and retained: once true, end of
    /// input is a normal end of the dump; before that it means the dump was
    /// empty or truncated.
    pub fn has_peer_table(&self) -> (r: bool)
        ensures
            r == (self.table is Some),
    {
        self.table.is_some()
    }

    /// Feed the driver one framed message. While the peer table is expected,
    /// only a peer-index table is accepted, retained, and `None` is yielded;
    /// afterwards only IPv4-unicast RIB messages are accepted and each decoded
    /// record is yielded. Any other type/subtype, and any decode failure, is
    /// the exact error of the offending message, and the state is unchanged.
    pub fn step(&mut self, message: &MRTMessage) -> (r: Result<Option<RibIpV4Unicast>, Error>)
        ensures
            match old(self).table {
                None => {
                    if message.header.mrt_type == MRTType::TableDumpV2 && message.header.mrt_subtype
                        == MRTSubType::PeerIndexTable {
                        match spec_peer_index_table(message.payload@, 0) {
                            Ok((t, _n)) => r is Ok && r->Ok_0 is None && final(self).table is Some
                                && final(self).table->Some_0@ == t,
                            Err(e) => r == Err::<Option<RibIpV4Unicast>, Error>(e)
                                && final(self).table is None,
                        }
                    } else {
                        r == Err::<Option<RibIpV4Unicast>, Error>(
                            Error::InvalidMrtType(message.header.mrt_type, message.header.mrt_subtype),
                        ) && final(self).table is None
                    }
                },
                Some(table) => {
                    &&& final(self).table is Some
                    &&& final(self).table->Some_0@ == table@
                    &&& if message.header.mrt_type == MRTType::TableDumpV2
                        && message.header.mrt_subtype == MRTSubType::RibIpV4Unicast {
                        match spec_rib_ipv4_unicast(
                            message.payload@,
                            0,
                            table@.entries,
                            message.header.ts,
                        ) {
                            Ok((v, _n)) => r is Ok && r->Ok_0 is Some && r->Ok_0->Some_0@ == v,
                            Err(e) => r == Err::<Option<RibIpV4Unicast>, Error>(e),
                        }
                    } else {
                        r == Err::<Option<RibIpV4Unicast>, Error>(
                            Error::InvalidMrtType(message.header.mrt_type, message.header.mrt_subtype),
                        )
                    }
                },
            },
    {
        if self.table.is_none() {
            if !(message.header.mrt_type == MRTType::TableDumpV2 && message.header.mrt_subtype
                == MRTSubType::PeerIndexTable) {
                return Err(
                    Error::InvalidMrtType(message.header.mrt_type, message.header.mrt_subtype),
                );
            }
            match PeerIndexTable::from_reader(message.payload.as_slice(), 0) {
                Ok((t, _n)) => {
                    self.table = Some(t);
                    Ok(None)
                },
                Err(e) => Err(e),
            }
        } else {
            if !(message.header.mrt_type == MRTType::TableDumpV2 && message.header.mrt_subtype
                == MRTSubType::RibIpV4Unicast) {
                return Err(
                    Error::InvalidMrtType(message.header.mrt_type, message.header.mrt_subtype),
                );
            }
            let table = self.table.as_ref().unwrap();
            match RibIpV4Unicast::from_reader(
                message.payload.as_slice(),
                0,
                table,
                message.header.ts,
            ) {
                Ok((m, _n)) => Ok(Some(m)),
                Err(e) => Err(e),
            }
        }
    }
}

} // verus!
