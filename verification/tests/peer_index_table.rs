use mrtdump::{Error, IpAddress, PeerEntry, PeerIndexTable};

#[test]
fn test_peer_index_table_from_reader() {
    let bytes = vec![
        0, 0, 0, 1, // collector_bgp_id
        0, 4, // view_name_len
        b't', b'e', b's', b't', // view_name
        0, 0x01, // nentries
        0x02, // peer_type (IPv4, ASN 32 bits)
        0x00, 0x00, 0x00, 0x02, // bgp_id
        192, 168, 1, 1, // peer_ip (IPv4)
        0x00, 0x00, 0x00, 0x00, // peer_asn (ASN 32 bits)
    ];
    let table = PeerIndexTable::from_reader(&bytes, 0);
    assert!(table.is_ok());
}

#[test]
fn test_peer_index_table_fields() {
    let bytes = vec![
        0, 0, 0, 1, // collector_bgp_id
        0, 4, // view_name_len
        b't', b'e', b's', b't', // view_name
        0, 0x01, // nentries
        0x02, // peer_type (IPv4, ASN 32 bits)
        0x00, 0x00, 0x00, 0x02, // bgp_id
        192, 168, 1, 1, // peer_ip (IPv4)
        0x00, 0x01, 0x00, 0x00, // peer_asn (ASN 32 bits)
    ];
    let (table, n) = PeerIndexTable::from_reader(&bytes, 0).unwrap();
    assert_eq!(table.collector_bgp_id, 1);
    assert_eq!(table.view_name_len, 4);
    assert_eq!(table.view_name, "test");
    assert_eq!(table.nentries, 1);
    assert_eq!(table.entries.len(), 1);
    assert_eq!(table.entries[0].bgp_id, 2);
    assert_eq!(table.entries[0].peer_ip, IpAddress::V4(0xc0a80101));
    assert_eq!(table.entries[0].peer_asn, 65536);
    assert_eq!(n, bytes.len());
}

#[test]
fn test_peer_entry_flag_zero_is_ipv4_and_16_bit_asn() {
    // Flag byte 0x00: a 4-byte IPv4 address and a 16-bit ASN zero-extended
    // to 32 bits; the whole entry is 1 + 4 + 4 + 2 = 11 bytes.
    let bytes = vec![
        0x00, // flags
        0x00, 0x00, 0x00, 0x09, // bgp_id
        10, 0, 0, 1, // peer_ip (IPv4)
        0xab, 0xcd, // peer_asn (16 bits)
    ];
    let (entry, n) = PeerEntry::from_reader(&bytes, 0).unwrap();
    assert_eq!(entry.bgp_id, 9);
    assert_eq!(entry.peer_ip, IpAddress::V4(0x0a000001));
    assert_eq!(entry.peer_asn, 0x0000abcd);
    assert_eq!(n, 11);
}

#[test]
fn test_peer_entry_flag_three_is_ipv6_and_32_bit_asn() {
    // Flag byte 0x03: a 16-byte IPv6 address and a full 32-bit ASN; the whole
    // entry is 1 + 4 + 16 + 4 = 25 bytes.
    let bytes = vec![
        0x03, // flags
        0x00, 0x00, 0x00, 0x09, // bgp_id
        0x20, 0x01, 0x0d, 0xb8, 0, 0, 0, 0, 0, 0, 0, 0, 0, 0, 0, 0x01, // peer_ip (IPv6)
        0x00, 0x01, 0x00, 0x00, // peer_asn (32 bits)
    ];
    let (entry, n) = PeerEntry::from_reader(&bytes, 0).unwrap();
    assert_eq!(entry.peer_ip, IpAddress::V6(0x20010db8000000000000000000000001));
    assert_eq!(entry.peer_asn, 65536);
    assert_eq!(n, 25);
}

#[test]
fn test_peer_entry_flag_one_is_ipv6_and_16_bit_asn() {
    let bytes = vec![
        0x01, // flags
        0x00, 0x00, 0x00, 0x09, // bgp_id
        0x20, 0x01, 0x0d, 0xb8, 0, 0, 0, 0, 0, 0, 0, 0, 0, 0, 0, 0x02, // peer_ip (IPv6)
        0x12, 0x34, // peer_asn (16 bits)
    ];
    let (entry, n) = PeerEntry::from_reader(&bytes, 0).unwrap();
    assert_eq!(entry.peer_ip, IpAddress::V6(0x20010db8000000000000000000000002));
    assert_eq!(entry.peer_asn, 0x1234);
    assert_eq!(n, 23);
}

#[test]
fn test_peer_entry_truncated() {
    let bytes = vec![
        0x00, // flags
        0x00, 0x00, 0x00, 0x09, // bgp_id
        10, 0, 0, 1, // peer_ip (IPv4)
        0xab, // only one of the two ASN bytes
    ];
    assert_eq!(PeerEntry::from_reader(&bytes, 0).unwrap_err(), Error::Truncated);
}

#[test]
fn test_peer_index_table_multibyte_utf8_view_name() {
    let bytes = vec![
        0, 0, 0, 1, // collector_bgp_id
        0, 2, // view_name_len
        0xc3, 0xa9, // view_name: a two-byte UTF-8 character
        0, 0, // nentries
    ];
    let (table, _) = PeerIndexTable::from_reader(&bytes, 0).unwrap();
    assert_eq!(table.view_name.chars().count(), 1);
    assert_eq!(table.view_name, "\u{e9}");
}

#[test]
fn test_peer_index_table_invalid_utf8_view_name() {
    let bytes = vec![
        0, 0, 0, 1, // collector_bgp_id
        0, 1, // view_name_len
        0xff, // view_name: not valid UTF-8
        0, 0, // nentries
    ];
    assert_eq!(PeerIndexTable::from_reader(&bytes, 0).unwrap_err(), Error::InvalidUtf8);
}

#[test]
fn test_peer_index_table_two_entries_in_order() {
    let bytes = vec![
        0, 0, 0, 1, // collector_bgp_id
        0, 0, // view_name_len
        0, 0x02, // nentries
        0x00, // first entry: flags (IPv4, 16-bit ASN)
        0x00, 0x00, 0x00, 0x0a, // bgp_id
        10, 0, 0, 1, // peer_ip
        0x00, 0x07, // peer_asn
        0x02, // second entry: flags (IPv4, 32-bit ASN)
        0x00, 0x00, 0x00, 0x0b, // bgp_id
        10, 0, 0, 2, // peer_ip
        0x00, 0x00, 0x00, 0x08, // peer_asn
    ];
    let (table, n) = PeerIndexTable::from_reader(&bytes, 0).unwrap();
    assert_eq!(table.entries.len(), 2);
    assert_eq!(table.entries[0].peer_asn, 7);
    assert_eq!(table.entries[1].peer_asn, 8);
    assert_eq!(table.entries[0].peer_ip, IpAddress::V4(0x0a000001));
    assert_eq!(table.entries[1].peer_ip, IpAddress::V4(0x0a000002));
    assert_eq!(n, bytes.len());
}
