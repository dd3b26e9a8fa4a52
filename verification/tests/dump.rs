use mrtdump::{DumpDecoder, Error, IpAddress, MRTMessage, MRTSubType, MRTType};

fn frame(ts: u32, mrt_type: u16, mrt_subtype: u16, payload: &[u8]) -> Vec<u8> {
    let mut out = Vec::new();
    out.extend_from_slice(&ts.to_be_bytes());
    out.extend_from_slice(&mrt_type.to_be_bytes());
    out.extend_from_slice(&mrt_subtype.to_be_bytes());
    out.extend_from_slice(&(payload.len() as u32).to_be_bytes());
    out.extend_from_slice(payload);
    out
}

fn peer_table_payload() -> Vec<u8> {
    vec![
        0, 0, 0, 1, // collector_bgp_id
        0, 4, // view_name_len
        b't', b'e', b's', b't', // view_name
        0, 0x01, // nentries
        0x00, // flags: IPv4 address, 16-bit ASN
        0x00, 0x00, 0x00, 0x02, // bgp_id
        192, 0, 2, 1, // peer_ip
        0xfd, 0xe8, // peer_asn: 65000
    ]
}

fn rib_payload() -> Vec<u8> {
    vec![
        0x00, 0x00, 0x00, 0x01, // sequence number
        0x18, // prefix length: 24 bits
        10, 20, 30, // prefix: 10.20.30/24
        0x00, 0x01, // entry count
        0x00, 0x00, // entry: peer index
        0x00, 0x00, 0x00, 0x05, // originated time
        0x00, 0x13, // attributes length
        0x10, 0x01, 0x00, 0x01, // Origin header, extended length 1
        0x00, // Origin IGP
        0x10, 0x02, 0x00, 0x0a, // AsPath header, extended length 10
        0x02, // segment type
        0x02, // two path elements
        0x00, 0x00, 0x00, 0x01, // path element 1
        0x00, 0x00, 0x00, 0x02, // path element 2
    ]
}

#[test]
fn test_dump_end_to_end() {
    // A peer table with one IPv4/16-bit-ASN peer, then one RIB-unicast message
    // with one entry carrying Origin=IGP and the AS path [1, 2].
    let mut file = frame(0, 13, 1, &peer_table_payload());
    file.extend_from_slice(&frame(77, 13, 2, &rib_payload()));

    let mut decoder = DumpDecoder::new();
    let (first, pos) = MRTMessage::from_reader(&file, 0).unwrap();
    assert!(decoder.step(&first).unwrap().is_none());

    let (second, end) = MRTMessage::from_reader(&file, pos).unwrap();
    assert_eq!(end, file.len());
    let record = decoder.step(&second).unwrap().unwrap();

    assert_eq!(record.time, 77);
    assert_eq!(record.prefix_len, 24);
    assert_eq!(record.prefix, 0x0a141e00);
    let entry = &record.rib_entries[0];
    // The resolved peer identity matches the table entry.
    assert_eq!(entry.peer_asn, 65000);
    assert_eq!(entry.peer_ip, IpAddress::V4(0xc0000201));
    let rendered = entry
        .bgp_as_path
        .as_ref()
        .unwrap()
        .segments
        .iter()
        .map(|s| s.to_string())
        .collect::<Vec<_>>()
        .join(" ");
    assert_eq!(rendered, "1 2");
    assert!(matches!(
        entry.bgp_origin,
        Some(mrtdump::BgpOrigin(mrtdump::BgpOriginType::Igp))
    ));
}

#[test]
fn test_dump_first_message_must_be_peer_table() {
    let file = frame(0, 13, 2, &rib_payload());
    let (message, _) = MRTMessage::from_reader(&file, 0).unwrap();
    let mut decoder = DumpDecoder::new();
    assert_eq!(
        decoder.step(&message).unwrap_err(),
        Error::InvalidMrtType(MRTType::TableDumpV2, MRTSubType::RibIpV4Unicast)
    );
}

#[test]
fn test_dump_later_messages_must_be_rib_unicast() {
    let mut decoder = DumpDecoder::new();
    let (table_msg, _) = MRTMessage::from_reader(&frame(0, 13, 1, &peer_table_payload()), 0)
        .unwrap();
    decoder.step(&table_msg).unwrap();
    // A second peer table is not acceptable once one is in force.
    assert_eq!(
        decoder.step(&table_msg).unwrap_err(),
        Error::InvalidMrtType(MRTType::TableDumpV2, MRTSubType::PeerIndexTable)
    );
}

#[test]
fn test_dump_rib_decode_error_is_reported() {
    let mut decoder = DumpDecoder::new();
    let (table_msg, _) = MRTMessage::from_reader(&frame(0, 13, 1, &peer_table_payload()), 0)
        .unwrap();
    decoder.step(&table_msg).unwrap();

    let bad_rib = vec![
        0x00, 0x00, 0x00, 0x01, // sequence number
        0x00, // prefix length
        0x00, 0x01, // entry count
        0x00, 0x09, // entry with peer index 9, past the one-entry table
        0x00, 0x00, 0x00, 0x05, // originated time
        0x00, 0x00, // attributes length
    ];
    let (rib_msg, _) = MRTMessage::from_reader(&frame(0, 13, 2, &bad_rib), 0).unwrap();
    assert_eq!(decoder.step(&rib_msg).unwrap_err(), Error::InvalidPeerIndex(9));
}
