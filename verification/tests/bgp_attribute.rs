use mrtdump::BgpAttributeType as T;
use mrtdump::{
    BgpAggregator, BgpAsPath, BgpAttributeHeader, BgpAttributeType, BgpCommunity,
    BgpLargeCommunity, BgpMultiExitDisc, BgpNextHop, BgpOrigin, BgpOriginType, Error,
};

#[test]
fn test_reading_bgp_attribute_header() {
    let bytes = vec![
        0x10, 0x01, 0x00, 0x04, // BGP Attribute Header
    ];
    let header = BgpAttributeHeader::from_reader(&bytes, 0);
    assert!(header.is_ok());
    let header = header.unwrap().0;
    assert_eq!(header.attribute_flag, 0x10);
    assert_eq!(header.attribute_type, BgpAttributeType::Origin);
    assert_eq!(header.attribute_length, 4);
    assert_eq!(header.offset, 8);
}

#[test]
fn test_reading_bgp_attribute_header_not_extended_length() {
    let bytes = vec![
        0x00, 0x01, 0x04, // BGP Attribute Header
    ];
    let header = BgpAttributeHeader::from_reader(&bytes, 0);
    assert!(header.is_ok());
    let header = header.unwrap().0;
    assert_eq!(header.attribute_flag, 0x00);
    assert_eq!(header.attribute_type, BgpAttributeType::Origin);
    assert_eq!(header.attribute_length, 4);
    assert_eq!(header.offset, 7);
}

#[test]
fn test_reading_bgp_wrong_attribute_header() {
    let bytes = vec![
        0x10, 0x0a, 0x00, 0x04, // BGP Attribute Header
    ];
    let header = BgpAttributeHeader::from_reader(&bytes, 0);
    assert!(header.is_err());
    assert_eq!(header.unwrap_err(), Error::ParsingBgpAttribute(0x0a));
}

#[test]
fn test_reading_bgp_aspath() {
    let bytes = vec![
        0x00, // segment_type
        0x02, 0x00, 0x00, 0x00, // segment_count
        0x01, 0x00, 0x00, 0x00, // segment_value
        0x02, 0x00, 0x00, 0x00, // segment_value
    ];
    let as_path = BgpAsPath::from_reader(&bytes, 0);
    assert!(as_path.is_ok());
    let as_path = as_path.unwrap().0;
    assert_eq!(as_path.segments.len(), 2);
    assert_eq!(as_path.segments[0], 1);
    assert_eq!(as_path.segments[1], 2);
}

#[test]
fn test_attribute_header_advance_matches_offset() {
    // With flag bit 0x10 clear the header is 3 bytes, so a declared body of
    // N = 4 gives a total footprint of 7; with the bit set, 8.
    let short = vec![0x00, 0x01, 0x04, 0xaa, 0xbb, 0xcc, 0xdd];
    let (h, n) = BgpAttributeHeader::from_reader(&short, 0).unwrap();
    assert_eq!(n, 3);
    assert_eq!(n + h.attribute_length as usize, 7);
    assert_eq!(h.offset, 7);

    let extended = vec![0x10, 0x01, 0x00, 0x04, 0xaa, 0xbb, 0xcc, 0xdd];
    let (h, n) = BgpAttributeHeader::from_reader(&extended, 0).unwrap();
    assert_eq!(n, 4);
    assert_eq!(n + h.attribute_length as usize, 8);
    assert_eq!(h.offset, 8);
}

#[test]
fn test_reading_bgp_origin() {
    assert_eq!(BgpOrigin::from_reader(&[0x00u8], 0).unwrap(), (BgpOrigin(BgpOriginType::Igp), 1));
    assert_eq!(BgpOrigin::from_reader(&[0x01u8], 0).unwrap(), (BgpOrigin(BgpOriginType::Egp), 1));
    assert_eq!(
        BgpOrigin::from_reader(&[0x02u8], 0).unwrap(),
        (BgpOrigin(BgpOriginType::Incomplete), 1)
    );
}

#[test]
fn test_reading_bgp_origin_out_of_range() {
    assert_eq!(BgpOrigin::from_reader(&[0x03u8], 0).unwrap_err(), Error::InvalidBgpOriginType(3));
}

#[test]
fn test_reading_bgp_next_hop() {
    let bytes = vec![192, 0, 2, 1];
    let (hop, n) = BgpNextHop::from_reader(&bytes, 0).unwrap();
    assert_eq!(hop.0, 0xc0000201);
    assert_eq!(n, 4);
}

#[test]
fn test_reading_bgp_multi_exit_disc() {
    let bytes = vec![0x00, 0x00, 0x01, 0x00];
    let (med, n) = BgpMultiExitDisc::from_reader(&bytes, 0).unwrap();
    assert_eq!(med.0, 256);
    assert_eq!(n, 4);
}

#[test]
fn test_reading_bgp_aggregator() {
    let bytes = vec![
        0x00, 0x01, 0x00, 0x00, // asn = 65536
        10, 0, 0, 1, // ip
    ];
    let (agg, n) = BgpAggregator::from_reader(&bytes, 0).unwrap();
    assert_eq!(agg.asn, 65536);
    assert_eq!(agg.ip, 0x0a000001);
    assert_eq!(n, 8);
}

#[test]
fn test_community_arity() {
    // A body of declared length 4 * k decodes to exactly k pairs.
    let bytes = vec![
        0x00, 0x01, 0x00, 0x02, // (1, 2)
        0xff, 0xff, 0x00, 0x2a, // (65535, 42)
    ];
    let (community, n) = BgpCommunity::from_reader(&bytes, 0, 8).unwrap();
    assert_eq!(community.0, vec![(1, 2), (65535, 42)]);
    assert_eq!(n, 8);
}

#[test]
fn test_community_incomplete_trailing_group_dropped() {
    let bytes = vec![
        0x00, 0x01, 0x00, 0x02, // (1, 2)
        0xff, 0xff, // an incomplete trailing pair
    ];
    let (community, n) = BgpCommunity::from_reader(&bytes, 0, 6).unwrap();
    assert_eq!(community.0, vec![(1, 2)]);
    assert_eq!(n, 4);
}

#[test]
fn test_large_community_arity() {
    // A body of declared length 12 * k decodes to exactly k triples.
    let bytes = vec![
        0x00, 0x00, 0x00, 0x01, 0x00, 0x00, 0x00, 0x02, 0x00, 0x00, 0x00, 0x03, // (1, 2, 3)
        0x00, 0x00, 0x00, 0x04, 0x00, 0x00, 0x00, 0x05, 0x00, 0x00, 0x00, 0x06, // (4, 5, 6)
    ];
    let (community, n) = BgpLargeCommunity::from_reader(&bytes, 0, 24).unwrap();
    assert_eq!(community.0, vec![(1, 2, 3), (4, 5, 6)]);
    assert_eq!(n, 24);
}

#[test]
fn test_large_community_incomplete_trailing_group_dropped() {
    let bytes = vec![
        0x00, 0x00, 0x00, 0x01, 0x00, 0x00, 0x00, 0x02, 0x00, 0x00, 0x00, 0x03, // (1, 2, 3)
        0x00, 0x00, 0x00, 0x04, // an incomplete trailing triple
    ];
    let (community, n) = BgpLargeCommunity::from_reader(&bytes, 0, 16).unwrap();
    assert_eq!(community.0, vec![(1, 2, 3)]);
    assert_eq!(n, 12);
}

#[test]
fn test_aspath_truncated() {
    let bytes = vec![0x00, 0x02, 0x00, 0x00, 0x00, 0x01];
    assert_eq!(BgpAsPath::from_reader(&bytes, 0).unwrap_err(), Error::Truncated);
}

#[test]
fn test_bgp_attribute_type_codes() {
    assert_eq!(T::from_repr(1), Some(T::Origin));
    assert_eq!(T::from_repr(2), Some(T::AsPath));
    assert_eq!(T::from_repr(3), Some(T::NextHop));
    assert_eq!(T::from_repr(4), Some(T::MultiExitDisc));
    assert_eq!(T::from_repr(6), Some(T::AtomicAggregate));
    assert_eq!(T::from_repr(7), Some(T::Aggregator));
    assert_eq!(T::from_repr(8), Some(T::Community));
    assert_eq!(T::from_repr(32), Some(T::LargeCommunity));
    assert_eq!(T::from_repr(35), Some(T::Otc));
    assert_eq!(T::from_repr(38), Some(T::BfdDiscriminator));
    assert_eq!(T::from_repr(5), None);
}
