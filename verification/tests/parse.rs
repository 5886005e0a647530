use async_ping::echo_reply::read_length_delimited;
use async_ping::icmpv4::{IcmpCode, IcmpType};
use async_ping::icmpv6::{Icmpv6Code, Icmpv6Type};
use async_ping::wire::{ECHO_REPLY_V4, ECHO_REPLY_V6, ECHO_REQUEST_V4, ECHO_REQUEST_V6};
use async_ping::{Icmpv4, Icmpv6, PayloadLengthDelimitedEchoRequest};

fn reference_checksum(bytes: &[u8]) -> u16 {
    let mut sum: u64 = 0;
    let mut i = 0;
    while i < bytes.len() {
        if i != 2 {
            let hi = bytes[i] as u64;
            let lo = if i + 1 < bytes.len() { bytes[i + 1] as u64 } else { 0 };
            sum += hi * 256 + lo;
        }
        i += 2;
    }
    while sum >= 0x1_0000 {
        sum = sum / 0x1_0000 + sum % 0x1_0000;
    }
    (0xffff - sum) as u16
}

fn sample_payload(len: usize, seed: u32) -> Vec<u8> {
    let mut state = seed;
    let mut payload = Vec::with_capacity(len);
    for _ in 0..len {
        state = state.wrapping_mul(1664525).wrapping_add(1013904223);
        payload.push((state >> 24) as u8);
    }
    payload
}

#[test]
fn type_numbers() {
    assert_eq!(ECHO_REQUEST_V4, 8);
    assert_eq!(ECHO_REPLY_V4, 0);
    assert_eq!(ECHO_REQUEST_V6, 128);
    assert_eq!(ECHO_REPLY_V6, 129);
}

#[test]
fn type_numbers_are_those_of_pnet_packet() {
    assert_eq!(ECHO_REQUEST_V4, pnet_packet::icmp::IcmpTypes::EchoRequest.0);
    assert_eq!(ECHO_REPLY_V4, pnet_packet::icmp::IcmpTypes::EchoReply.0);
    assert_eq!(ECHO_REQUEST_V6, pnet_packet::icmpv6::Icmpv6Types::EchoRequest.0);
    assert_eq!(ECHO_REPLY_V6, pnet_packet::icmpv6::Icmpv6Types::EchoReply.0);
}

#[test]
fn render_v4_of_an_odd_payload() {
    let request = PayloadLengthDelimitedEchoRequest::new(Some(1.into()), Some(2.into()), b"123", 1);
    assert_eq!(
        request.render_v4_packet_bytes(),
        vec![8, 0, 147, 199, 0, 1, 0, 2, 0, 3, 49, 50, 51]
    );
}

#[test]
fn render_v4_of_an_empty_payload() {
    let request =
        PayloadLengthDelimitedEchoRequest::new(Some(0xabcd.into()), Some(0xffff.into()), b"", 1);
    assert_eq!(request.payload(), b"");
    assert_eq!(*request.len().inner(), 0);
    assert_eq!(request.render_v4_packet_bytes(), vec![8, 0, 76, 50, 171, 205, 255, 255, 0, 0]);
    assert_eq!(request.render_v6_packet_bytes(), vec![128, 0, 0, 0, 171, 205, 255, 255, 0, 0]);
}

#[test]
fn render_v4_folds_the_carries() {
    let request =
        PayloadLengthDelimitedEchoRequest::new(Some(0.into()), Some(0.into()), &[0xff; 6], 1);
    assert_eq!(
        request.render_v4_packet_bytes(),
        vec![8, 0, 247, 249, 0, 0, 0, 0, 0, 6, 255, 255, 255, 255, 255, 255]
    );
}

#[test]
fn render_follows_the_layout_for_many_payloads() {
    for (len, seed) in [(0usize, 1u32), (1, 2), (2, 3), (3, 4), (31, 5), (32, 6), (1471, 7), (4097, 8)]
    {
        let payload = sample_payload(len, seed);
        let identifier = (seed * 7919) as u16;
        let sequence_number = (seed * 104729) as u16;
        let request = PayloadLengthDelimitedEchoRequest::new(
            Some(identifier.into()),
            Some(sequence_number.into()),
            &payload,
            1,
        );
        let mut expected = vec![0u8, 0, 0, 0];
        expected.extend_from_slice(&identifier.to_be_bytes());
        expected.extend_from_slice(&sequence_number.to_be_bytes());
        expected.extend_from_slice(&(len as u16).to_be_bytes());
        expected.extend_from_slice(&payload);

        expected[0] = 128;
        assert_eq!(request.render_v6_packet_bytes(), expected);

        expected[0] = 8;
        let checksum = reference_checksum(&expected);
        expected[2..4].copy_from_slice(&checksum.to_be_bytes());
        assert_eq!(request.render_v4_packet_bytes(), expected);
    }
}

#[test]
fn render_of_the_largest_payload() {
    let payload = sample_payload(65525, 11);
    let request = PayloadLengthDelimitedEchoRequest::new(Some(9.into()), None, &payload, 1);
    assert_eq!(request.sequence_number.into_inner(), 0);
    let v4 = request.render_v4_packet_bytes();
    assert_eq!(v4.len(), 65535);
    assert_eq!(&v4[8..10], &[0xff, 0xf5]);
    assert_eq!(&v4[10..], &payload[..]);
    let mut zeroed = v4.clone();
    zeroed[2] = 0;
    zeroed[3] = 0;
    assert_eq!(&v4[2..4], &reference_checksum(&zeroed).to_be_bytes());
    let v6 = request.render_v6_packet_bytes();
    assert_eq!(v6, {
        zeroed[0] = 128;
        zeroed
    });
}

#[test]
fn request_without_identifier_takes_that_of_the_process() {
    let request = PayloadLengthDelimitedEchoRequest::new(None, None, b"x", 4242);
    assert_eq!(request.identifier.into_inner(), 4242);
    assert_eq!(request.sequence_number.into_inner(), 0);
    assert_eq!(request.payload(), b"x");
}

#[test]
fn round_trip_of_many_requests() {
    for (len, seed) in [(0usize, 21u32), (1, 22), (7, 23), (64, 24), (1500, 25), (65525, 26)] {
        let payload = sample_payload(len, seed);
        let request = PayloadLengthDelimitedEchoRequest::new(
            Some(((seed * 31) as u16).into()),
            Some(((seed * 17) as u16).into()),
            &payload,
            1,
        );

        let mut bytes = request.render_v4_packet_bytes();
        bytes[0] = ECHO_REPLY_V4;
        match Icmpv4::parse_from_packet_bytes(&bytes) {
            Ok(Some(Icmpv4::EchoReply(reply))) => {
                assert_eq!(reply.identifier, request.identifier);
                assert_eq!(reply.sequence_number, request.sequence_number);
                assert_eq!(reply.len, request.len());
                assert_eq!(reply.payload.inner(), &payload);
            }
            x => panic!("{x:?}"),
        }

        let mut bytes = request.render_v6_packet_bytes();
        bytes[0] = ECHO_REPLY_V6;
        match Icmpv6::parse_from_packet_bytes(&bytes) {
            Ok(Some(Icmpv6::EchoReply(reply))) => {
                assert_eq!(reply.identifier, request.identifier);
                assert_eq!(reply.sequence_number, request.sequence_number);
                assert_eq!(reply.len, request.len());
                assert_eq!(reply.payload.inner(), &payload);
            }
            x => panic!("{x:?}"),
        }
    }
}

#[test]
fn v4_reply_fields_are_read_where_they_stand() {
    let bytes = [0u8, 0, 0xaa, 0xbb, 0x12, 0x34, 0x56, 0x78, 0, 3, 7, 8, 9];
    match Icmpv4::parse_from_packet_bytes(&bytes) {
        Ok(Some(Icmpv4::EchoReply(reply))) => {
            assert_eq!(reply.identifier.into_inner(), 0x1234);
            assert_eq!(reply.sequence_number.into_inner(), 0x5678);
            assert_eq!(*reply.len.inner(), 3);
            assert_eq!(reply.payload.inner(), &vec![7, 8, 9]);
        }
        x => panic!("{x:?}"),
    }
}

#[test]
fn v6_reply_fields_are_read_where_they_stand() {
    let bytes = [129u8, 0, 0xaa, 0xbb, 0x12, 0x34, 0x56, 0x78, 0, 3, 7, 8, 9];
    match Icmpv6::parse_from_packet_bytes(&bytes) {
        Ok(Some(Icmpv6::EchoReply(reply))) => {
            assert_eq!(reply.identifier.into_inner(), 0x1234);
            assert_eq!(reply.sequence_number.into_inner(), 0x5678);
            assert_eq!(*reply.len.inner(), 3);
            assert_eq!(reply.payload.inner(), &vec![7, 8, 9]);
        }
        x => panic!("{x:?}"),
    }
}

#[test]
fn what_follows_the_announced_payload_is_left_aside() {
    let bytes = [0u8, 0, 0, 0, 0, 1, 0, 2, 0, 2, 7, 8, 9, 10];
    match Icmpv4::parse_from_packet_bytes(&bytes) {
        Ok(Some(Icmpv4::EchoReply(reply))) => {
            assert_eq!(*reply.len.inner(), 2);
            assert_eq!(reply.payload.inner(), &vec![7, 8]);
        }
        x => panic!("{x:?}"),
    }
}

#[test]
fn fewer_bytes_than_a_header_are_incomplete() {
    for len in 0..8 {
        let bytes = vec![0u8; len];
        assert!(matches!(Icmpv4::parse_from_packet_bytes(&bytes), Ok(None)));
        let bytes = vec![129u8; len];
        assert!(matches!(Icmpv6::parse_from_packet_bytes(&bytes), Ok(None)));
    }
}

#[test]
fn every_beginning_of_a_reply_is_incomplete() {
    let request =
        PayloadLengthDelimitedEchoRequest::new(Some(1.into()), Some(2.into()), b"1234", 1);
    let mut v4 = request.render_v4_packet_bytes();
    v4[0] = ECHO_REPLY_V4;
    let mut v6 = request.render_v6_packet_bytes();
    v6[0] = ECHO_REPLY_V6;
    for k in 0..v4.len() {
        assert!(matches!(Icmpv4::parse_from_packet_bytes(&v4[..k]), Ok(None)), "{k}");
        assert!(matches!(Icmpv6::parse_from_packet_bytes(&v6[..k]), Ok(None)), "{k}");
    }
    assert!(matches!(Icmpv4::parse_from_packet_bytes(&v4), Ok(Some(Icmpv4::EchoReply(_)))));
    assert!(matches!(Icmpv6::parse_from_packet_bytes(&v6), Ok(Some(Icmpv6::EchoReply(_)))));
}

#[test]
fn the_remaining_bytes_complete_the_reply() {
    let request =
        PayloadLengthDelimitedEchoRequest::new(Some(1.into()), Some(2.into()), b"1234", 1);
    let mut whole = request.render_v4_packet_bytes();
    whole[0] = ECHO_REPLY_V4;
    let (first, rest) = whole.split_at(11);
    assert!(matches!(Icmpv4::parse_from_packet_bytes(first), Ok(None)));
    let mut joined = first.to_vec();
    joined.extend_from_slice(rest);
    match Icmpv4::parse_from_packet_bytes(&joined) {
        Ok(Some(Icmpv4::EchoReply(reply))) => {
            assert_eq!(reply.identifier.into_inner(), 1);
            assert_eq!(reply.sequence_number.into_inner(), 2);
            assert_eq!(reply.payload.inner(), &b"1234".to_vec());
        }
        x => panic!("{x:?}"),
    }
}

#[test]
fn a_length_that_is_not_met_stays_incomplete() {
    let mut bytes = vec![0u8, 0, 0, 0, 0, 1, 0, 2, 0xff, 0xff];
    bytes.extend_from_slice(&vec![0u8; 2038]);
    assert!(matches!(Icmpv4::parse_from_packet_bytes(&bytes), Ok(None)));
}

#[test]
fn other_v4_messages_pass_through() {
    let bytes = [3u8, 1, 0xfc, 0xfe, 0, 0, 0, 0, 0x45, 0, 0, 28];
    match Icmpv4::parse_from_packet_bytes(&bytes) {
        Ok(Some(Icmpv4::Other(kind, code, payload))) => {
            assert_eq!(kind, IcmpType(3));
            assert_eq!(code, IcmpCode(1));
            assert_eq!(payload.inner(), &vec![0x45, 0, 0, 28]);
        }
        x => panic!("{x:?}"),
    }
}

#[test]
fn other_v6_messages_pass_through() {
    let bytes = [1u8, 4, 0, 0, 1, 2, 3, 4, 0x60, 0x61];
    match Icmpv6::parse_from_packet_bytes(&bytes) {
        Ok(Some(Icmpv6::Other(kind, code, payload))) => {
            assert_eq!(kind, Icmpv6Type(1));
            assert_eq!(code, Icmpv6Code(4));
            assert_eq!(payload.inner(), &vec![0x60, 0x61]);
        }
        x => panic!("{x:?}"),
    }
}

#[test]
fn another_message_of_header_length_has_no_payload() {
    match Icmpv4::parse_from_packet_bytes(&[11u8, 0, 0, 0, 9, 9, 9, 9]) {
        Ok(Some(Icmpv4::Other(kind, code, payload))) => {
            assert_eq!(kind, IcmpType(11));
            assert_eq!(code, IcmpCode(0));
            assert_eq!(payload.inner(), &Vec::<u8>::new());
        }
        x => panic!("{x:?}"),
    }
    match Icmpv6::parse_from_packet_bytes(&[3u8, 1, 0, 0, 9, 9, 9, 9]) {
        Ok(Some(Icmpv6::Other(kind, code, payload))) => {
            assert_eq!(kind, Icmpv6Type(3));
            assert_eq!(code, Icmpv6Code(1));
            assert_eq!(payload.inner(), &Vec::<u8>::new());
        }
        x => panic!("{x:?}"),
    }
}

#[test]
fn an_echo_request_is_another_message_to_the_reader() {
    let request =
        PayloadLengthDelimitedEchoRequest::new(Some(1.into()), Some(2.into()), b"1234", 1);
    let bytes = request.render_v4_packet_bytes();
    match Icmpv4::parse_from_packet_bytes(&bytes) {
        Ok(Some(Icmpv4::Other(kind, code, payload))) => {
            assert_eq!(kind, IcmpType(ECHO_REQUEST_V4));
            assert_eq!(code, IcmpCode(0));
            assert_eq!(payload.inner(), &bytes[8..].to_vec());
            assert_eq!(payload.inner(), &vec![0, 4, 49, 50, 51, 52]);
        }
        x => panic!("{x:?}"),
    }
    // The type of an IPv4 Echo Reply means something else over IPv6.
    let mut bytes = request.render_v6_packet_bytes();
    bytes[0] = ECHO_REPLY_V4;
    assert!(matches!(Icmpv6::parse_from_packet_bytes(&bytes), Ok(Some(Icmpv6::Other(_, _, _)))));
}

#[test]
fn bytes_of_header_length_are_never_refused() {
    for fill in [0u8, 1, 8, 0x7f, 128, 129, 0xff] {
        for len in 8..12 {
            let bytes = vec![fill; len];
            assert!(Icmpv4::parse_from_packet_bytes(&bytes).is_ok(), "{fill} {len}");
            assert!(Icmpv6::parse_from_packet_bytes(&bytes).is_ok(), "{fill} {len}");
        }
    }
}

#[test]
fn parse_errors_have_names() {
    assert_eq!(async_ping::icmpv4::ParseError::NotIcmpPacket.to_string(), "NotIcmpPacket");
    assert_eq!(
        async_ping::icmpv4::ParseError::NotEchoReplyPacket.to_string(),
        "NotEchoReplyPacket"
    );
    assert_eq!(async_ping::icmpv6::ParseError::NotIcmpPacket.to_string(), "NotIcmpPacket");
    assert_eq!(
        async_ping::icmpv6::ParseError::NotEchoReplyPacket.to_string(),
        "NotEchoReplyPacket"
    );
}

#[test]
fn the_length_is_read_once_it_has_arrived() {
    for len in 0..10 {
        assert_eq!(read_length_delimited(&vec![0u8; len]), None, "{len}");
    }
    match read_length_delimited(&[9u8, 9, 9, 9, 9, 9, 9, 9, 0, 0]) {
        Some((len, payload)) => {
            assert_eq!(*len.inner(), 0);
            assert_eq!(payload.inner(), &Vec::<u8>::new());
        }
        None => panic!("nothing was read"),
    }
}

#[test]
fn the_payload_is_read_once_it_has_arrived() {
    let bytes = [9u8, 9, 9, 9, 9, 9, 9, 9, 0, 3, 1, 2, 3, 4];
    assert_eq!(read_length_delimited(&bytes[..12]), None);
    match read_length_delimited(&bytes[..13]) {
        Some((len, payload)) => {
            assert_eq!(*len.inner(), 3);
            assert_eq!(payload.inner(), &vec![1, 2, 3]);
        }
        None => panic!("nothing was read"),
    }
    match read_length_delimited(&bytes) {
        Some((len, payload)) => {
            assert_eq!(*len.inner(), 3);
            assert_eq!(payload.inner(), &vec![1, 2, 3]);
        }
        None => panic!("nothing was read"),
    }
}
