use std::io::{Error as IoError, ErrorKind as IoErrorKind};
use std::time::Duration;

use async_ping::address::{IpAddress, SocketAddress};
use async_ping::address_map::AddressMap;
use async_ping::correlation::{handle_v4_recv_from, Reception};
use async_ping::icmpv4::IcmpType;
use async_ping::ping::{
    advance_send, begin, expect_v4, expect_v6, prepare, register, resolve_v4, resolve_v6,
    timeout_millis, Awaited, SendProgress,
};
use async_ping::reassembly::ReassemblyBuffer;
use async_ping::types::Payload;
use async_ping::wire::ECHO_REPLY_V4;
use async_ping::{Icmp, Icmpv4, Icmpv6, PayloadLengthDelimitedEchoReply, PingError};

fn reply() -> PayloadLengthDelimitedEchoReply {
    PayloadLengthDelimitedEchoReply::new(
        1.into(),
        2.into(),
        async_ping::LenWithPayloadLengthDelimited::new(1),
        Payload(vec![9]),
    )
}

#[test]
fn prepare_renders_for_the_family_of_the_destination() {
    let probe = prepare(IpAddress::V4(0x7f000001), Some(1), Some(2), b"1234", 1);
    assert_eq!(probe.destination, SocketAddress::V4 { ip: 0x7f000001, port: 0 });
    assert_eq!(probe.identifier.into_inner(), 1);
    assert_eq!(probe.sequence_number.into_inner(), 2);
    assert_eq!(probe.bytes, vec![8, 0, 147, 146, 0, 1, 0, 2, 0, 4, 49, 50, 51, 52]);

    let probe = prepare(IpAddress::V6(1), Some(1), Some(2), b"1234", 1);
    assert_eq!(
        probe.destination,
        SocketAddress::V6 { ip: 1, port: 0, flowinfo: 0, scope_id: 0 }
    );
    assert_eq!(probe.bytes, vec![128, 0, 0, 0, 0, 1, 0, 2, 0, 4, 49, 50, 51, 52]);
}

#[test]
fn prepare_fills_in_what_is_not_given() {
    let probe = prepare(IpAddress::V6(1), None, None, &[0; 32], 4242);
    assert_eq!(probe.identifier.into_inner(), 4242);
    assert_eq!(probe.sequence_number.into_inner(), 0);
    assert_eq!(&probe.bytes[..10], &[128, 0, 0, 0, 0x10, 0x92, 0, 0, 0, 32]);
    assert_eq!(probe.bytes.len(), 42);

    let probe = prepare(IpAddress::V6(1), None, Some(7), b"", 70000);
    assert_eq!(probe.sequence_number.into_inner(), 7);
    assert_eq!(&probe.bytes[4..6], &probe.identifier.into_inner().to_be_bytes());
}

#[test]
fn begin_registers_before_it_hands_out_the_bytes() {
    let mut pending: AddressMap<&str> = AddressMap::new();
    let (probe, displaced) =
        begin(&mut pending, IpAddress::V4(5), Some(1), Some(2), b"1234", 1, "first");
    assert_eq!(displaced, None);
    assert!(pending.contains_key(&probe.destination));
    assert_eq!(probe.bytes, vec![8, 0, 147, 146, 0, 1, 0, 2, 0, 4, 49, 50, 51, 52]);

    let (probe, displaced) =
        begin(&mut pending, IpAddress::V4(5), Some(1), Some(3), b"1234", 1, "second");
    assert_eq!(displaced, Some("first"));
    assert_eq!(pending.len(), 1);
    assert_eq!(pending.remove(&probe.destination), Some("second"));
}

#[test]
fn a_probe_that_its_peer_echoes_resolves_with_its_sequence_number() {
    let mut pending: AddressMap<&str> = AddressMap::new();
    let mut buffer = ReassemblyBuffer::new();
    let (probe, _) = begin(&mut pending, IpAddress::V4(0x7f000001), None, Some(7), &[0; 32], 4242, "me");

    let mut written = 0;
    for n in [10, 20, 12] {
        match advance_send(probe.bytes.len(), written, Ok(n)) {
            Ok(SendProgress::Pending { written: so_far }) => written = so_far,
            Ok(SendProgress::Complete) => written = probe.bytes.len(),
            Err(err) => panic!("{err:?}"),
        }
    }
    assert_eq!(written, 42);

    let mut echoed = probe.bytes.clone();
    echoed[0] = ECHO_REPLY_V4;
    let awaited = match handle_v4_recv_from(&mut pending, &mut buffer, probe.destination, &echoed)
    {
        Reception::Deliver { to, result } => {
            assert_eq!(to, "me");
            Awaited::Delivered { result, measured: Some(Duration::from_micros(80)) }
        }
        x => panic!("{x:?}"),
    };
    match resolve_v4(awaited, Duration::from_micros(95)) {
        Ok((Icmp::V4(Icmpv4::EchoReply(reply)), duration)) => {
            assert_eq!(reply.sequence_number, probe.sequence_number);
            assert_eq!(reply.identifier.into_inner(), 4242);
            assert_eq!(reply.payload.inner(), &vec![0; 32]);
            assert_eq!(duration, Duration::from_micros(80));
        }
        x => panic!("{x:?}"),
    }
    assert_eq!(pending.len(), 0);
}

#[test]
fn a_probe_that_nobody_answers_stays_registered_and_times_out() {
    let mut pending: AddressMap<&str> = AddressMap::new();
    let (probe, _) = begin(&mut pending, IpAddress::V6(9), Some(1), Some(1), b"", 1, "me");
    assert!(matches!(
        resolve_v6(Awaited::TimedOut, Duration::from_millis(200)),
        Err(PingError::RecvTimedOut)
    ));
    assert!(pending.contains_key(&probe.destination));
}

#[test]
fn register_puts_the_waiter_under_the_destination() {
    let mut pending: AddressMap<&str> = AddressMap::new();
    let probe = prepare(IpAddress::V6(5), Some(1), Some(2), b"x", 1);
    assert_eq!(register(&mut pending, &probe, "first"), None);
    assert!(pending.contains_key(&SocketAddress::V6 { ip: 5, port: 0, flowinfo: 0, scope_id: 0 }));
    assert_eq!(register(&mut pending, &probe, "second"), Some("first"));
    assert_eq!(pending.len(), 1);
    assert_eq!(pending.remove(&probe.destination), Some("second"));
}

#[test]
fn a_whole_write_completes_the_sending() {
    assert!(matches!(advance_send(14, 0, Ok(14)), Ok(SendProgress::Complete)));
}

#[test]
fn a_partial_write_is_followed_by_another() {
    assert!(matches!(advance_send(14, 0, Ok(4)), Ok(SendProgress::Pending { written: 4 })));
    assert!(matches!(advance_send(14, 4, Ok(9)), Ok(SendProgress::Pending { written: 13 })));
    assert!(matches!(advance_send(14, 13, Ok(1)), Ok(SendProgress::Complete)));
}

#[test]
fn a_write_of_nothing_is_an_error() {
    match advance_send(14, 4, Ok(0)) {
        Err(PingError::Send(err)) => assert_eq!(err.kind(), IoErrorKind::WriteZero),
        x => panic!("{x:?}"),
    }
}

#[test]
fn an_error_of_the_transport_is_handed_on() {
    let err = IoError::new(IoErrorKind::PermissionDenied, "no");
    match advance_send(14, 0, Err(err)) {
        Err(PingError::Send(err)) => {
            assert_eq!(err.kind(), IoErrorKind::PermissionDenied);
            assert_eq!(err.to_string(), "no");
        }
        x => panic!("{x:?}"),
    }
}

#[test]
fn timeout_is_cut_to_64_bits() {
    assert_eq!(timeout_millis(0), 0);
    assert_eq!(timeout_millis(2000), 2000);
    assert_eq!(timeout_millis(u64::MAX as u128), u64::MAX);
    assert_eq!(timeout_millis(u64::MAX as u128 + 1), 0);
    assert_eq!(timeout_millis(u64::MAX as u128 + 201), 200);
}

#[test]
fn a_reply_resolves_with_the_measured_time() {
    let awaited = Awaited::Delivered {
        result: Ok(Icmpv4::EchoReply(reply())),
        measured: Some(Duration::from_millis(12)),
    };
    match resolve_v4(awaited, Duration::from_millis(40)) {
        Ok((Icmp::V4(Icmpv4::EchoReply(reply)), duration)) => {
            assert_eq!(reply.sequence_number.into_inner(), 2);
            assert_eq!(duration, Duration::from_millis(12));
        }
        x => panic!("{x:?}"),
    }
    let awaited = Awaited::Delivered {
        result: Ok(Icmpv6::EchoReply(reply())),
        measured: Some(Duration::ZERO),
    };
    match resolve_v6(awaited, Duration::from_millis(40)) {
        Ok((Icmp::V6(Icmpv6::EchoReply(reply)), duration)) => {
            assert_eq!(reply.identifier.into_inner(), 1);
            assert_eq!(duration, Duration::ZERO);
        }
        x => panic!("{x:?}"),
    }
}

#[test]
fn a_reply_that_arrived_before_the_dispatch_resolves_with_the_elapsed_time() {
    let awaited = Awaited::Delivered { result: Ok(Icmpv4::EchoReply(reply())), measured: None };
    match resolve_v4(awaited, Duration::from_millis(40)) {
        Ok((Icmp::V4(_), duration)) => assert_eq!(duration, Duration::from_millis(40)),
        x => panic!("{x:?}"),
    }
    let awaited = Awaited::Delivered { result: Ok(Icmpv6::EchoReply(reply())), measured: None };
    match resolve_v6(awaited, Duration::from_millis(41)) {
        Ok((Icmp::V6(_), duration)) => assert_eq!(duration, Duration::from_millis(41)),
        x => panic!("{x:?}"),
    }
}

#[test]
fn a_refused_message_resolves_with_its_error() {
    let awaited = Awaited::Delivered {
        result: Err(async_ping::icmpv4::ParseError::NotIcmpPacket),
        measured: Some(Duration::from_millis(1)),
    };
    assert!(matches!(
        resolve_v4(awaited, Duration::ZERO),
        Err(PingError::Icmpv4ParseError(async_ping::icmpv4::ParseError::NotIcmpPacket))
    ));
    let awaited = Awaited::Delivered {
        result: Err(async_ping::icmpv6::ParseError::NotEchoReplyPacket),
        measured: None,
    };
    assert!(matches!(
        resolve_v6(awaited, Duration::ZERO),
        Err(PingError::Icmpv6ParseError(async_ping::icmpv6::ParseError::NotEchoReplyPacket))
    ));
}

#[test]
fn a_timeout_resolves_with_the_timeout_error() {
    assert!(matches!(
        resolve_v4(Awaited::TimedOut, Duration::from_millis(200)),
        Err(PingError::RecvTimedOut)
    ));
    assert!(matches!(
        resolve_v6(Awaited::TimedOut, Duration::from_millis(200)),
        Err(PingError::RecvTimedOut)
    ));
}

#[test]
fn a_closed_channel_resolves_with_an_unknown_error() {
    match resolve_v4(Awaited::Closed, Duration::ZERO) {
        Err(PingError::Unknown(text)) => assert_eq!(text, "rx.recv None"),
        x => panic!("{x:?}"),
    }
    match resolve_v6(Awaited::Closed, Duration::ZERO) {
        Err(PingError::Unknown(text)) => assert_eq!(text, "rx.recv None"),
        x => panic!("{x:?}"),
    }
}

#[test]
fn a_message_of_the_family_asked_for_is_handed_out() {
    let other = Icmpv4::Other(IcmpType(3), async_ping::icmpv4::IcmpCode(1), Payload(vec![]));
    match expect_v4(Ok((Icmp::V4(other), Duration::from_millis(3)))) {
        Ok((Icmpv4::Other(kind, _, _), duration)) => {
            assert_eq!(kind, IcmpType(3));
            assert_eq!(duration, Duration::from_millis(3));
        }
        x => panic!("{x:?}"),
    }
    match expect_v6(Ok((Icmp::V6(Icmpv6::EchoReply(reply())), Duration::from_millis(4)))) {
        Ok((Icmpv6::EchoReply(reply), duration)) => {
            assert_eq!(reply.sequence_number.into_inner(), 2);
            assert_eq!(duration, Duration::from_millis(4));
        }
        x => panic!("{x:?}"),
    }
}

#[test]
fn a_message_of_the_other_family_is_an_error() {
    match expect_v4(Ok((Icmp::V6(Icmpv6::EchoReply(reply())), Duration::ZERO))) {
        Err(PingError::Unknown(text)) => assert_eq!(text, "unreachable"),
        x => panic!("{x:?}"),
    }
    match expect_v6(Ok((Icmp::V4(Icmpv4::EchoReply(reply())), Duration::ZERO))) {
        Err(PingError::Unknown(text)) => assert_eq!(text, "unreachable"),
        x => panic!("{x:?}"),
    }
}

#[test]
fn an_error_stays_the_error_it_is() {
    assert!(matches!(expect_v4(Err(PingError::RecvTimedOut)), Err(PingError::RecvTimedOut)));
    assert!(matches!(expect_v6(Err(PingError::RecvTimedOut)), Err(PingError::RecvTimedOut)));
}
