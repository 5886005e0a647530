//! The steps of one probe, apart from the sending and the waiting
//! themselves: what to send and under which address to wait, how far a
//! partial write has come, and what the wait's outcome means for the caller.
//!
//! `begin` builds a probe and registers its waiter in one go. A caller that
//! guards the table with a lock calls `prepare` first and takes the lock for
//! `register` alone; it sends nothing before `register` has returned.

use core::time::Duration;
use vstd::prelude::*;

use crate::address::{probe_address, IpAddress, SocketAddress};
use crate::address_map::AddressMap;
use crate::echo_request::PayloadLengthDelimitedEchoRequest;
use crate::icmp::Icmp;
use crate::icmpv4::Icmpv4;
use crate::icmpv6::Icmpv6;
use crate::types::{max_payload_len, Identifier, SequenceNumber};
use crate::correlation::{buffer_after, pending_after};
use crate::reassembly::reassembled;
use crate::wire::{
    decode, echo_request_v4_bytes, echo_request_v6_bytes, lemma_round_trip_v4,
    lemma_round_trip_v6, Decoded, Message, ECHO_REPLY_V4, ECHO_REPLY_V6,
};

verus! {

/// The error type of the transport. Nothing is read from it here: it is
/// carried to the caller as it came.
#[verifier::external_type_specification]
#[verifier::external_body]
pub struct ExIoError(std::io::Error);

/// Why a probe brought no reply.
#[derive(Debug)]
pub enum PingError {
    /// The transport failed to send, or took no bytes.
    Send(std::io::Error),
    /// What came back over IPv4 was no message.
    Icmpv4ParseError(crate::icmpv4::ParseError),
    /// What came back over IPv6 was no message.
    Icmpv6ParseError(crate::icmpv6::ParseError),
    /// Nothing came back in time.
    RecvTimedOut,
    /// Something that should not happen did.
    Unknown(String),
}

/// Makes the error for a write that took no bytes, by `std::io::Error::from`
/// on `std::io::ErrorKind::WriteZero`.
#[verifier::external_body]
fn write_zero() -> (e: std::io::Error) {
    std::io::Error::from(std::io::ErrorKind::WriteZero)
}

/// What is sent for a probe, and where to.
#[derive(Debug)]
pub struct Probe {
    /// Where the bytes go, and the address under which the reply is waited
    /// for.
    pub destination: SocketAddress,
    pub identifier: Identifier,
    pub sequence_number: SequenceNumber,
    /// The rendered Echo Request.
    pub bytes: Vec<u8>,
}

/// The Echo Request of the family that `ip` belongs to.
pub open spec fn probe_bytes(
    ip: IpAddress,
    identifier: u16,
    sequence_number: u16,
    payload: Seq<u8>,
) -> Seq<u8> {
    match ip {
        IpAddress::V4(_) => echo_request_v4_bytes(identifier, sequence_number, payload),
        IpAddress::V6(_) => echo_request_v6_bytes(identifier, sequence_number, payload),
    }
}

/// The type of an Echo Reply in the family that `ip` belongs to.
pub open spec fn echo_reply_of(ip: IpAddress) -> u8 {
    match ip {
        IpAddress::V4(_) => ECHO_REPLY_V4,
        IpAddress::V6(_) => ECHO_REPLY_V6,
    }
}

/// A probe that its peer echoes comes back to the one who waits for it:
/// the echoed bytes, arriving in one datagram from the address probed, read
/// as a reply with the identifier, the sequence number and the payload of
/// the probe, the waiter registered for the address is the one to be woken,
/// and afterwards nobody waits for the address and nothing is kept for it.
pub proof fn lemma_echoed_probe_wakes_its_waiter<T>(
    pending: Map<SocketAddress, T>,
    buffer: Map<SocketAddress, Seq<u8>>,
    ip: IpAddress,
    identifier: u16,
    sequence_number: u16,
    payload: Seq<u8>,
    waiter: T,
)
    requires
        payload.len() <= max_payload_len(),
        !buffer.contains_key(probe_address(ip)),
    ensures
        ({
            let addr = probe_address(ip);
            let registered = pending.insert(addr, waiter);
            let echoed = probe_bytes(ip, identifier, sequence_number, payload).update(
                0,
                echo_reply_of(ip),
            );
            &&& decode(reassembled(buffer, addr, echoed), echo_reply_of(ip)) == Decoded::Complete(
                Message::EchoReply {
                    identifier,
                    sequence_number,
                    len: payload.len() as u16,
                    payload,
                },
            )
            &&& registered.contains_key(addr)
            &&& registered[addr] == waiter
            &&& pending_after(registered, buffer, addr, echoed, echo_reply_of(ip))
                == pending.remove(addr)
            &&& buffer_after(buffer, addr, echoed, echo_reply_of(ip)) == buffer
        }),
{
    let addr = probe_address(ip);
    match ip {
        IpAddress::V4(_) => lemma_round_trip_v4(identifier, sequence_number, payload),
        IpAddress::V6(_) => lemma_round_trip_v6(identifier, sequence_number, payload),
    }
    assert(pending.insert(addr, waiter).remove(addr) =~= pending.remove(addr));
    assert(buffer.remove(addr) =~= buffer);
}

/// Builds the probe to `ip`. Where no identifier is given, it is that of the
/// process with the given id; where no sequence number is given, it is 0.
pub fn prepare(
    ip: IpAddress,
    identifier: Option<u16>,
    sequence_number: Option<u16>,
    payload: &[u8],
    process_id: u32,
) -> (r: Probe)
    requires
        payload@.len() <= max_payload_len(),
    ensures
        r.destination == probe_address(ip),
        r.bytes@ == probe_bytes(ip, r.identifier.0, r.sequence_number.0, payload@),
        identifier matches Some(given) ==> r.identifier.0 == given,
        identifier is None && process_id <= 0xffff ==> r.identifier.0 == process_id,
        sequence_number matches Some(given) ==> r.sequence_number.0 == given,
        sequence_number is None ==> r.sequence_number.0 == 0,
{
    let identifier = match identifier {
        Some(given) => Identifier(given),
        None => Identifier::gen(process_id),
    };
    let sequence_number = match sequence_number {
        Some(given) => SequenceNumber(given),
        None => SequenceNumber::default(),
    };
    let echo_request = PayloadLengthDelimitedEchoRequest::new(
        Some(identifier),
        Some(sequence_number),
        payload,
        process_id,
    );
    let bytes = match ip {
        IpAddress::V4(_) => echo_request.render_v4_packet_bytes(),
        IpAddress::V6(_) => echo_request.render_v6_packet_bytes(),
    };
    Probe { destination: SocketAddress::for_probe(ip), identifier, sequence_number, bytes }
}

/// Registers `waiter` for the reply to `probe` in `pending`, the table of the
/// family of its destination. Whoever waited for the same address is handed
/// back and waits in vain from now on.
pub fn register<T>(pending: &mut AddressMap<T>, probe: &Probe, waiter: T) -> (r: Option<T>)
    requires
        old(pending).wf(),
    ensures
        final(pending).wf(),
        final(pending)@ == old(pending)@.insert(probe.destination, waiter),
        r == if old(pending)@.contains_key(probe.destination) {
            Some(old(pending)@[probe.destination])
        } else {
            None::<T>
        },
{
    pending.insert(probe.destination, waiter)
}

/// Builds the probe to `ip` and registers `waiter` for its reply in
/// `pending`, the table of the family of `ip`. The probe is registered
/// before its bytes are handed out, so no reply can come before the waiter
/// is known. Whoever waited for the same address is handed back and waits
/// in vain from now on.
pub fn begin<T>(
    pending: &mut AddressMap<T>,
    ip: IpAddress,
    identifier: Option<u16>,
    sequence_number: Option<u16>,
    payload: &[u8],
    process_id: u32,
    waiter: T,
) -> (r: (Probe, Option<T>))
    requires
        old(pending).wf(),
        payload@.len() <= max_payload_len(),
    ensures
        final(pending).wf(),
        final(pending)@ == old(pending)@.insert(probe_address(ip), waiter),
        r.1 == if old(pending)@.contains_key(probe_address(ip)) {
            Some(old(pending)@[probe_address(ip)])
        } else {
            None::<T>
        },
        r.0.destination == probe_address(ip),
        r.0.bytes@ == probe_bytes(ip, r.0.identifier.0, r.0.sequence_number.0, payload@),
        identifier matches Some(given) ==> r.0.identifier.0 == given,
        identifier is None && process_id <= 0xffff ==> r.0.identifier.0 == process_id,
        sequence_number matches Some(given) ==> r.0.sequence_number.0 == given,
        sequence_number is None ==> r.0.sequence_number.0 == 0,
{
    let probe = prepare(ip, identifier, sequence_number, payload, process_id);
    let displaced = register(pending, &probe, waiter);
    (probe, displaced)
}

/// How far the sending of a probe has come.
#[derive(Debug, Clone, Copy, PartialEq, Eq, Structural)]
pub enum SendProgress {
    /// The first `written` bytes are out; the rest is to be written next.
    Pending { written: usize },
    /// All bytes are out.
    Complete,
}

/// Takes in what the transport said of a write of the bytes from `written`
/// on, of `total` in all. An error of the transport ends the probe, and so
/// does a write that took no bytes.
pub fn advance_send(total: usize, written: usize, outcome: Result<usize, std::io::Error>) -> (r:
    Result<SendProgress, PingError>)
    requires
        written < total,
        outcome matches Ok(n) ==> n <= total - written,
    ensures
        match outcome {
            Err(e) => r == Err::<SendProgress, PingError>(PingError::Send(e)),
            Ok(n) => if n == 0 {
                r matches Err(PingError::Send(_))
            } else if written + n == total {
                r == Ok::<SendProgress, PingError>(SendProgress::Complete)
            } else {
                r == Ok::<SendProgress, PingError>(
                    SendProgress::Pending { written: (written + n) as usize },
                )
            },
        },
{
    match outcome {
        Err(e) => Err(PingError::Send(e)),
        Ok(n) => {
            if n == 0 {
                Err(PingError::Send(write_zero()))
            } else if written + n == total {
                Ok(SendProgress::Complete)
            } else {
                Ok(SendProgress::Pending { written: written + n })
            }
        },
    }
}

/// The timeout in whole milliseconds, as the timer takes it: what is above
/// 64 bits is cut off.
pub fn timeout_millis(millis: u128) -> (r: u64)
    ensures
        r == millis % 0x1_0000_0000_0000_0000,
{
    (millis % 0x1_0000_0000_0000_0000) as u64
}

/// How the wait for a reply ended.
#[derive(Debug)]
pub enum Awaited<M, E> {
    /// The receive loop handed over a result. `measured` is the time from
    /// the dispatch of the probe to the arrival of the datagram, or nothing
    /// where the clock put the arrival before the dispatch.
    Delivered { result: Result<M, E>, measured: Option<Duration> },
    /// The channel was closed with nothing in it.
    Closed,
    /// The timeout ran out first.
    TimedOut,
}

/// The round-trip time: the measured one, or the time since the dispatch
/// where there is none.
pub open spec fn round_trip(measured: Option<Duration>, elapsed: Duration) -> Duration {
    match measured {
        Some(duration) => duration,
        None => elapsed,
    }
}

/// What the caller of a probe over IPv4 gets. `elapsed` is the time since
/// the dispatch of the probe.
pub fn resolve_v4(awaited: Awaited<Icmpv4, crate::icmpv4::ParseError>, elapsed: Duration) -> (r:
    Result<(Icmp, Duration), PingError>)
    ensures
        match awaited {
            Awaited::Delivered { result: Ok(message), measured } => r == Ok::<
                (Icmp, Duration),
                PingError,
            >((Icmp::V4(message), round_trip(measured, elapsed))),
            Awaited::Delivered { result: Err(e), .. } => r == Err::<(Icmp, Duration), PingError>(
                PingError::Icmpv4ParseError(e),
            ),
            Awaited::Closed => r matches Err(PingError::Unknown(text)) && text@
                == "rx.recv None"@,
            Awaited::TimedOut => r == Err::<(Icmp, Duration), PingError>(PingError::RecvTimedOut),
        },
{
    match awaited {
        Awaited::Delivered { result: Ok(message), measured } => {
            let duration = match measured {
                Some(duration) => duration,
                None => elapsed,
            };
            Ok((Icmp::V4(message), duration))
        },
        Awaited::Delivered { result: Err(e), .. } => Err(PingError::Icmpv4ParseError(e)),
        Awaited::Closed => Err(PingError::Unknown("rx.recv None".to_owned())),
        Awaited::TimedOut => Err(PingError::RecvTimedOut),
    }
}

/// What the caller of a probe over IPv6 gets. `elapsed` is the time since
/// the dispatch of the probe.
pub fn resolve_v6(awaited: Awaited<Icmpv6, crate::icmpv6::ParseError>, elapsed: Duration) -> (r:
    Result<(Icmp, Duration), PingError>)
    ensures
        match awaited {
            Awaited::Delivered { result: Ok(message), measured } => r == Ok::<
                (Icmp, Duration),
                PingError,
            >((Icmp::V6(message), round_trip(measured, elapsed))),
            Awaited::Delivered { result: Err(e), .. } => r == Err::<(Icmp, Duration), PingError>(
                PingError::Icmpv6ParseError(e),
            ),
            Awaited::Closed => r matches Err(PingError::Unknown(text)) && text@
                == "rx.recv None"@,
            Awaited::TimedOut => r == Err::<(Icmp, Duration), PingError>(PingError::RecvTimedOut),
        },
{
    match awaited {
        Awaited::Delivered { result: Ok(message), measured } => {
            let duration = match measured {
                Some(duration) => duration,
                None => elapsed,
            };
            Ok((Icmp::V6(message), duration))
        },
        Awaited::Delivered { result: Err(e), .. } => Err(PingError::Icmpv6ParseError(e)),
        Awaited::Closed => Err(PingError::Unknown("rx.recv None".to_owned())),
        Awaited::TimedOut => Err(PingError::RecvTimedOut),
    }
}

/// The message of a probe that went out over IPv4. One of the other family
/// cannot come back for it; if one does, that is an error.
pub fn expect_v4(outcome: Result<(Icmp, Duration), PingError>) -> (r: Result<
    (Icmpv4, Duration),
    PingError,
>)
    ensures
        match outcome {
            Ok((Icmp::V4(message), duration)) => r == Ok::<(Icmpv4, Duration), PingError>(
                (message, duration),
            ),
            Ok((Icmp::V6(_), _)) => r matches Err(PingError::Unknown(text)) && text@
                == "unreachable"@,
            Err(e) => r == Err::<(Icmpv4, Duration), PingError>(e),
        },
{
    match outcome {
        Ok((Icmp::V4(message), duration)) => Ok((message, duration)),
        Ok((Icmp::V6(_), _)) => Err(PingError::Unknown("unreachable".to_owned())),
        Err(e) => Err(e),
    }
}

/// The message of a probe that went out over IPv6. One of the other family
/// cannot come back for it; if one does, that is an error.
pub fn expect_v6(outcome: Result<(Icmp, Duration), PingError>) -> (r: Result<
    (Icmpv6, Duration),
    PingError,
>)
    ensures
        match outcome {
            Ok((Icmp::V6(message), duration)) => r == Ok::<(Icmpv6, Duration), PingError>(
                (message, duration),
            ),
            Ok((Icmp::V4(_), _)) => r matches Err(PingError::Unknown(text)) && text@
                == "unreachable"@,
            Err(e) => r == Err::<(Icmpv6, Duration), PingError>(e),
        },
{
    match outcome {
        Ok((Icmp::V6(message), duration)) => Ok((message, duration)),
        Ok((Icmp::V4(_), _)) => Err(PingError::Unknown("unreachable".to_owned())),
        Err(e) => Err(e),
    }
}

} // verus!
