//! Matching what arrives to the probes that wait for it.
//!
//! The probes in flight are held in one `AddressMap` for each family, keyed
//! by the address probed; the value of an entry is whatever the caller uses
//! to wake the waiting probe. A later probe to the same address takes the
//! place of an earlier one.
//!
//! `handle_v4_recv_from` and `handle_v6_recv_from` take in one datagram from
//! beginning to end. A caller that guards each table with a lock of its own
//! goes through the same steps one by one, so that each lock is held for one
//! operation on its table: `ReassemblyBuffer::take`, then parsing, then
//! `route`, and then `ReassemblyBuffer::keep` or `claim`.

use vstd::prelude::*;

use crate::address::SocketAddress;
use crate::address_map::AddressMap;
use crate::icmpv4::Icmpv4;
use crate::icmpv6::Icmpv6;
use crate::reassembly::{reassembled, ReassemblyBuffer};
use crate::wire::{decode, ECHO_REPLY_V4, ECHO_REPLY_V6};

verus! {

/// What became of a datagram.
#[derive(Debug)]
pub enum Reception<T, M, E> {
    /// A probe waited for the source: `to` is what was registered for it,
    /// and `result` is to be handed to it.
    Deliver { to: T, result: Result<M, E> },
    /// Nobody waited for the source: `result` goes nowhere.
    Unclaimed { result: Result<M, E> },
    /// The bytes are the beginning of a message and were kept.
    Buffered,
}

/// What a receive loop does next.
#[derive(Debug)]
pub enum LoopAction {
    /// Take in the `len` bytes that were read from `from`, and read on.
    Take { len: usize, from: SocketAddress },
    /// Leave the loop: the transport failed, and nothing is received for
    /// its family any more.
    Stop { error: std::io::Error },
}

/// Decides how a receive loop goes on after a read of its transport. A
/// failure of the transport ends the loop; it is not tried again.
pub fn after_recv_from(outcome: Result<(usize, SocketAddress), std::io::Error>) -> (r: LoopAction)
    ensures
        match outcome {
            Ok((len, from)) => r == (LoopAction::Take { len, from }),
            Err(error) => r == (LoopAction::Stop { error }),
        },
{
    match outcome {
        Ok((len, from)) => LoopAction::Take { len, from },
        Err(error) => LoopAction::Stop { error },
    }
}

/// Where what parsing gave goes.
#[derive(Debug)]
pub enum Route<M, E> {
    /// The bytes are the beginning of a message: they are kept for the
    /// next datagram of their source.
    Keep,
    /// The bytes are a message, or none at all: the probe to their source
    /// is told.
    Notify { result: Result<M, E> },
}

/// Decides where what parsing gave goes.
pub fn route<M, E>(parsed: Result<Option<M>, E>) -> (r: Route<M, E>)
    ensures
        match parsed {
            Ok(None) => r is Keep,
            Ok(Some(message)) => r == (Route::Notify { result: Ok::<M, E>(message) }),
            Err(e) => r == (Route::Notify { result: Err::<M, E>(e) }),
        },
{
    match parsed {
        Ok(None) => Route::Keep,
        Ok(Some(message)) => Route::Notify { result: Ok(message) },
        Err(e) => Route::Notify { result: Err(e) },
    }
}

/// Whom a result from `addr` goes to.
pub open spec fn notified<T, M, E>(
    pending: Map<SocketAddress, T>,
    addr: SocketAddress,
    result: Result<M, E>,
) -> Reception<T, M, E> {
    if pending.contains_key(addr) {
        Reception::Deliver { to: pending[addr], result }
    } else {
        Reception::Unclaimed { result }
    }
}

/// What is kept for later once a datagram from `addr` is taken in: the
/// bytes so far where they are the beginning of a message, nothing for
/// `addr` otherwise.
pub open spec fn buffer_after(
    buffer: Map<SocketAddress, Seq<u8>>,
    addr: SocketAddress,
    bytes_read: Seq<u8>,
    echo_reply: u8,
) -> Map<SocketAddress, Seq<u8>> {
    if decode(reassembled(buffer, addr, bytes_read), echo_reply) is Incomplete {
        buffer.insert(addr, reassembled(buffer, addr, bytes_read))
    } else {
        buffer.remove(addr)
    }
}

/// Who still waits once a datagram from `addr` is taken in: everybody
/// where the bytes so far are the beginning of a message, everybody but
/// the probe to `addr` otherwise.
pub open spec fn pending_after<T>(
    pending: Map<SocketAddress, T>,
    buffer: Map<SocketAddress, Seq<u8>>,
    addr: SocketAddress,
    bytes_read: Seq<u8>,
    echo_reply: u8,
) -> Map<SocketAddress, T> {
    if decode(reassembled(buffer, addr, bytes_read), echo_reply) is Incomplete {
        pending
    } else {
        pending.remove(addr)
    }
}

/// A reply that comes in two datagrams is put together: the first part is
/// kept and wakes nobody, and the second part completes the reply, which
/// goes to the probe that waits for the source.
pub proof fn lemma_split_reply_is_reassembled<T>(
    pending: Map<SocketAddress, T>,
    buffer: Map<SocketAddress, Seq<u8>>,
    addr: SocketAddress,
    bytes: Seq<u8>,
    k: int,
    echo_reply: u8,
)
    requires
        crate::wire::is_whole_echo_reply(bytes, echo_reply),
        0 <= k < 10 + crate::wire::declared_len(bytes),
        !buffer.contains_key(addr),
    ensures
        pending_after(pending, buffer, addr, bytes.take(k), echo_reply) == pending,
        buffer_after(buffer, addr, bytes.take(k), echo_reply) == buffer.insert(
            addr,
            bytes.take(k),
        ),
        reassembled(buffer.insert(addr, bytes.take(k)), addr, bytes.skip(k)) == bytes,
        decode(bytes, echo_reply) is Complete,
        pending_after(
            pending,
            buffer.insert(addr, bytes.take(k)),
            addr,
            bytes.skip(k),
            echo_reply,
        ) == pending.remove(addr),
        buffer_after(buffer.insert(addr, bytes.take(k)), addr, bytes.skip(k), echo_reply)
            == buffer,
{
    crate::wire::lemma_partial_reply_is_incomplete(bytes, echo_reply, k);
    assert(buffer.insert(addr, bytes.take(k)).remove(addr) =~= buffer);
}

/// Of two probes to one address the later one is the one that a reply
/// wakes: the earlier registration is gone once the later one is made, and
/// after the reply nothing is left for the address.
pub proof fn lemma_last_registration_wins<T, M, E>(
    pending: Map<SocketAddress, T>,
    addr: SocketAddress,
    first: T,
    second: T,
    result: Result<M, E>,
)
    ensures
        pending.insert(addr, first).insert(addr, second) == pending.insert(addr, second),
        notified(pending.insert(addr, first).insert(addr, second), addr, result) == (
        Reception::Deliver { to: second, result }),
        pending.insert(addr, first).insert(addr, second).remove(addr) == pending.remove(addr),
{
    assert(pending.insert(addr, first).insert(addr, second) =~= pending.insert(addr, second));
    assert(pending.insert(addr, first).insert(addr, second).remove(addr) =~= pending.remove(
        addr,
    ));
}

/// Ends the wait of the probe to `addr`, if there is one, and says whom
/// `result` goes to.
pub fn claim<T, M, E>(pending: &mut AddressMap<T>, addr: SocketAddress, result: Result<M, E>) -> (r:
    Reception<T, M, E>)
    requires
        old(pending).wf(),
    ensures
        final(pending).wf(),
        final(pending)@ == old(pending)@.remove(addr),
        r == notified(old(pending)@, addr, result),
{
    match pending.remove(&addr) {
        Some(to) => Reception::Deliver { to, result },
        None => Reception::Unclaimed { result },
    }
}

/// Acts on what parsing the bytes from `addr` gave: an incomplete message is
/// kept for the next datagram, and anything else ends the wait of the probe
/// to `addr`, if there is one.
pub fn settle<T, M, E>(
    pending: &mut AddressMap<T>,
    buffer: &mut ReassemblyBuffer,
    addr: SocketAddress,
    bytes: Vec<u8>,
    parsed: Result<Option<M>, E>,
) -> (r: Reception<T, M, E>)
    requires
        old(pending).wf(),
        old(buffer).wf(),
    ensures
        final(pending).wf(),
        final(buffer).wf(),
        match parsed {
            Ok(None) => {
                &&& r is Buffered
                &&& final(pending)@ == old(pending)@
                &&& final(buffer)@ == old(buffer)@.insert(addr, bytes@)
            },
            Ok(Some(message)) => {
                &&& r == notified(old(pending)@, addr, Ok::<M, E>(message))
                &&& final(pending)@ == old(pending)@.remove(addr)
                &&& final(buffer)@ == old(buffer)@
            },
            Err(e) => {
                &&& r == notified(old(pending)@, addr, Err::<M, E>(e))
                &&& final(pending)@ == old(pending)@.remove(addr)
                &&& final(buffer)@ == old(buffer)@
            },
        },
{
    match route(parsed) {
        Route::Keep => {
            buffer.keep(addr, bytes);
            Reception::Buffered
        },
        Route::Notify { result } => claim(pending, addr, result),
    }
}

/// Takes in a datagram that the IPv4 socket read from `addr`. The bytes go
/// behind what was kept for `addr`; where that makes a whole message, or
/// none at all, the probe to `addr` is taken out of `pending` and gets the
/// result.
pub fn handle_v4_recv_from<T>(
    pending: &mut AddressMap<T>,
    buffer: &mut ReassemblyBuffer,
    addr: SocketAddress,
    bytes_read: &[u8],
) -> (r: Reception<T, Icmpv4, crate::icmpv4::ParseError>)
    requires
        old(pending).wf(),
        old(buffer).wf(),
    ensures
        final(pending).wf(),
        final(buffer).wf(),
        final(pending)@ == pending_after(
            old(pending)@,
            old(buffer)@,
            addr,
            bytes_read@,
            ECHO_REPLY_V4,
        ),
        final(buffer)@ == buffer_after(old(buffer)@, addr, bytes_read@, ECHO_REPLY_V4),
        match r {
            Reception::Deliver { to, result } => {
                &&& old(pending)@.contains_key(addr)
                &&& to == old(pending)@[addr]
                &&& crate::icmpv4::delivered_as(
                    result,
                    decode(reassembled(old(buffer)@, addr, bytes_read@), ECHO_REPLY_V4),
                )
            },
            Reception::Unclaimed { result } => {
                &&& !old(pending)@.contains_key(addr)
                &&& crate::icmpv4::delivered_as(
                    result,
                    decode(reassembled(old(buffer)@, addr, bytes_read@), ECHO_REPLY_V4),
                )
            },
            Reception::Buffered => decode(
                reassembled(old(buffer)@, addr, bytes_read@),
                ECHO_REPLY_V4,
            ) is Incomplete,
        },
{
    let bytes = buffer.take(addr, bytes_read);
    let parsed = Icmpv4::parse_from_packet_bytes(bytes.as_slice());
    proof {
        if parsed == Ok::<Option<Icmpv4>, crate::icmpv4::ParseError>(None) {
            assert(old(buffer)@.remove(addr).insert(addr, bytes@) =~= old(buffer)@.insert(
                addr,
                bytes@,
            ));
        }
    }
    settle(pending, buffer, addr, bytes, parsed)
}

/// Takes in a datagram that the IPv6 socket read from `addr`. The bytes go
/// behind what was kept for `addr`; where that makes a whole message, or
/// none at all, the probe to `addr` is taken out of `pending` and gets the
/// result.
pub fn handle_v6_recv_from<T>(
    pending: &mut AddressMap<T>,
    buffer: &mut ReassemblyBuffer,
    addr: SocketAddress,
    bytes_read: &[u8],
) -> (r: Reception<T, Icmpv6, crate::icmpv6::ParseError>)
    requires
        old(pending).wf(),
        old(buffer).wf(),
    ensures
        final(pending).wf(),
        final(buffer).wf(),
        final(pending)@ == pending_after(
            old(pending)@,
            old(buffer)@,
            addr,
            bytes_read@,
            ECHO_REPLY_V6,
        ),
        final(buffer)@ == buffer_after(old(buffer)@, addr, bytes_read@, ECHO_REPLY_V6),
        match r {
            Reception::Deliver { to, result } => {
                &&& old(pending)@.contains_key(addr)
                &&& to == old(pending)@[addr]
                &&& crate::icmpv6::delivered_as(
                    result,
                    decode(reassembled(old(buffer)@, addr, bytes_read@), ECHO_REPLY_V6),
                )
            },
            Reception::Unclaimed { result } => {
                &&& !old(pending)@.contains_key(addr)
                &&& crate::icmpv6::delivered_as(
                    result,
                    decode(reassembled(old(buffer)@, addr, bytes_read@), ECHO_REPLY_V6),
                )
            },
            Reception::Buffered => decode(
                reassembled(old(buffer)@, addr, bytes_read@),
                ECHO_REPLY_V6,
            ) is Incomplete,
        },
{
    let bytes = buffer.take(addr, bytes_read);
    let parsed = Icmpv6::parse_from_packet_bytes(bytes.as_slice());
    proof {
        if parsed == Ok::<Option<Icmpv6>, crate::icmpv6::ParseError>(None) {
            assert(old(buffer)@.remove(addr).insert(addr, bytes@) =~= old(buffer)@.insert(
                addr,
                bytes@,
            ));
        }
    }
    settle(pending, buffer, addr, bytes, parsed)
}

} // verus!
