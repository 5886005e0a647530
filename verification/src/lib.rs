//! ICMP echo probing without the sockets: the Echo Request and Echo Reply
//! codec for IPv4 and IPv6, and the bookkeeping that matches replies to the
//! probes that wait for them.
//!
//! The library computes and decides; it never sends, receives, sleeps or
//! reads a clock. A caller that owns the sockets drives it:
//!
//! - [`ping::begin`] builds the bytes of a probe and registers who waits for
//!   the reply, [`ping::advance_send`] follows the writes that send them, and
//!   [`ping::resolve_v4`] and [`ping::resolve_v6`] turn the end of the wait
//!   into the caller's result;
//! - [`correlation::after_recv_from`] says whether a receive loop goes on,
//!   and [`correlation::handle_v4_recv_from`] and
//!   [`correlation::handle_v6_recv_from`] take in each datagram that a socket
//!   read, keep what is only the beginning of a message, and say whom a
//!   whole message goes to.
//!
//! A caller that guards its tables with locks finds the same work in steps
//! that touch one table each: [`ping::prepare`] and [`ping::register`] for a
//! probe, and [`reassembly::ReassemblyBuffer::take`], [`correlation::route`],
//! [`reassembly::ReassemblyBuffer::keep`] and [`correlation::claim`] for a
//! datagram.
//!
//! The header of a message is read and written by `pnet_packet`, and the
//! IPv4 checksum is computed by it; [`wire`] states what is taken on trust
//! of those calls. Everything else is proved against the contracts that the
//! functions carry.

use vstd::prelude::*;

pub mod address;
pub mod address_map;
pub mod config;
pub mod correlation;
pub mod echo_reply;
pub mod echo_request;
pub mod icmp;
pub mod icmpv4;
pub mod icmpv6;
pub mod ping;
pub mod reassembly;
pub mod types;
pub mod wire;

pub use echo_reply::PayloadLengthDelimitedEchoReply;
pub use echo_request::PayloadLengthDelimitedEchoRequest;
pub use icmp::Icmp;
pub use icmpv4::Icmpv4;
pub use icmpv6::Icmpv6;
pub use ping::PingError;
pub use types::{Identifier, LenWithPayloadLengthDelimited, Payload, SequenceNumber};

verus! {

/// Bytes of the fixed header of an echo message: type, code, checksum,
/// identifier and sequence number.
pub const ICMP_HEADER_SIZE: usize = 8;

} // verus!
