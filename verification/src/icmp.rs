//! A message of either family.

use vstd::prelude::*;

use crate::icmpv4::Icmpv4;
use crate::icmpv6::Icmpv6;

verus! {

/// A received message, tagged with the family it came over.
#[derive(Debug, Clone)]
pub enum Icmp {
    V4(Icmpv4),
    V6(Icmpv6),
}

} // verus!
