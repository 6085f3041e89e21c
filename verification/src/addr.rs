//! The destination-address model.
//!
//! A destination is one of a closed set: an IPv4 endpoint, an IPv6 endpoint,
//! or a domain name with a port. A domain name must be resolved to concrete
//! endpoints before use; [`pick_resolved`] chooses among the results,
//! preferring an IPv4 endpoint when both families are returned.

use vstd::prelude::*;

verus! {

/// A concrete IP endpoint: a resolved destination, or the local address an
/// outbound socket was bound to.
#[derive(Clone, Debug, PartialEq, Eq)]
pub enum HostAddr {
    /// An IPv4 address (4 octets) and a port.
    V4 { ip: Vec<u8>, port: u16 },
    /// An IPv6 address (16 octets) and a port.
    V6 { ip: Vec<u8>, port: u16 },
}

impl HostAddr {
    /// The address's octet count matches its family.
    pub open spec fn wf(self) -> bool {
        match self {
            HostAddr::V4 { ip, .. } => ip@.len() == 4,
            HostAddr::V6 { ip, .. } => ip@.len() == 16,
        }
    }

    /// Whether this endpoint belongs to the IPv4 family.
    pub fn is_ipv4(&self) -> (r: bool)
        ensures
            r == (self is V4),
    {
        match self {
            HostAddr::V4 { .. } => true,
            HostAddr::V6 { .. } => false,
        }
    }
}

/// A destination a client asked to be connected to.
#[derive(Clone, Debug, PartialEq, Eq)]
pub enum DestAddr {
    /// A concrete IP endpoint.
    Ip(HostAddr),
    /// A domain name (already validated as UTF-8) and a port; it must be
    /// resolved to at least one concrete endpoint before use.
    Domain { name: String, port: u16 },
}

impl DestAddr {
    /// Address octet counts match their family.
    pub open spec fn wf(self) -> bool {
        match self {
            DestAddr::Ip(a) => a.wf(),
            DestAddr::Domain { .. } => true,
        }
    }
}

/// Picks which of a domain name's resolved endpoints to connect to: the
/// first IPv4 endpoint if one exists, otherwise the first endpoint of any
/// family. Returns its index, or `None` when resolution returned nothing
/// (the destination is then unreachable).
pub fn pick_resolved(addrs: &Vec<HostAddr>) -> (r: Option<usize>)
    ensures
        (r is Some) == (addrs@.len() > 0),
        match r {
            Some(i) => i < addrs@.len() && (if addrs@[i as int] is V4 {
                forall|j: int| 0 <= j < i ==> !(addrs@[j] is V4)
            } else {
                i == 0 && forall|j: int| 0 <= j < addrs@.len() ==> !(addrs@[j] is V4)
            }),
            None => true,
        },
{
    let n = addrs.len();
    let mut k: usize = 0;
    while k < n
        invariant
            n == addrs@.len(),
            k <= n,
            forall|j: int| 0 <= j < k ==> !(addrs@[j] is V4),
        decreases n - k,
    {
        if addrs[k].is_ipv4() {
            return Some(k);
        }
        k = k + 1;
    }
    if n > 0 {
        Some(0)
    } else {
        None
    }
}

} // verus!
