use vstd::prelude::*;

verus! {

/// A remote socket address, held as plain values.
#[derive(Clone, Copy, Debug, PartialEq, Eq, Structural)]
pub enum RemoteAddr {
    /// An IPv4 address (as a big-endian integer) and a port.
    V4 { ipv4: u32, port: u16 },
    /// An IPv6 address (as a big-endian integer), a port, the flow label and the scope id.
    V6 { ipv6: u128, port: u16, flowinfo: u32, scope_id: u32 },
}

/// The per-datagram overhead assumed for probe sizing on a path to `remote`.
pub open spec fn header_size_of(remote: RemoteAddr) -> u16 {
    match remote {
        RemoteAddr::V4 { .. } => 20,
        RemoteAddr::V6 { .. } => 48,
    }
}

/// The overhead, in bytes, that probe sizes add on top of the MTU for a path
/// to `remote`: 20 for an IPv4 address, 48 for an IPv6 address.
pub fn header_size(remote: &RemoteAddr) -> (r: u16)
    ensures
        r == header_size_of(*remote),
{
    match remote {
        RemoteAddr::V4 { .. } => 20,
        RemoteAddr::V6 { .. } => 48,
    }
}

} // verus!
