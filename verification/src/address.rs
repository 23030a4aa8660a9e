use vstd::prelude::*;

verus! {

/// A socket address held as plain numbers: an IPv4 address with its port,
/// or an IPv6 address with its port, flow label and scope id.
#[derive(Debug, Clone, Copy, PartialEq, Eq, Hash, Structural)]
pub enum SocketAddress {
    V4 { ipv4: u32, port: u16 },
    V6 { ipv6: u128, port: u16, flowinfo: u32, scope_id: u32 },
}

impl SocketAddress {
    /// The port of either kind of address.
    pub fn port(&self) -> (p: u16)
        ensures
            p == match *self {
                SocketAddress::V4 { port, .. } => port,
                SocketAddress::V6 { port, .. } => port,
            },
    {
        match *self {
            SocketAddress::V4 { port, .. } => port,
            SocketAddress::V6 { port, .. } => port,
        }
    }
}

} // verus!
