//! The network endpoint at which a device was last observed.

use vstd::prelude::*;

verus! {

/// A socket address as plain integers: the bits of the IP address, most
/// significant octet first, and the port. The cache stores and hands back
/// such a value and never looks inside it.
#[derive(Clone, Copy, Debug, PartialEq, Eq, Structural)]
pub enum SocketAddress {
    V4 { octets: u32, port: u16 },
    V6 { segments: u128, port: u16, flowinfo: u32, scope_id: u32 },
}

impl SocketAddress {
    /// The address `0.0.0.0:0`, which a record carries until a registration
    /// reports where the device is.
    pub open spec fn unspecified() -> SocketAddress {
        SocketAddress::V4 { octets: 0, port: 0 }
    }

    /// The address `0.0.0.0:0`.
    pub fn new_unspecified() -> (addr: SocketAddress)
        ensures
            addr == SocketAddress::unspecified(),
    {
        SocketAddress::V4 { octets: 0, port: 0 }
    }
}

} // verus!
