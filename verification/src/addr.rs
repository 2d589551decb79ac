//! Socket addresses as plain values.

use vstd::prelude::*;

verus! {

/// An IP socket address: the address bits, the port, and for IPv6 the flow
/// information and scope identifier.
///
/// The address is held as one integer in network order, so `127.0.0.1` is
/// `0x7f00_0001` and `::1` is `1`.
#[allow(inconsistent_fields)]
#[derive(Clone, Copy, Debug, PartialEq, Eq, Hash, Structural)]
pub enum SocketAddr {
    /// An IPv4 address and port.
    V4 { ip: u32, port: u16 },
    /// An IPv6 address, port, flow information and scope identifier.
    V6 { ip: u128, port: u16, flowinfo: u32, scope_id: u32 },
}

} // verus!
