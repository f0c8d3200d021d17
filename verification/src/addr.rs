//! IP addresses as numbers.

use vstd::prelude::*;

verus! {

/// The two address families a probe can use.
#[derive(Clone, Copy, Debug, PartialEq, Eq, Structural)]
pub enum Family {
    V4,
    V6,
}

/// An IP address, held as the unsigned number its bytes spell in network order.
///
/// `V4(0x7f00_0001)` is 127.0.0.1 and `V6(1)` is ::1.
#[derive(Clone, Copy, Debug, PartialEq, Eq, Structural)]
pub enum IpAddress {
    V4(u32),
    V6(u128),
}

impl IpAddress {
    /// The family the address belongs to.
    pub open spec fn spec_family(self) -> Family {
        match self {
            IpAddress::V4(_) => Family::V4,
            IpAddress::V6(_) => Family::V6,
        }
    }

    /// The family the address belongs to.
    #[verifier::when_used_as_spec(spec_family)]
    pub fn family(self) -> (family: Family)
        ensures
            family == self.spec_family(),
    {
        match self {
            IpAddress::V4(_) => Family::V4,
            IpAddress::V6(_) => Family::V6,
        }
    }
}

/// An address together with a port: what a socket binds or connects to.
#[derive(Clone, Copy, Debug, PartialEq, Eq, Structural)]
pub struct SocketAddress {
    pub addr: IpAddress,
    pub port: u16,
}

} // verus!
