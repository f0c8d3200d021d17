//! What a probe is asked to do and what it can report.

use crate::addr::IpAddress;
use vstd::prelude::*;

pub mod os;
pub mod probe;
pub mod role;
pub mod run;
pub mod wire;

verus! {

/// The transport and port a probe uses.
#[derive(Clone, Copy, Debug, PartialEq, Eq, Structural)]
pub enum ConnSpec {
    Tcp { port: u16 },
    Udp { port: u16 },
}

impl ConnSpec {
    /// The port the server binds and the client aims at.
    pub open spec fn spec_port(self) -> u16 {
        match self {
            ConnSpec::Tcp { port } => port,
            ConnSpec::Udp { port } => port,
        }
    }

    /// A probe needs a real port: zero would let the kernel pick one.
    pub open spec fn wf(self) -> bool {
        self.spec_port() >= 1
    }

    /// The port the server binds and the client aims at.
    #[verifier::when_used_as_spec(spec_port)]
    pub fn port(self) -> (port: u16)
        ensures
            port == self.spec_port(),
    {
        match self {
            ConnSpec::Tcp { port } => port,
            ConnSpec::Udp { port } => port,
        }
    }

    /// Whether the port is usable, that is, whether `wf` holds.
    pub fn is_valid(self) -> (valid: bool)
        ensures
            valid == self.wf(),
    {
        self.port() >= 1
    }
}

/// What the firewall did to the probe.
#[derive(Clone, Copy, Debug, PartialEq, Eq, Structural)]
pub enum ConnEffect {
    /// The cookie arrived; `source_addr` is the address the server saw it
    /// come from.
    Delivered { source_addr: IpAddress },
    /// The client was told that nobody listens.
    Refused,
    /// Neither side heard from the other before the deadline.
    Unreachable,
}

/// The names and addresses of the two ends of a path.
pub struct PathView {
    pub source_name: Seq<char>,
    pub source_addr: IpAddress,
    pub target_name: Seq<char>,
    pub target_addr: IpAddress,
}

/// A path a probe can travel: a named source and a named target, each with
/// the address it uses on this path.
pub trait ConnPath {
    /// The two ends of the path.
    spec fn ends(&self) -> PathView;

    /// The name of the sending end.
    fn source_name(&self) -> (name: &str)
        ensures
            name@ == self.ends().source_name,
    ;

    /// The address the client sends from.
    fn source_addr(&self) -> (addr: IpAddress)
        ensures
            addr == self.ends().source_addr,
    ;

    /// The name of the receiving end.
    fn target_name(&self) -> (name: &str)
        ensures
            name@ == self.ends().target_name,
    ;

    /// The address the server listens on.
    fn target_addr(&self) -> (addr: IpAddress)
        ensures
            addr == self.ends().target_addr,
    ;
}

} // verus!
