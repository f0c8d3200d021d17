//! Paths between network namespaces and what each end of a probe reports.

use crate::addr::IpAddress;
use crate::conn::probe::PROBE_TIMEOUT_SECS;
use crate::conn::role::{
    client_plan, client_plan_of, server_plan, server_plan_of, ClientPlan, ServerPlan,
};
use crate::conn::{ConnPath, ConnSpec, PathView};
use vstd::prelude::*;

verus! {

/// What a probe on a path is set up with.
#[derive(Clone, Copy, Debug, PartialEq, Eq, Structural)]
pub struct ProbePlan {
    /// The deadline of the whole probe, in seconds from its start.
    pub timeout_secs: u64,
    /// The server's socket, to be made inside the target's namespace.
    pub server: ServerPlan,
    /// The client's socket, to be made inside the source's namespace.
    pub client: ClientPlan,
}

/// A path from an address in one namespace to an address in another.
///
/// `Ns` is whatever the caller uses as a handle on a network namespace. The
/// path only borrows the two handles and never looks inside them.
pub struct OsNsConnPath<'a, Ns> {
    source_name: &'a str,
    source: &'a Ns,
    source_addr: IpAddress,
    target_name: &'a str,
    target: &'a Ns,
    target_addr: IpAddress,
}

impl<'a, Ns> OsNsConnPath<'a, Ns> {
    /// The namespace the client runs in.
    pub closed spec fn spec_source(&self) -> &'a Ns {
        self.source
    }

    /// The namespace the server runs in.
    pub closed spec fn spec_target(&self) -> &'a Ns {
        self.target
    }

    /// Whether both ends use the same address family, as a probe needs.
    pub open spec fn spec_is_consistent(&self) -> bool {
        self.ends().source_addr.spec_family() == self.ends().target_addr.spec_family()
    }

    /// A path from `source_addr` in `source` to `target_addr` in `target`.
    pub fn new(
        source_name: &'a str,
        source: &'a Ns,
        source_addr: IpAddress,
        target_name: &'a str,
        target: &'a Ns,
        target_addr: IpAddress,
    ) -> (path: OsNsConnPath<'a, Ns>)
        ensures
            path.ends() == (PathView {
                source_name: source_name@,
                source_addr,
                target_name: target_name@,
                target_addr,
            }),
            path.spec_source() == source,
            path.spec_target() == target,
    {
        OsNsConnPath { source_name, source, source_addr, target_name, target, target_addr }
    }

    /// The namespace the client runs in.
    #[verifier::when_used_as_spec(spec_source)]
    pub fn source(&self) -> (ns: &'a Ns)
        ensures
            ns == self.spec_source(),
    {
        self.source
    }

    /// The namespace the server runs in.
    #[verifier::when_used_as_spec(spec_target)]
    pub fn target(&self) -> (ns: &'a Ns)
        ensures
            ns == self.spec_target(),
    {
        self.target
    }

    /// What a probe for `spec` on this path is set up with: two seconds for
    /// the whole of it, a server on the target address and a client aimed at
    /// it.
    pub fn connect(&self, spec: ConnSpec) -> (plan: ProbePlan)
        requires
            self.spec_is_consistent(),
            spec.wf(),
        ensures
            plan == (ProbePlan {
                timeout_secs: 2,
                server: server_plan_of(spec, self.ends().target_addr),
                client: client_plan_of(spec, self.ends().source_addr, self.ends().target_addr),
            }),
    {
        ProbePlan {
            timeout_secs: PROBE_TIMEOUT_SECS,
            server: server_plan(spec, self.target_addr),
            client: client_plan(spec, self.source_addr, self.target_addr),
        }
    }

    /// Whether both ends use the same address family, as a probe needs.
    #[verifier::when_used_as_spec(spec_is_consistent)]
    pub fn is_consistent(&self) -> (consistent: bool)
        ensures
            consistent == self.spec_is_consistent(),
    {
        self.source_addr.family() == self.target_addr.family()
    }
}

impl<'a, Ns> ConnPath for OsNsConnPath<'a, Ns> {
    closed spec fn ends(&self) -> PathView {
        PathView {
            source_name: self.source_name@,
            source_addr: self.source_addr,
            target_name: self.target_name@,
            target_addr: self.target_addr,
        }
    }

    fn source_name(&self) -> (name: &str) {
        self.source_name
    }

    fn source_addr(&self) -> (addr: IpAddress) {
        self.source_addr
    }

    fn target_name(&self) -> (name: &str) {
        self.target_name
    }

    fn target_addr(&self) -> (addr: IpAddress) {
        self.target_addr
    }
}

/// How the client's part of a probe ended.
#[derive(Clone, Copy, Debug, PartialEq, Eq, Structural)]
pub enum ClientStatus {
    /// The cookie left the client's socket.
    SentCookie(SentCookie),
    /// The client was told that nobody listens at the target.
    Refused,
}

/// The cookie a client sent.
#[derive(Clone, Copy, Debug, PartialEq, Eq, Structural)]
pub struct SentCookie {
    pub cookie: u128,
}

/// How the server's part of a probe ended.
#[derive(Clone, Copy, Debug, PartialEq, Eq, Structural)]
pub enum ServerStatus {
    /// A cookie arrived.
    ReceivedCookie(ReceivedCookie),
    /// The server was called off before anything arrived.
    Aborted,
}

/// The cookie a server received and the address it came from.
#[derive(Clone, Copy, Debug, PartialEq, Eq, Structural)]
pub struct ReceivedCookie {
    pub cookie: u128,
    pub peer_addr: IpAddress,
}

} // verus!
