//! Interface addresses and the peers drawn for them.
//!
//! A host's interface has an address inside a network. Whoever talks to the
//! host over that interface needs another address of the same network; it is
//! drawn at random.

use crate::addr::IpAddress;
use crate::trusted::{
    ipv4_hostmask, ipv4_network, ipv6_hostmask, ipv6_network, random_u128, random_u32,
};
use vstd::prelude::*;

pub mod os;

verus! {

/// The host mask of an IPv4 network: the low `32 - prefix_len` bits.
pub open spec fn ipv4_hostmask_of(prefix_len: u8) -> u32 {
    if prefix_len >= 32 {
        0
    } else {
        u32::MAX >> prefix_len
    }
}

/// The network mask of an IPv4 network: the high `prefix_len` bits.
pub open spec fn ipv4_netmask_of(prefix_len: u8) -> u32 {
    if prefix_len == 0 {
        0
    } else {
        u32::MAX << ((32 - prefix_len) as u32)
    }
}

/// The host mask of an IPv6 network: the low `128 - prefix_len` bits.
pub open spec fn ipv6_hostmask_of(prefix_len: u8) -> u128 {
    if prefix_len >= 128 {
        0
    } else {
        u128::MAX >> prefix_len
    }
}

/// The network mask of an IPv6 network: the high `prefix_len` bits.
pub open spec fn ipv6_netmask_of(prefix_len: u8) -> u128 {
    if prefix_len == 0 {
        0
    } else {
        u128::MAX << ((128 - prefix_len) as u128)
    }
}

/// An IPv4 address and the length of its network's prefix.
#[derive(Clone, Copy, Debug, PartialEq, Eq, Structural)]
pub struct NetV4 {
    pub addr: u32,
    pub prefix_len: u8,
}

/// An IPv6 address and the length of its network's prefix.
#[derive(Clone, Copy, Debug, PartialEq, Eq, Structural)]
pub struct NetV6 {
    pub addr: u128,
    pub prefix_len: u8,
}

/// An interface address: an IP address together with the network it lies
/// in, as in `198.51.100.1/24`.
#[derive(Clone, Copy, Debug, PartialEq, Eq, Structural)]
pub enum AddrWithNet {
    V4(NetV4),
    V6(NetV6),
}

impl NetV4 {
    /// A prefix covers at most the whole address.
    pub open spec fn wf(self) -> bool {
        self.prefix_len <= 32
    }

    /// The first address of the network: the address with its host part
    /// cleared.
    pub open spec fn spec_network(self) -> u32 {
        self.addr & ipv4_netmask_of(self.prefix_len)
    }

    /// The address in the same network whose host part is that of `draw`.
    pub open spec fn with_host_of(self, draw: u32) -> NetV4 {
        NetV4 {
            addr: self.spec_network() | (draw & ipv4_hostmask_of(self.prefix_len)),
            prefix_len: self.prefix_len,
        }
    }

    /// The first address of the network.
    #[verifier::when_used_as_spec(spec_network)]
    pub fn network(self) -> (network: u32)
        requires
            self.wf(),
        ensures
            network == self.spec_network(),
    {
        ipv4_network(self.addr, self.prefix_len)
    }

    /// The peer that the draw `draw` stands for: the address in the same
    /// network with the host part of `draw`, unless that is the interface's
    /// own address.
    pub fn peer_from_draw(self, draw: u32) -> (peer: Option<NetV4>)
        requires
            self.wf(),
        ensures
            peer == (if self.with_host_of(draw) != self {
                Some(self.with_host_of(draw))
            } else {
                None
            }),
            peer matches Some(p) ==> p.wf() && p.spec_network() == self.spec_network(),
    {
        let network = ipv4_network(self.addr, self.prefix_len);
        let hostmask = ipv4_hostmask(self.addr, self.prefix_len);
        let candidate = NetV4 { addr: network | (draw & hostmask), prefix_len: self.prefix_len };
        proof {
            lemma_ipv4_peer_network(self.addr, self.prefix_len, draw);
        }
        if candidate.addr != self.addr {
            Some(candidate)
        } else {
            None
        }
    }
}

impl NetV6 {
    /// A prefix covers at most the whole address.
    pub open spec fn wf(self) -> bool {
        self.prefix_len <= 128
    }

    /// The first address of the network: the address with its host part
    /// cleared.
    pub open spec fn spec_network(self) -> u128 {
        self.addr & ipv6_netmask_of(self.prefix_len)
    }

    /// The address in the same network whose host part is that of `draw`.
    pub open spec fn with_host_of(self, draw: u128) -> NetV6 {
        NetV6 {
            addr: self.spec_network() | (draw & ipv6_hostmask_of(self.prefix_len)),
            prefix_len: self.prefix_len,
        }
    }

    /// The first address of the network.
    #[verifier::when_used_as_spec(spec_network)]
    pub fn network(self) -> (network: u128)
        requires
            self.wf(),
        ensures
            network == self.spec_network(),
    {
        ipv6_network(self.addr, self.prefix_len)
    }

    /// The peer that the draw `draw` stands for: the address in the same
    /// network with the host part of `draw`, unless that is the interface's
    /// own address.
    pub fn peer_from_draw(self, draw: u128) -> (peer: Option<NetV6>)
        requires
            self.wf(),
        ensures
            peer == (if self.with_host_of(draw) != self {
                Some(self.with_host_of(draw))
            } else {
                None
            }),
            peer matches Some(p) ==> p.wf() && p.spec_network() == self.spec_network(),
    {
        let network = ipv6_network(self.addr, self.prefix_len);
        let hostmask = ipv6_hostmask(self.addr, self.prefix_len);
        let candidate = NetV6 { addr: network | (draw & hostmask), prefix_len: self.prefix_len };
        proof {
            lemma_ipv6_peer_network(self.addr, self.prefix_len, draw);
        }
        if candidate.addr != self.addr {
            Some(candidate)
        } else {
            None
        }
    }
}

impl AddrWithNet {
    /// A prefix covers at most the whole address.
    pub open spec fn wf(self) -> bool {
        match self {
            AddrWithNet::V4(net) => net.wf(),
            AddrWithNet::V6(net) => net.wf(),
        }
    }

    /// The address itself, without its network.
    pub open spec fn spec_addr(self) -> IpAddress {
        match self {
            AddrWithNet::V4(net) => IpAddress::V4(net.addr),
            AddrWithNet::V6(net) => IpAddress::V6(net.addr),
        }
    }

    /// The length of the network's prefix.
    pub open spec fn spec_prefix_len(self) -> u8 {
        match self {
            AddrWithNet::V4(net) => net.prefix_len,
            AddrWithNet::V6(net) => net.prefix_len,
        }
    }

    /// The first address of the network.
    pub open spec fn spec_network(self) -> IpAddress {
        match self {
            AddrWithNet::V4(net) => IpAddress::V4(net.spec_network()),
            AddrWithNet::V6(net) => IpAddress::V6(net.spec_network()),
        }
    }

    /// Whether the network has room for a second address.
    pub open spec fn has_peers(self) -> bool {
        match self {
            AddrWithNet::V4(net) => net.prefix_len < 32,
            AddrWithNet::V6(net) => net.prefix_len < 128,
        }
    }

    /// Whether `self` can serve as the peer of the interface address `own`:
    /// another address of the same network, written with the same prefix.
    pub open spec fn is_peer_of(self, own: AddrWithNet) -> bool {
        &&& self.wf()
        &&& self.spec_prefix_len() == own.spec_prefix_len()
        &&& self.spec_network() == own.spec_network()
        &&& self.spec_addr() != own.spec_addr()
    }

    /// The address itself, without its network.
    #[verifier::when_used_as_spec(spec_addr)]
    pub fn addr(self) -> (addr: IpAddress)
        ensures
            addr == self.spec_addr(),
    {
        match self {
            AddrWithNet::V4(net) => IpAddress::V4(net.addr),
            AddrWithNet::V6(net) => IpAddress::V6(net.addr),
        }
    }

    /// The length of the network's prefix.
    #[verifier::when_used_as_spec(spec_prefix_len)]
    pub fn prefix_len(self) -> (prefix_len: u8)
        ensures
            prefix_len == self.spec_prefix_len(),
    {
        match self {
            AddrWithNet::V4(net) => net.prefix_len,
            AddrWithNet::V6(net) => net.prefix_len,
        }
    }

    /// The first address of the network.
    #[verifier::when_used_as_spec(spec_network)]
    pub fn network(self) -> (network: IpAddress)
        requires
            self.wf(),
        ensures
            network == self.spec_network(),
    {
        match self {
            AddrWithNet::V4(net) => IpAddress::V4(net.network()),
            AddrWithNet::V6(net) => IpAddress::V6(net.network()),
        }
    }

    /// Whether the prefix fits the address family, that is, whether `wf`
    /// holds.
    pub fn is_valid(self) -> (valid: bool)
        ensures
            valid == self.wf(),
    {
        match self {
            AddrWithNet::V4(net) => net.prefix_len <= 32,
            AddrWithNet::V6(net) => net.prefix_len <= 128,
        }
    }

    /// Whether `self` can serve as the peer of the interface address `own`,
    /// that is, whether `is_peer_of` holds.
    pub fn check_peer_of(self, own: AddrWithNet) -> (peer: bool)
        requires
            own.wf(),
        ensures
            peer == self.is_peer_of(own),
    {
        match self {
            AddrWithNet::V4(net) => match own {
                AddrWithNet::V4(own_net) => net.prefix_len <= 32 && net.prefix_len
                    == own_net.prefix_len && net.network() == own_net.network() && net.addr
                    != own_net.addr,
                AddrWithNet::V6(_) => false,
            },
            AddrWithNet::V6(net) => match own {
                AddrWithNet::V4(_) => false,
                AddrWithNet::V6(own_net) => net.prefix_len <= 128 && net.prefix_len
                    == own_net.prefix_len && net.network() == own_net.network() && net.addr
                    != own_net.addr,
            },
        }
    }
}

/// One of a host's network interfaces.
pub trait Interface {
    /// The interface's name.
    spec fn spec_name(&self) -> Seq<char>;

    /// The interface's address and network.
    spec fn spec_addr_with_net(&self) -> AddrWithNet;

    /// The interface's name.
    fn name(&self) -> (name: &str)
        ensures
            name@ == self.spec_name(),
    ;

    /// The interface's address and network.
    fn addr_with_net(&self) -> (addr_with_net: AddrWithNet)
        ensures
            addr_with_net == self.spec_addr_with_net(),
    ;

    /// The interface's address, without its network.
    fn addr(&self) -> (addr: IpAddress)
        ensures
            addr == self.spec_addr_with_net().spec_addr(),
    {
        self.addr_with_net().addr()
    }
}

/// A peer for the interface address `addr_with_net`: another address of the
/// same network, with its host part drawn at random.
///
/// A draw that hits the interface's own address is thrown away and made
/// again, up to `tries` draws in all. `None` means that no draw gave a peer;
/// in a network that holds a single address none ever does.
pub fn random_peer_addr_with_net(
    addr_with_net: AddrWithNet,
    tries: usize,
) -> (peer: Option<AddrWithNet>)
    requires
        addr_with_net.wf(),
    ensures
        exists|draws: Seq<u128>| #[trigger] addr_with_net.draws_give(tries as nat, draws, peer),
        peer matches Some(p) ==> p.is_peer_of(addr_with_net),
        tries == 0 || !addr_with_net.has_peers() ==> peer is None,
{
    let mut left = tries;
    let ghost mut made: Seq<u128> = Seq::empty();
    while left > 0
        invariant
            addr_with_net.wf(),
            left <= tries,
            made.len() == tries - left,
            forall|i: int|
                0 <= i < made.len() ==> addr_with_net.peer_of_draw(#[trigger] made[i]) is None,
        decreases left,
    {
        left = left - 1;
        let drawn = match addr_with_net {
            AddrWithNet::V4(net) => {
                let draw = random_u32();
                proof {
                    lemma_ipv4_single_address(net.addr, draw);
                    made = made.push(draw as u128);
                }
                match net.peer_from_draw(draw) {
                    Some(peer) => Some(AddrWithNet::V4(peer)),
                    None => None,
                }
            },
            AddrWithNet::V6(net) => {
                let draw = random_u128();
                proof {
                    lemma_ipv6_single_address(net.addr, draw);
                    made = made.push(draw);
                }
                match net.peer_from_draw(draw) {
                    Some(peer) => Some(AddrWithNet::V6(peer)),
                    None => None,
                }
            },
        };
        if drawn.is_some() {
            assert(addr_with_net.draws_give(tries as nat, made, drawn));
            return drawn;
        }
    }
    assert(addr_with_net.draws_give(tries as nat, made, None));
    None
}

impl AddrWithNet {
    /// The peer that the draw `draw` stands for: the address in the same
    /// network with the host part of `draw`, unless that is the interface's
    /// own address. Of a draw for an IPv4 address only the low 32 bits
    /// count.
    pub open spec fn peer_of_draw(self, draw: u128) -> Option<AddrWithNet> {
        match self {
            AddrWithNet::V4(net) => {
                let drawn = net.with_host_of((draw % 0x1_0000_0000) as u32);
                if drawn != net {
                    Some(AddrWithNet::V4(drawn))
                } else {
                    None
                }
            },
            AddrWithNet::V6(net) => {
                let drawn = net.with_host_of(draw);
                if drawn != net {
                    Some(AddrWithNet::V6(drawn))
                } else {
                    None
                }
            },
        }
    }

    /// Whether `peer` is what the draws `draws`, made in this order, give
    /// for this interface address when at most `tries` draws are allowed.
    /// The first draw that stands for a peer ends the drawing and gives that
    /// peer. No peer is given only when all `tries` draws were made and each
    /// hit the interface's own address.
    pub open spec fn draws_give(
        self,
        tries: nat,
        draws: Seq<u128>,
        peer: Option<AddrWithNet>,
    ) -> bool {
        &&& draws.len() <= tries
        &&& forall|i: int|
            0 <= i < draws.len() - 1 ==> self.peer_of_draw(#[trigger] draws[i]) is None
        &&& match peer {
            Some(_) => draws.len() > 0 && self.peer_of_draw(draws.last()) == peer,
            None => draws.len() == tries && (draws.len() > 0 ==> self.peer_of_draw(
                draws.last(),
            ) is None),
        }
    }
}

/// Whatever a draw gives for an interface address can serve as its peer.
pub proof fn lemma_peer_of_draw(addr_with_net: AddrWithNet, draw: u128)
    requires
        addr_with_net.wf(),
    ensures
        addr_with_net.peer_of_draw(draw) matches Some(peer) ==> peer.is_peer_of(addr_with_net),
        !addr_with_net.has_peers() ==> addr_with_net.peer_of_draw(draw) is None,
{
    match addr_with_net {
        AddrWithNet::V4(net) => {
            let low = (draw % 0x1_0000_0000) as u32;
            lemma_ipv4_peer_network(net.addr, net.prefix_len, low);
            lemma_ipv4_single_address(net.addr, low);
        },
        AddrWithNet::V6(net) => {
            lemma_ipv6_peer_network(net.addr, net.prefix_len, draw);
            lemma_ipv6_single_address(net.addr, draw);
        },
    }
}

/// An IPv4 network with a 32-bit prefix holds one address: whatever is
/// drawn, the host part stays empty.
pub proof fn lemma_ipv4_single_address(addr: u32, draw: u32)
    ensures
        (NetV4 { addr, prefix_len: 32 }).with_host_of(draw) == (NetV4 { addr, prefix_len: 32 }),
{
    assert((addr & (u32::MAX << 0u32)) | (draw & 0u32) == addr) by (bit_vector);
}

/// An IPv6 network with a 128-bit prefix holds one address: whatever is
/// drawn, the host part stays empty.
pub proof fn lemma_ipv6_single_address(addr: u128, draw: u128)
    ensures
        (NetV6 { addr, prefix_len: 128 }).with_host_of(draw) == (NetV6 { addr, prefix_len: 128 }),
{
    assert((addr & (u128::MAX << 0u128)) | (draw & 0u128) == addr) by (bit_vector);
}

/// Replacing the host part of an IPv4 address leaves its network alone.
pub proof fn lemma_ipv4_peer_network(addr: u32, prefix_len: u8, draw: u32)
    requires
        prefix_len <= 32,
    ensures
        ((addr & ipv4_netmask_of(prefix_len)) | (draw & ipv4_hostmask_of(prefix_len)))
            & ipv4_netmask_of(prefix_len) == addr & ipv4_netmask_of(prefix_len),
{
    let n = ipv4_netmask_of(prefix_len);
    let h = ipv4_hostmask_of(prefix_len);
    assert(n & h == 0) by {
        if prefix_len == 0 {
            assert(0u32 & h == 0) by (bit_vector);
        } else if prefix_len == 32 {
            assert(n & 0u32 == 0) by (bit_vector);
        } else {
            let up: u32 = (32 - prefix_len) as u32;
            assert((u32::MAX << up) & (u32::MAX >> prefix_len) == 0) by (bit_vector)
                requires
                    0 < prefix_len < 32,
                    up == 32 - prefix_len,
            ;
        }
    }
    assert(((addr & n) | (draw & h)) & n == addr & n) by (bit_vector)
        requires
            n & h == 0,
    ;
}

/// Replacing the host part of an IPv6 address leaves its network alone.
pub proof fn lemma_ipv6_peer_network(addr: u128, prefix_len: u8, draw: u128)
    requires
        prefix_len <= 128,
    ensures
        ((addr & ipv6_netmask_of(prefix_len)) | (draw & ipv6_hostmask_of(prefix_len)))
            & ipv6_netmask_of(prefix_len) == addr & ipv6_netmask_of(prefix_len),
{
    let n = ipv6_netmask_of(prefix_len);
    let h = ipv6_hostmask_of(prefix_len);
    assert(n & h == 0) by {
        if prefix_len == 0 {
            assert(0u128 & h == 0) by (bit_vector);
        } else if prefix_len == 128 {
            assert(n & 0u128 == 0) by (bit_vector);
        } else {
            let up: u128 = (128 - prefix_len) as u128;
            assert((u128::MAX << up) & (u128::MAX >> prefix_len) == 0) by (bit_vector)
                requires
                    0 < prefix_len < 128,
                    up == 128 - prefix_len,
            ;
        }
    }
    assert(((addr & n) | (draw & h)) & n == addr & n) by (bit_vector)
        requires
            n & h == 0,
    ;
}

} // verus!
