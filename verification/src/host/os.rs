//! Hosts and interfaces built from network namespaces, and the commands
//! that set them up.
//!
//! Nothing here runs a command. Each function says which program to run
//! with which arguments; the caller runs it inside the namespace named.

use crate::addr::IpAddress;
use crate::conn::os::OsNsConnPath;
use crate::conn::{ConnPath, PathView};
use crate::host::{AddrWithNet, Interface};
use crate::text::{decimal, dotted_quad, ipv6_text};
use crate::trusted::{ipv4_addr_text, ipv4_net_text, ipv6_addr_text, ipv6_net_text};
use vstd::prelude::*;

verus! {

/// A program and the arguments to run it with.
#[derive(Debug)]
pub struct Command {
    pub program: String,
    pub args: Vec<String>,
}

/// What a command says: the program's name and each argument, as text.
pub struct CommandView {
    pub program: Seq<char>,
    pub args: Seq<Seq<char>>,
}

impl View for Command {
    type V = CommandView;

    open spec fn view(&self) -> CommandView {
        CommandView { program: self.program@, args: self.args.deep_view() }
    }
}

/// What a list of commands says, command by command.
pub open spec fn script_view(script: Seq<Command>) -> Seq<CommandView> {
    Seq::new(script.len(), |i: int| script[i]@)
}

/// An address as `ip` reads it.
pub open spec fn ip_text(addr: IpAddress) -> Seq<char> {
    match addr {
        IpAddress::V4(bits) => dotted_quad(bits),
        IpAddress::V6(bits) => ipv6_text(bits),
    }
}

/// An address with its prefix length as `ip` reads it: the address, a
/// slash, the prefix length.
pub open spec fn addr_with_net_text(addr: AddrWithNet) -> Seq<char> {
    ip_text(addr.spec_addr()) + seq!['/'] + decimal(addr.spec_prefix_len() as nat)
}

/// `ip link add NAME type veth peer name PEER`: a pair of linked virtual
/// interfaces.
pub open spec fn add_veth_link_command(name: Seq<char>, peer_name: Seq<char>) -> CommandView {
    CommandView {
        program: "ip"@,
        args: seq!["link"@, "add"@, name, "type"@, "veth"@, "peer"@, "name"@, peer_name],
    }
}

/// `ip link set NAME up`.
pub open spec fn enable_link_command(name: Seq<char>) -> CommandView {
    CommandView { program: "ip"@, args: seq!["link"@, "set"@, name, "up"@] }
}

/// `ip link set NAME netns PATH`: hands an interface to the namespace that
/// `PATH` names.
pub open spec fn move_link_command(name: Seq<char>, other: Seq<char>) -> CommandView {
    CommandView { program: "ip"@, args: seq!["link"@, "set"@, name, "netns"@, other] }
}

/// `ip address flush dev NAME`.
pub open spec fn flush_addr_command(name: Seq<char>) -> CommandView {
    CommandView { program: "ip"@, args: seq!["address"@, "flush"@, "dev"@, name] }
}

/// `ip address add ADDR dev NAME`, for an IPv6 address with `nodad` at the
/// end: duplicate address detection would keep the address from being bound
/// at once.
pub open spec fn add_addr_command(name: Seq<char>, addr: AddrWithNet) -> CommandView {
    CommandView {
        program: "ip"@,
        args: match addr {
            AddrWithNet::V4(_) => seq!["address"@, "add"@, addr_with_net_text(addr), "dev"@, name],
            AddrWithNet::V6(_) => seq![
                "address"@,
                "add"@,
                addr_with_net_text(addr),
                "dev"@,
                name,
                "nodad"@,
            ],
        },
    }
}

/// `ip address`.
pub open spec fn list_addrs_command() -> CommandView {
    CommandView { program: "ip"@, args: seq!["address"@] }
}

/// `ip route add default via ADDR`.
pub open spec fn default_route_command(addr: IpAddress) -> CommandView {
    CommandView { program: "ip"@, args: seq!["route"@, "add"@, "default"@, "via"@, ip_text(addr)] }
}

/// `nft -f -`: the rules come on standard input.
pub open spec fn load_nft_rules_command() -> CommandView {
    CommandView { program: "nft"@, args: seq!["-f"@, "-"@] }
}

/// `nft list ruleset`.
pub open spec fn list_nft_rules_command() -> CommandView {
    CommandView { program: "nft"@, args: seq!["list"@, "ruleset"@] }
}

/// The address `addr` as text.
pub fn ip_string(addr: IpAddress) -> (text: String)
    ensures
        text@ == ip_text(addr),
{
    match addr {
        IpAddress::V4(bits) => ipv4_addr_text(bits),
        IpAddress::V6(bits) => ipv6_addr_text(bits),
    }
}

/// The address `addr` with its prefix length as text.
pub fn addr_with_net_string(addr: AddrWithNet) -> (text: String)
    requires
        addr.wf(),
    ensures
        text@ == addr_with_net_text(addr),
{
    match addr {
        AddrWithNet::V4(net) => ipv4_net_text(net.addr, net.prefix_len),
        AddrWithNet::V6(net) => ipv6_net_text(net.addr, net.prefix_len),
    }
}

/// The command `program` with the arguments `args`.
fn command(program: &str, args: Vec<String>) -> (command: Command)
    ensures
        command@ == (CommandView { program: program@, args: args.deep_view() }),
{
    Command { program: program.to_owned(), args }
}

/// The command that makes the linked pair of virtual interfaces `name` and
/// `peer_name`.
pub fn add_veth_link(name: &str, peer_name: &str) -> (command: Command)
    ensures
        command@ == add_veth_link_command(name@, peer_name@),
{
    let mut args: Vec<String> = Vec::new();
    args.push("link".to_owned());
    args.push("add".to_owned());
    args.push(name.to_owned());
    args.push("type".to_owned());
    args.push("veth".to_owned());
    args.push("peer".to_owned());
    args.push("name".to_owned());
    args.push(peer_name.to_owned());
    assert(args.deep_view() =~= add_veth_link_command(name@, peer_name@).args);
    command("ip", args)
}

/// The command that brings the interface `name` up.
pub fn enable_link(name: &str) -> (command: Command)
    ensures
        command@ == enable_link_command(name@),
{
    let mut args: Vec<String> = Vec::new();
    args.push("link".to_owned());
    args.push("set".to_owned());
    args.push(name.to_owned());
    args.push("up".to_owned());
    assert(args.deep_view() =~= enable_link_command(name@).args);
    command("ip", args)
}

/// The command that moves the interface `name` into the namespace found
/// at the path `other`.
pub fn move_link(name: &str, other: &str) -> (command: Command)
    ensures
        command@ == move_link_command(name@, other@),
{
    let mut args: Vec<String> = Vec::new();
    args.push("link".to_owned());
    args.push("set".to_owned());
    args.push(name.to_owned());
    args.push("netns".to_owned());
    args.push(other.to_owned());
    assert(args.deep_view() =~= move_link_command(name@, other@).args);
    command("ip", args)
}

/// The command that drops every address of the interface `name`.
pub fn flush_addr(name: &str) -> (command: Command)
    ensures
        command@ == flush_addr_command(name@),
{
    let mut args: Vec<String> = Vec::new();
    args.push("address".to_owned());
    args.push("flush".to_owned());
    args.push("dev".to_owned());
    args.push(name.to_owned());
    assert(args.deep_view() =~= flush_addr_command(name@).args);
    command("ip", args)
}

/// The command that adds `addr` to the addresses of the interface `name`.
pub fn add_addr(name: &str, addr: AddrWithNet) -> (command: Command)
    requires
        addr.wf(),
    ensures
        command@ == add_addr_command(name@, addr),
{
    let mut args: Vec<String> = Vec::new();
    args.push("address".to_owned());
    args.push("add".to_owned());
    args.push(addr_with_net_string(addr));
    args.push("dev".to_owned());
    args.push(name.to_owned());
    match addr {
        AddrWithNet::V4(_) => {},
        AddrWithNet::V6(_) => {
            args.push("nodad".to_owned());
        },
    }
    assert(args.deep_view() =~= add_addr_command(name@, addr).args);
    command("ip", args)
}

/// The commands that make `addr` the only address of the interface
/// `name`: first every address it has is dropped, then `addr` is added.
pub fn set_addr(name: &str, addr: AddrWithNet) -> (script: Vec<Command>)
    requires
        addr.wf(),
    ensures
        script_view(script@) == seq![flush_addr_command(name@), add_addr_command(name@, addr)],
{
    let mut script: Vec<Command> = Vec::new();
    script.push(flush_addr(name));
    script.push(add_addr(name, addr));
    script
}

/// The command that lists the addresses of every interface.
pub fn list_addrs() -> (command: Command)
    ensures
        command@ == list_addrs_command(),
{
    let mut args: Vec<String> = Vec::new();
    args.push("address".to_owned());
    assert(args.deep_view() =~= list_addrs_command().args);
    command("ip", args)
}

/// The command that routes everything without a better route by way of
/// `addr`.
pub fn set_default_route(addr: IpAddress) -> (command: Command)
    ensures
        command@ == default_route_command(addr),
{
    let mut args: Vec<String> = Vec::new();
    args.push("route".to_owned());
    args.push("add".to_owned());
    args.push("default".to_owned());
    args.push("via".to_owned());
    args.push(ip_string(addr));
    assert(args.deep_view() =~= default_route_command(addr).args);
    command("ip", args)
}

/// The command that loads the firewall rules it reads on standard input.
pub fn load_nft_rules() -> (command: Command)
    ensures
        command@ == load_nft_rules_command(),
{
    let mut args: Vec<String> = Vec::new();
    args.push("-f".to_owned());
    args.push("-".to_owned());
    assert(args.deep_view() =~= load_nft_rules_command().args);
    command("nft", args)
}

/// The command that prints the firewall rules in force.
pub fn list_nft_rules() -> (command: Command)
    ensures
        command@ == list_nft_rules_command(),
{
    let mut args: Vec<String> = Vec::new();
    args.push("list".to_owned());
    args.push("ruleset".to_owned());
    assert(args.deep_view() =~= list_nft_rules_command().args);
    command("nft", args)
}

/// A host: a name and the network namespace that stands for it.
///
/// `Ns` is whatever the caller uses as a handle on a network namespace.
pub struct OsHost<Ns> {
    name: String,
    ns: Ns,
}

/// An interface of a host, together with what sits at the other end of it:
/// the peer interface and the namespace it lives in. The peer stands for
/// everything that talks to the host over this interface.
pub struct OsInterface<Ns> {
    name: String,
    addr_with_net: AddrWithNet,
    peer_name: String,
    peer_ns: Ns,
}

/// Which of two namespaces a command runs in.
#[derive(Clone, Copy, Debug, PartialEq, Eq, Structural)]
pub enum Side {
    /// The host's own namespace.
    Host,
    /// The namespace at the other end of the interface.
    Peer,
}

/// A command and the namespace to run it in.
#[derive(Debug)]
pub struct Step {
    pub side: Side,
    pub command: Command,
}

/// What a list of steps says, step by step.
pub open spec fn steps_view(steps: Seq<Step>) -> Seq<(Side, CommandView)> {
    Seq::new(steps.len(), |i: int| (steps[i].side, steps[i].command@))
}

/// What it takes to give a host the interface `name` with the address
/// `addr_with_net`, where the peer interface is called `peer_name` and its
/// namespace is found at `peer_ns_path`. The peer's namespace gets its
/// loopback first. Then the host makes the linked pair, hands one end to the
/// peer's namespace, brings its own end up and gives it its address. Last,
/// the peer brings its end up.
pub open spec fn new_interface_steps(
    name: Seq<char>,
    addr_with_net: AddrWithNet,
    peer_name: Seq<char>,
    peer_ns_path: Seq<char>,
) -> Seq<(Side, CommandView)> {
    seq![
        (Side::Peer, enable_link_command("lo"@)),
        (Side::Host, add_veth_link_command(name, peer_name)),
        (Side::Host, move_link_command(peer_name, peer_ns_path)),
        (Side::Host, enable_link_command(name)),
        (Side::Host, flush_addr_command(name)),
        (Side::Host, add_addr_command(name, addr_with_net)),
        (Side::Peer, enable_link_command(peer_name)),
    ]
}

impl<Ns> OsHost<Ns> {
    /// The host's name.
    pub closed spec fn spec_name(&self) -> Seq<char> {
        self.name@
    }

    /// The host's namespace.
    pub closed spec fn spec_ns(&self) -> &Ns {
        &self.ns
    }

    /// The host called `name` that lives in the fresh namespace `ns`, and
    /// the command to run there before anything else: the one that brings
    /// the loopback interface up.
    pub fn new(name: String, ns: Ns) -> (out: (OsHost<Ns>, Command))
        ensures
            out.0.spec_name() == name@,
            out.0.spec_ns() == ns,
            out.1@ == enable_link_command("lo"@),
    {
        (OsHost { name, ns }, enable_link("lo"))
    }

    /// The host's name.
    pub fn name(&self) -> (name: &str)
        ensures
            name@ == self.spec_name(),
    {
        self.name.as_str()
    }

    /// The host's namespace.
    #[verifier::when_used_as_spec(spec_ns)]
    pub fn ns(&self) -> (ns: &Ns)
        ensures
            ns == self.spec_ns(),
    {
        &self.ns
    }

    /// A new interface `name` of this host with the address `addr_with_net`,
    /// and the steps that bring it about. The peer interface is named after
    /// the host and lives in the fresh namespace `peer_ns`, which is found
    /// at the path `peer_ns_path`.
    pub fn new_interface(
        &self,
        name: String,
        addr_with_net: AddrWithNet,
        peer_ns: Ns,
        peer_ns_path: &str,
    ) -> (out: (OsInterface<Ns>, Vec<Step>))
        requires
            addr_with_net.wf(),
        ensures
            out.0.spec_name() == name@,
            out.0.spec_addr_with_net() == addr_with_net,
            out.0.spec_peer_name() == self.spec_name(),
            out.0.spec_peer_ns() == peer_ns,
            steps_view(out.1@) == new_interface_steps(
                name@,
                addr_with_net,
                self.spec_name(),
                peer_ns_path@,
            ),
    {
        let peer_name = self.name.clone();
        let mut steps: Vec<Step> = Vec::new();
        steps.push(Step { side: Side::Peer, command: enable_link("lo") });
        steps.push(
            Step { side: Side::Host, command: add_veth_link(name.as_str(), peer_name.as_str()) },
        );
        steps.push(
            Step { side: Side::Host, command: move_link(peer_name.as_str(), peer_ns_path) },
        );
        steps.push(Step { side: Side::Host, command: enable_link(name.as_str()) });
        steps.push(Step { side: Side::Host, command: flush_addr(name.as_str()) });
        steps.push(Step { side: Side::Host, command: add_addr(name.as_str(), addr_with_net) });
        steps.push(Step { side: Side::Peer, command: enable_link(peer_name.as_str()) });
        (OsInterface { name, addr_with_net, peer_name, peer_ns }, steps)
    }

    /// The path into the host through `interface`: from the peer of the
    /// interface, which gets the address `peer_addr_with_net`, to the
    /// interface's own address on the host. The commands returned give the
    /// peer its address; they run in the peer's namespace.
    pub fn input_path<'a>(
        interface: &'a OsInterface<Ns>,
        host: &'a OsHost<Ns>,
        peer_addr_with_net: AddrWithNet,
    ) -> (out: (OsNsConnPath<'a, Ns>, Vec<Command>))
        requires
            peer_addr_with_net.is_peer_of(interface.spec_addr_with_net()),
        ensures
            out.0.ends() == (PathView {
                source_name: interface.spec_name(),
                source_addr: peer_addr_with_net.spec_addr(),
                target_name: host.spec_name(),
                target_addr: interface.spec_addr_with_net().spec_addr(),
            }),
            out.0.spec_source() == interface.spec_peer_ns(),
            out.0.spec_target() == host.spec_ns(),
            out.0.is_consistent(),
            script_view(out.1@) == seq![
                flush_addr_command(interface.spec_peer_name()),
                add_addr_command(interface.spec_peer_name(), peer_addr_with_net),
            ],
    {
        let script = set_addr(interface.peer_name.as_str(), peer_addr_with_net);
        let path = OsNsConnPath::new(
            interface.name.as_str(),
            &interface.peer_ns,
            peer_addr_with_net.addr(),
            host.name.as_str(),
            &host.ns,
            interface.addr_with_net.addr(),
        );
        (path, script)
    }

    /// The path out of the host through `interface`: from the interface's
    /// own address on the host to the peer of the interface, which gets the
    /// address `peer_addr_with_net`. The commands returned give the peer its
    /// address; they run in the peer's namespace.
    pub fn output_path<'a>(
        host: &'a OsHost<Ns>,
        interface: &'a OsInterface<Ns>,
        peer_addr_with_net: AddrWithNet,
    ) -> (out: (OsNsConnPath<'a, Ns>, Vec<Command>))
        requires
            peer_addr_with_net.is_peer_of(interface.spec_addr_with_net()),
        ensures
            out.0.ends() == (PathView {
                source_name: host.spec_name(),
                source_addr: interface.spec_addr_with_net().spec_addr(),
                target_name: interface.spec_name(),
                target_addr: peer_addr_with_net.spec_addr(),
            }),
            out.0.spec_source() == host.spec_ns(),
            out.0.spec_target() == interface.spec_peer_ns(),
            out.0.is_consistent(),
            script_view(out.1@) == seq![
                flush_addr_command(interface.spec_peer_name()),
                add_addr_command(interface.spec_peer_name(), peer_addr_with_net),
            ],
    {
        let script = set_addr(interface.peer_name.as_str(), peer_addr_with_net);
        let path = OsNsConnPath::new(
            host.name.as_str(),
            &host.ns,
            interface.addr_with_net.addr(),
            interface.name.as_str(),
            &interface.peer_ns,
            peer_addr_with_net.addr(),
        );
        (path, script)
    }

    /// The path through the host: from the peer of `source_interface` to
    /// the peer of `target_interface`. Each peer gets the address drawn for
    /// it and a default route by way of the host's address on its interface.
    /// The first list of commands runs in the source peer's namespace, the
    /// second, after it, in the target peer's.
    pub fn forward_path<'a>(
        source_interface: &'a OsInterface<Ns>,
        target_interface: &'a OsInterface<Ns>,
        source_peer_addr_with_net: AddrWithNet,
        target_peer_addr_with_net: AddrWithNet,
    ) -> (out: (OsNsConnPath<'a, Ns>, Vec<Command>, Vec<Command>))
        requires
            source_peer_addr_with_net.is_peer_of(source_interface.spec_addr_with_net()),
            target_peer_addr_with_net.is_peer_of(target_interface.spec_addr_with_net()),
        ensures
            out.0.ends() == (PathView {
                source_name: source_interface.spec_name(),
                source_addr: source_peer_addr_with_net.spec_addr(),
                target_name: target_interface.spec_name(),
                target_addr: target_peer_addr_with_net.spec_addr(),
            }),
            out.0.spec_source() == source_interface.spec_peer_ns(),
            out.0.spec_target() == target_interface.spec_peer_ns(),
            script_view(out.1@) == seq![
                flush_addr_command(source_interface.spec_peer_name()),
                add_addr_command(source_interface.spec_peer_name(), source_peer_addr_with_net),
                default_route_command(source_interface.spec_addr_with_net().spec_addr()),
            ],
            script_view(out.2@) == seq![
                flush_addr_command(target_interface.spec_peer_name()),
                add_addr_command(target_interface.spec_peer_name(), target_peer_addr_with_net),
                default_route_command(target_interface.spec_addr_with_net().spec_addr()),
            ],
    {
        let mut source_script = set_addr(
            source_interface.peer_name.as_str(),
            source_peer_addr_with_net,
        );
        let ghost source_address = script_view(source_script@);
        source_script.push(set_default_route(source_interface.addr_with_net.addr()));
        assert(script_view(source_script@) =~= source_address.push(
            default_route_command(source_interface.spec_addr_with_net().spec_addr()),
        ));
        let mut target_script = set_addr(
            target_interface.peer_name.as_str(),
            target_peer_addr_with_net,
        );
        let ghost target_address = script_view(target_script@);
        target_script.push(set_default_route(target_interface.addr_with_net.addr()));
        assert(script_view(target_script@) =~= target_address.push(
            default_route_command(target_interface.spec_addr_with_net().spec_addr()),
        ));
        let path = OsNsConnPath::new(
            source_interface.name.as_str(),
            &source_interface.peer_ns,
            source_peer_addr_with_net.addr(),
            target_interface.name.as_str(),
            &target_interface.peer_ns,
            target_peer_addr_with_net.addr(),
        );
        (path, source_script, target_script)
    }
}

impl<Ns> OsInterface<Ns> {
    /// The name of the interface at the other end.
    pub closed spec fn spec_peer_name(&self) -> Seq<char> {
        self.peer_name@
    }

    /// The namespace the other end lives in.
    pub closed spec fn spec_peer_ns(&self) -> &Ns {
        &self.peer_ns
    }

    /// An interface address always has a prefix that fits its family.
    #[verifier::type_invariant]
    pub closed spec fn wf(&self) -> bool {
        self.addr_with_net.wf()
    }

    /// The name of the interface at the other end.
    pub fn peer_name(&self) -> (name: &str)
        ensures
            name@ == self.spec_peer_name(),
    {
        self.peer_name.as_str()
    }

    /// The namespace the other end lives in.
    #[verifier::when_used_as_spec(spec_peer_ns)]
    pub fn peer_ns(&self) -> (ns: &Ns)
        ensures
            ns == self.spec_peer_ns(),
    {
        &self.peer_ns
    }
}

impl<Ns> Interface for OsInterface<Ns> {
    closed spec fn spec_name(&self) -> Seq<char> {
        self.name@
    }

    closed spec fn spec_addr_with_net(&self) -> AddrWithNet {
        self.addr_with_net
    }

    fn name(&self) -> (name: &str) {
        self.name.as_str()
    }

    fn addr_with_net(&self) -> (addr_with_net: AddrWithNet)
        ensures
            addr_with_net.wf(),
    {
        proof {
            use_type_invariant(self);
        }
        self.addr_with_net
    }
}

} // verus!
