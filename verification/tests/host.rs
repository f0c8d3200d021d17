use firewall_probe::addr::{Family, IpAddress};
use firewall_probe::conn::os::OsNsConnPath;
use firewall_probe::conn::ConnPath;
use firewall_probe::host::os::{
    add_addr, add_veth_link, addr_with_net_string, enable_link, flush_addr, ip_string, list_addrs,
    list_nft_rules, load_nft_rules, move_link, set_addr, set_default_route, Command, OsHost,
    OsInterface, Side,
};
use firewall_probe::host::{random_peer_addr_with_net, AddrWithNet, Interface, NetV4, NetV6};

// 198.51.100.1/24
const WAN_V4: AddrWithNet = AddrWithNet::V4(NetV4 { addr: 0xc633_6401, prefix_len: 24 });
// 203.0.113.1/24
const LAN_V4: AddrWithNet = AddrWithNet::V4(NetV4 { addr: 0xcb00_7101, prefix_len: 24 });
// 2001:db8:1111:1111::1/64
const WAN_V6: AddrWithNet = AddrWithNet::V6(NetV6 {
    addr: 0x2001_0db8_1111_1111_0000_0000_0000_0001,
    prefix_len: 64,
});

fn line(command: &Command) -> String {
    let mut words = vec![command.program.clone()];
    words.extend(command.args.iter().cloned());
    words.join(" ")
}

fn lines(script: &[Command]) -> Vec<String> {
    script.iter().map(line).collect()
}

fn from_ipnet(net: ipnet::IpNet) -> AddrWithNet {
    match net {
        ipnet::IpNet::V4(net) => {
            AddrWithNet::V4(NetV4 { addr: net.addr().into(), prefix_len: net.prefix_len() })
        }
        ipnet::IpNet::V6(net) => {
            AddrWithNet::V6(NetV6 { addr: net.addr().into(), prefix_len: net.prefix_len() })
        }
    }
}

#[test]
fn addresses_know_their_family() {
    assert_eq!(IpAddress::V4(0x7f00_0001).family(), Family::V4);
    assert_eq!(IpAddress::V6(1).family(), Family::V6);
}

#[test]
fn parsed_addresses_carry_over() {
    assert_eq!(from_ipnet("198.51.100.1/24".parse().unwrap()), WAN_V4);
    assert_eq!(from_ipnet("203.0.113.1/24".parse().unwrap()), LAN_V4);
    assert_eq!(from_ipnet("2001:db8:1111:1111::1/64".parse().unwrap()), WAN_V6);
}

#[test]
fn an_interface_address_has_its_parts() {
    assert_eq!(WAN_V4.addr(), IpAddress::V4(0xc633_6401));
    assert_eq!(WAN_V4.prefix_len(), 24);
    assert_eq!(WAN_V4.network(), IpAddress::V4(0xc633_6400));
    assert_eq!(WAN_V6.addr(), IpAddress::V6(0x2001_0db8_1111_1111_0000_0000_0000_0001));
    assert_eq!(WAN_V6.prefix_len(), 64);
    assert_eq!(WAN_V6.network(), IpAddress::V6(0x2001_0db8_1111_1111_0000_0000_0000_0000));
}

#[test]
fn the_prefix_must_fit_the_family() {
    assert!(WAN_V4.is_valid());
    assert!(AddrWithNet::V4(NetV4 { addr: 1, prefix_len: 32 }).is_valid());
    assert!(!AddrWithNet::V4(NetV4 { addr: 1, prefix_len: 33 }).is_valid());
    assert!(AddrWithNet::V6(NetV6 { addr: 1, prefix_len: 128 }).is_valid());
    assert!(!AddrWithNet::V6(NetV6 { addr: 1, prefix_len: 129 }).is_valid());
}

#[test]
fn the_network_is_the_address_without_its_host_part() {
    assert_eq!(NetV4 { addr: 0xac10_7b7b, prefix_len: 16 }.network(), 0xac10_0000);
    assert_eq!(NetV4 { addr: 0xac10_7b7b, prefix_len: 0 }.network(), 0);
    assert_eq!(NetV4 { addr: 0xac10_7b7b, prefix_len: 32 }.network(), 0xac10_7b7b);
    assert_eq!(NetV4 { addr: 0xac10_7b7b, prefix_len: 31 }.network(), 0xac10_7b7a);
    assert_eq!(NetV4 { addr: 0xffff_ffff, prefix_len: 1 }.network(), 0x8000_0000);
    assert_eq!(
        NetV6 { addr: 0xfd00_1234_5678_0000_0000_0000_0000_0000, prefix_len: 24 }.network(),
        0xfd00_1200_0000_0000_0000_0000_0000_0000
    );
    assert_eq!(NetV6 { addr: u128::MAX, prefix_len: 0 }.network(), 0);
    assert_eq!(NetV6 { addr: u128::MAX, prefix_len: 128 }.network(), u128::MAX);
    assert_eq!(NetV6 { addr: u128::MAX, prefix_len: 127 }.network(), u128::MAX - 1);
}

#[test]
fn a_draw_replaces_the_host_part() {
    let own = NetV4 { addr: 0xc633_6401, prefix_len: 24 };
    assert_eq!(
        own.peer_from_draw(0x1234_5678),
        Some(NetV4 { addr: 0xc633_6478, prefix_len: 24 })
    );
    assert_eq!(own.peer_from_draw(0), Some(NetV4 { addr: 0xc633_6400, prefix_len: 24 }));
    assert_eq!(
        own.peer_from_draw(u32::MAX),
        Some(NetV4 { addr: 0xc633_64ff, prefix_len: 24 })
    );

    let own = NetV6 { addr: 0x2001_0db8_1111_1111_0000_0000_0000_0001, prefix_len: 64 };
    assert_eq!(
        own.peer_from_draw(0xaaaa_bbbb_cccc_dddd_0123_4567_89ab_cdef),
        Some(NetV6 { addr: 0x2001_0db8_1111_1111_0123_4567_89ab_cdef, prefix_len: 64 })
    );
}

#[test]
fn a_draw_of_the_own_address_gives_no_peer() {
    let own = NetV4 { addr: 0xc633_6401, prefix_len: 24 };
    assert_eq!(own.peer_from_draw(0x0000_0001), None);
    assert_eq!(own.peer_from_draw(0xffff_ff01), None);
    let own = NetV6 { addr: 0x2001_0db8_1111_1111_0000_0000_0000_0001, prefix_len: 64 };
    assert_eq!(own.peer_from_draw(1), None);
    assert_eq!(own.peer_from_draw(0xffff_0000_0000_0000_0000_0000_0000_0001), None);
}

#[test]
fn a_single_address_has_no_peer() {
    let alone = NetV4 { addr: 0x0a00_0001, prefix_len: 32 };
    assert_eq!(alone.peer_from_draw(0), None);
    assert_eq!(alone.peer_from_draw(u32::MAX), None);
    assert_eq!(random_peer_addr_with_net(AddrWithNet::V4(alone), 50), None);
    let alone = NetV6 { addr: 1, prefix_len: 128 };
    assert_eq!(alone.peer_from_draw(u128::MAX), None);
    assert_eq!(random_peer_addr_with_net(AddrWithNet::V6(alone), 50), None);
}

#[test]
fn no_tries_give_no_peer() {
    assert_eq!(random_peer_addr_with_net(WAN_V4, 0), None);
    assert_eq!(random_peer_addr_with_net(WAN_V6, 0), None);
}

#[test]
fn a_random_peer_is_another_address_of_the_network() {
    for own in [WAN_V4, LAN_V4, WAN_V6] {
        for _ in 0..50 {
            let peer = random_peer_addr_with_net(own, 1000).expect("a peer");
            assert!(peer.check_peer_of(own));
            assert_ne!(peer, own);
            assert_eq!(peer.network(), own.network());
            assert_eq!(peer.prefix_len(), own.prefix_len());
        }
    }
}

#[test]
fn a_pair_of_addresses_has_one_peer() {
    let own = AddrWithNet::V4(NetV4 { addr: 0x0a00_0000, prefix_len: 31 });
    for _ in 0..20 {
        assert_eq!(
            random_peer_addr_with_net(own, 1000),
            Some(AddrWithNet::V4(NetV4 { addr: 0x0a00_0001, prefix_len: 31 }))
        );
    }
}

#[test]
fn peers_are_told_from_strangers() {
    let peer = AddrWithNet::V4(NetV4 { addr: 0xc633_6402, prefix_len: 24 });
    assert!(peer.check_peer_of(WAN_V4));
    assert!(!WAN_V4.check_peer_of(WAN_V4));
    assert!(!LAN_V4.check_peer_of(WAN_V4));
    assert!(!AddrWithNet::V4(NetV4 { addr: 0xc633_6402, prefix_len: 25 }).check_peer_of(WAN_V4));
    assert!(!WAN_V6.check_peer_of(WAN_V4));
    assert!(!WAN_V4.check_peer_of(WAN_V6));
    let peer = AddrWithNet::V6(NetV6 {
        addr: 0x2001_0db8_1111_1111_ffff_0000_0000_0001,
        prefix_len: 64,
    });
    assert!(peer.check_peer_of(WAN_V6));
}

#[test]
fn the_network_agrees_with_ipnet() {
    let mut addr: u32 = 0x9e37_79b9;
    for prefix_len in 0..=32u8 {
        let theirs: ipnet::Ipv4Net = format!("{}/{}", ip_string(IpAddress::V4(addr)), prefix_len)
            .parse()
            .unwrap();
        assert_eq!(NetV4 { addr, prefix_len }.network(), u32::from(theirs.network()));
        addr = addr.wrapping_mul(1664525).wrapping_add(1013904223);
    }
}

#[test]
fn addresses_read_as_ip_expects() {
    assert_eq!(ip_string(IpAddress::V4(0x7f00_0001)), "127.0.0.1");
    assert_eq!(ip_string(IpAddress::V4(0)), "0.0.0.0");
    assert_eq!(ip_string(IpAddress::V4(u32::MAX)), "255.255.255.255");
    assert_eq!(ip_string(IpAddress::V4(0xc633_6401)), "198.51.100.1");
    assert_eq!(ip_string(IpAddress::V6(1)), "::1");
    assert_eq!(
        ip_string(IpAddress::V6(0x2001_0db8_1111_1111_0000_0000_0000_0001)),
        "2001:db8:1111:1111::1"
    );
}

#[test]
fn interface_addresses_read_as_ip_expects() {
    assert_eq!(addr_with_net_string(WAN_V4), "198.51.100.1/24");
    assert_eq!(addr_with_net_string(LAN_V4), "203.0.113.1/24");
    assert_eq!(addr_with_net_string(WAN_V6), "2001:db8:1111:1111::1/64");
    assert_eq!(
        addr_with_net_string(AddrWithNet::V4(NetV4 { addr: 0x0a00_0001, prefix_len: 0 })),
        "10.0.0.1/0"
    );
    assert_eq!(
        addr_with_net_string(AddrWithNet::V6(NetV6 { addr: 1, prefix_len: 128 })),
        "::1/128"
    );
}

#[test]
fn add_veth_link_command_line() {
    let command = add_veth_link("veth0", "veth1");
    assert_eq!(command.program, "ip");
    assert_eq!(command.args, ["link", "add", "veth0", "type", "veth", "peer", "name", "veth1"]);
}

#[test]
fn link_commands() {
    assert_eq!(line(&enable_link("lo")), "ip link set lo up");
    assert_eq!(
        line(&move_link("router", "/proc/12/fd/5")),
        "ip link set router netns /proc/12/fd/5"
    );
    assert_eq!(line(&list_addrs()), "ip address");
}

#[test]
fn address_commands() {
    assert_eq!(line(&flush_addr("wan")), "ip address flush dev wan");
    assert_eq!(line(&add_addr("wan", WAN_V4)), "ip address add 198.51.100.1/24 dev wan");
    assert_eq!(
        line(&add_addr("wan", WAN_V6)),
        "ip address add 2001:db8:1111:1111::1/64 dev wan nodad"
    );
    assert_eq!(
        lines(&set_addr("wan", WAN_V4)),
        ["ip address flush dev wan", "ip address add 198.51.100.1/24 dev wan"]
    );
    assert_eq!(
        lines(&set_addr("wan", WAN_V6)),
        ["ip address flush dev wan", "ip address add 2001:db8:1111:1111::1/64 dev wan nodad"]
    );
}

#[test]
fn route_and_firewall_commands() {
    assert_eq!(
        line(&set_default_route(IpAddress::V4(0xc633_6401))),
        "ip route add default via 198.51.100.1"
    );
    assert_eq!(line(&set_default_route(IpAddress::V6(1))), "ip route add default via ::1");
    assert_eq!(line(&load_nft_rules()), "nft -f -");
    assert_eq!(line(&list_nft_rules()), "nft list ruleset");
}

#[test]
fn a_new_host_brings_its_loopback_up() {
    let (host, setup) = OsHost::new("router".to_string(), 7u8);
    assert_eq!(host.name(), "router");
    assert_eq!(*host.ns(), 7);
    assert_eq!(line(&setup), "ip link set lo up");
}

fn router_with_wan(addr_with_net: AddrWithNet) -> (OsHost<u8>, OsInterface<u8>) {
    let (router, _) = OsHost::new("router".to_string(), 1u8);
    let (wan, _) = router.new_interface("wan".to_string(), addr_with_net, 2u8, "/proc/9/fd/4");
    (router, wan)
}

#[test]
fn a_new_interface_takes_seven_steps() {
    let (router, _) = OsHost::new("router".to_string(), 1u8);
    let (wan, steps) = router.new_interface("wan".to_string(), WAN_V4, 2u8, "/proc/9/fd/4");
    assert_eq!(wan.name(), "wan");
    assert_eq!(wan.addr_with_net(), WAN_V4);
    assert_eq!(wan.addr(), IpAddress::V4(0xc633_6401));
    assert_eq!(wan.peer_name(), "router");
    assert_eq!(*wan.peer_ns(), 2);
    let told: Vec<(Side, String)> =
        steps.iter().map(|step| (step.side, line(&step.command))).collect();
    assert_eq!(
        told,
        [
            (Side::Peer, "ip link set lo up".to_string()),
            (Side::Host, "ip link add wan type veth peer name router".to_string()),
            (Side::Host, "ip link set router netns /proc/9/fd/4".to_string()),
            (Side::Host, "ip link set wan up".to_string()),
            (Side::Host, "ip address flush dev wan".to_string()),
            (Side::Host, "ip address add 198.51.100.1/24 dev wan".to_string()),
            (Side::Peer, "ip link set router up".to_string()),
        ]
    );
}

#[test]
fn the_input_path_leads_from_the_peer_to_the_host() {
    let (router, wan) = router_with_wan(WAN_V4);
    let peer = AddrWithNet::V4(NetV4 { addr: 0xc633_6417, prefix_len: 24 });
    let (path, script) = OsHost::input_path(&wan, &router, peer);
    assert_eq!(path.source_name(), "wan");
    assert_eq!(path.source_addr(), IpAddress::V4(0xc633_6417));
    assert_eq!(*path.source(), 2);
    assert_eq!(path.target_name(), "router");
    assert_eq!(path.target_addr(), IpAddress::V4(0xc633_6401));
    assert_eq!(*path.target(), 1);
    assert!(path.is_consistent());
    assert_eq!(
        lines(&script),
        ["ip address flush dev router", "ip address add 198.51.100.23/24 dev router"]
    );
}

#[test]
fn the_output_path_leads_from_the_host_to_the_peer() {
    let (router, wan) = router_with_wan(WAN_V6);
    let peer = AddrWithNet::V6(NetV6 {
        addr: 0x2001_0db8_1111_1111_0000_0000_0000_00aa,
        prefix_len: 64,
    });
    let (path, script) = OsHost::output_path(&router, &wan, peer);
    assert_eq!(path.source_name(), "router");
    assert_eq!(path.source_addr(), IpAddress::V6(0x2001_0db8_1111_1111_0000_0000_0000_0001));
    assert_eq!(*path.source(), 1);
    assert_eq!(path.target_name(), "wan");
    assert_eq!(path.target_addr(), IpAddress::V6(0x2001_0db8_1111_1111_0000_0000_0000_00aa));
    assert_eq!(*path.target(), 2);
    assert!(path.is_consistent());
    assert_eq!(
        lines(&script),
        [
            "ip address flush dev router",
            "ip address add 2001:db8:1111:1111::aa/64 dev router nodad"
        ]
    );
}

#[test]
fn the_forward_path_leads_from_peer_to_peer() {
    let (router, _) = OsHost::new("router".to_string(), 1u8);
    let (wan, _) = router.new_interface("wan".to_string(), WAN_V4, 2u8, "/proc/9/fd/4");
    let (lan, _) = router.new_interface("lan".to_string(), LAN_V4, 3u8, "/proc/9/fd/5");
    let wan_peer = AddrWithNet::V4(NetV4 { addr: 0xc633_6405, prefix_len: 24 });
    let lan_peer = AddrWithNet::V4(NetV4 { addr: 0xcb00_7109, prefix_len: 24 });
    let (path, source_script, target_script) = OsHost::forward_path(&wan, &lan, wan_peer, lan_peer);
    assert_eq!(path.source_name(), "wan");
    assert_eq!(path.source_addr(), IpAddress::V4(0xc633_6405));
    assert_eq!(*path.source(), 2);
    assert_eq!(path.target_name(), "lan");
    assert_eq!(path.target_addr(), IpAddress::V4(0xcb00_7109));
    assert_eq!(*path.target(), 3);
    assert_eq!(
        lines(&source_script),
        [
            "ip address flush dev router",
            "ip address add 198.51.100.5/24 dev router",
            "ip route add default via 198.51.100.1"
        ]
    );
    assert_eq!(
        lines(&target_script),
        [
            "ip address flush dev router",
            "ip address add 203.0.113.9/24 dev router",
            "ip route add default via 203.0.113.1"
        ]
    );
}

#[test]
fn a_path_names_its_ends() {
    let source = 10u8;
    let target = 20u8;
    let path = OsNsConnPath::new(
        "source",
        &source,
        IpAddress::V4(0x7f00_0001),
        "target",
        &target,
        IpAddress::V6(1),
    );
    assert_eq!(path.source_name(), "source");
    assert_eq!(path.target_name(), "target");
    assert_eq!(path.source_addr(), IpAddress::V4(0x7f00_0001));
    assert_eq!(path.target_addr(), IpAddress::V6(1));
    assert_eq!(*path.source(), 10);
    assert_eq!(*path.target(), 20);
    assert!(!path.is_consistent());
}

#[test]
fn one_try_gives_what_one_draw_gives() {
    let own = AddrWithNet::V4(NetV4 { addr: 0x0a00_0000, prefix_len: 31 });
    let other = AddrWithNet::V4(NetV4 { addr: 0x0a00_0001, prefix_len: 31 });
    let mut hits = 0;
    let mut misses = 0;
    for _ in 0..400 {
        match random_peer_addr_with_net(own, 1) {
            Some(peer) => {
                assert_eq!(peer, other);
                hits += 1;
            }
            None => misses += 1,
        }
    }
    assert!(hits > 0);
    assert!(misses > 0);
}
