use firewall_probe::addr::{IpAddress, SocketAddress};
use firewall_probe::conn::os::{OsNsConnPath, ProbePlan, ServerStatus};
use firewall_probe::conn::probe::{ProbeAction, ProbeEvent, ProbeState};
use firewall_probe::conn::role::{
    datagram_received, stream_received, Client, ClientAction, ClientEvent,
};
use firewall_probe::conn::wire::encode_cookie;
use firewall_probe::conn::{ConnEffect, ConnPath, ConnSpec};

const V4_LOCALHOST: IpAddress = IpAddress::V4(0x7f00_0001);
const V6_LOCALHOST: IpAddress = IpAddress::V6(1);

/// What stands between the two ends of the path under test.
#[derive(Clone, Copy, PartialEq)]
enum Firewall {
    /// Everything passes.
    Open,
    /// Packets to the target vanish.
    IngressDrop,
    /// Packets to the target are answered with a rejection.
    IngressReject,
    /// Packets from the source are dropped before they leave, which the
    /// sender is told.
    EgressDrop,
}

/// The client's side of the exchange: every action the client asks for is
/// answered as the kernel behind `firewall` would. Gives the client's word
/// and, if the cookie went out, the bytes that reached the server.
fn run_client(
    plan: &ProbePlan,
    spec: ConnSpec,
    source_addr: IpAddress,
    target_addr: IpAddress,
    firewall: Firewall,
) -> (Option<ProbeEvent<&'static str>>, Option<[u8; 16]>) {
    let (mut client, first) = Client::start::<&'static str>(spec, source_addr, target_addr);
    match first {
        ClientAction::Open(opened) => assert_eq!(opened, plan.client),
        _ => panic!("a client starts by opening its socket"),
    }
    let tcp = matches!(spec, ConnSpec::Tcp { .. });
    let mut delivered = None;
    let mut event = ClientEvent::Done;
    loop {
        assert!(client.accepts(&event));
        let (next, action) = client.step(event);
        client = next;
        event = match action {
            ClientAction::Open(_) => panic!("the socket is open already"),
            ClientAction::Connect(to) => {
                assert_eq!(to, plan.server.bind);
                match firewall {
                    Firewall::IngressDrop if tcp => return (None, None),
                    Firewall::IngressReject if tcp => ClientEvent::Failed {
                        raw_os_error: Some(libc::ECONNREFUSED),
                        error: "connection refused",
                    },
                    _ => ClientEvent::Done,
                }
            }
            ClientAction::Send { cookie } => {
                if firewall == Firewall::Open {
                    delivered = Some(encode_cookie(cookie));
                }
                ClientEvent::Done
            }
            ClientAction::TakeError => match firewall {
                Firewall::IngressReject | Firewall::EgressDrop => ClientEvent::Pending {
                    raw_os_error: Some(libc::ECONNREFUSED),
                    error: "connection refused",
                },
                _ => ClientEvent::Done,
            },
            ClientAction::Finish(result) => return (Some(ProbeEvent::Client(result)), delivered),
        };
    }
}

/// One probe from end to end over a network that lives in this function.
fn probe<Ns>(
    path: &OsNsConnPath<'_, Ns>,
    spec: ConnSpec,
    firewall: Firewall,
) -> Result<ConnEffect, &'static str> {
    assert!(path.is_consistent());
    assert!(spec.is_valid());
    let plan = path.connect(spec);
    assert_eq!(plan.timeout_secs, 2);
    let tcp = matches!(spec, ConnSpec::Tcp { .. });

    let mut state = ProbeState::start();
    let mut events: Vec<ProbeEvent<&'static str>> = vec![ProbeEvent::Bound];
    let (client_event, delivered) =
        run_client(&plan, spec, path.source_addr(), path.target_addr(), firewall);
    if let Some(event) = client_event {
        events.push(event);
    }
    if let Some(bytes) = delivered {
        let peer = SocketAddress { addr: path.source_addr(), port: 50000 };
        let status =
            if tcp { stream_received(&bytes, peer) } else { datagram_received(&bytes, 16, peer) };
        events.push(ProbeEvent::Server(Ok(status)));
    }

    let mut queue = events.into_iter();
    loop {
        let event = queue.next().unwrap_or(ProbeEvent::Elapsed);
        assert!(state.accepts(&event));
        let (next, action) = state.step(event);
        state = next;
        match action {
            ProbeAction::Run | ProbeAction::Wait => {}
            ProbeAction::AbortServer => {
                assert!(state.accepts(&ProbeEvent::<&str>::Server(Ok(ServerStatus::Aborted))));
                let (next, action) = state.step(ProbeEvent::Server(Ok(ServerStatus::Aborted)));
                assert!(next.is_finished());
                match action {
                    ProbeAction::Return(result) => return result,
                    _ => panic!("a server that stopped ends the probe"),
                }
            }
            ProbeAction::Return(result) => {
                assert!(state.is_finished());
                return result;
            }
        }
    }
}

fn v4_loopback<'a>(ns: &'a ()) -> OsNsConnPath<'a, ()> {
    OsNsConnPath::new("source", ns, V4_LOCALHOST, "target", ns, V4_LOCALHOST)
}

fn v6_loopback<'a>(ns: &'a ()) -> OsNsConnPath<'a, ()> {
    OsNsConnPath::new("source", ns, V6_LOCALHOST, "target", ns, V6_LOCALHOST)
}

#[test]
fn tcp_v4_ok() {
    let result = probe(&v4_loopback(&()), ConnSpec::Tcp { port: 1 }, Firewall::Open);
    assert_eq!(Ok(ConnEffect::Delivered { source_addr: V4_LOCALHOST }), result);
}

#[test]
fn tcp_v6_ok() {
    let result = probe(&v6_loopback(&()), ConnSpec::Tcp { port: 1 }, Firewall::Open);
    assert_eq!(Ok(ConnEffect::Delivered { source_addr: V6_LOCALHOST }), result);
}

#[test]
fn udp_v4_ok() {
    let result = probe(&v4_loopback(&()), ConnSpec::Udp { port: 1 }, Firewall::Open);
    assert_eq!(Ok(ConnEffect::Delivered { source_addr: V4_LOCALHOST }), result);
}

#[test]
fn udp_v6_ok() {
    let result = probe(&v6_loopback(&()), ConnSpec::Udp { port: 1 }, Firewall::Open);
    assert_eq!(Ok(ConnEffect::Delivered { source_addr: V6_LOCALHOST }), result);
}

#[test]
fn ingress_drop_is_unreachable() {
    let tcp = ConnSpec::Tcp { port: 80 };
    assert_eq!(probe(&v4_loopback(&()), tcp, Firewall::IngressDrop), Ok(ConnEffect::Unreachable));
    assert_eq!(probe(&v6_loopback(&()), tcp, Firewall::IngressDrop), Ok(ConnEffect::Unreachable));
    let udp = ConnSpec::Udp { port: 53 };
    assert_eq!(probe(&v4_loopback(&()), udp, Firewall::IngressDrop), Ok(ConnEffect::Unreachable));
}

#[test]
fn ingress_reject_is_refused() {
    let tcp = ConnSpec::Tcp { port: 80 };
    assert_eq!(probe(&v4_loopback(&()), tcp, Firewall::IngressReject), Ok(ConnEffect::Refused));
    assert_eq!(probe(&v6_loopback(&()), tcp, Firewall::IngressReject), Ok(ConnEffect::Refused));
    let udp = ConnSpec::Udp { port: 53 };
    assert_eq!(probe(&v4_loopback(&()), udp, Firewall::IngressReject), Ok(ConnEffect::Refused));
}

#[test]
fn egress_drop_for_udp_is_refused() {
    let udp = ConnSpec::Udp { port: 53 };
    assert_eq!(probe(&v4_loopback(&()), udp, Firewall::EgressDrop), Ok(ConnEffect::Refused));
    assert_eq!(probe(&v6_loopback(&()), udp, Firewall::EgressDrop), Ok(ConnEffect::Refused));
}
