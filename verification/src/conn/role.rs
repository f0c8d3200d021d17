//! The two roles of a probe: the server that waits for one cookie and the
//! client that sends it.
//!
//! Neither role touches a socket here. Each says which sockets it needs and
//! what to do with them, and turns what the sockets reported into the role's
//! outcome.

use crate::addr::{Family, IpAddress, SocketAddress};
use crate::conn::os::{ClientStatus, ReceivedCookie, SentCookie, ServerStatus};
use crate::conn::wire::{be_value, decode_cookie, COOKIE_LEN};
use crate::conn::ConnSpec;
use crate::trusted::{econnrefused, random_u128};
use vstd::prelude::*;

verus! {

/// The socket a server needs, to be made inside the target's namespace.
#[derive(Clone, Copy, Debug, PartialEq, Eq, Structural)]
pub struct ServerPlan {
    /// The address family of the socket.
    pub family: Family,
    /// Where to bind it.
    pub bind: SocketAddress,
    /// For a stream socket, the backlog to listen with; `None` for a
    /// datagram socket, which does not listen.
    pub backlog: Option<u32>,
}

/// The socket a client needs, to be made inside the source's namespace.
#[derive(Clone, Copy, Debug, PartialEq, Eq, Structural)]
pub struct ClientPlan {
    /// The address family of the socket.
    pub family: Family,
    /// Where to bind it first, if anywhere.
    pub bind: Option<SocketAddress>,
    /// Where to connect it.
    pub connect: SocketAddress,
}

/// The server socket for `spec` on `target_addr`: bound to the target
/// address and the probe's port; a TCP server listens for one connection.
pub open spec fn server_plan_of(spec: ConnSpec, target_addr: IpAddress) -> ServerPlan {
    ServerPlan {
        family: target_addr.spec_family(),
        bind: SocketAddress { addr: target_addr, port: spec.spec_port() },
        backlog: match spec {
            ConnSpec::Tcp { .. } => Some(1u32),
            ConnSpec::Udp { .. } => None,
        },
    }
}

/// The client socket for `spec` from `source_addr` to `target_addr`. A UDP
/// client binds the source address, with any port, so that the server sees
/// the cookie come from there; a TCP client leaves the choice to the kernel.
/// Either connects to the target address and the probe's port.
pub open spec fn client_plan_of(
    spec: ConnSpec,
    source_addr: IpAddress,
    target_addr: IpAddress,
) -> ClientPlan {
    ClientPlan {
        family: target_addr.spec_family(),
        bind: match spec {
            ConnSpec::Tcp { .. } => None,
            ConnSpec::Udp { .. } => Some(SocketAddress { addr: source_addr, port: 0 }),
        },
        connect: SocketAddress { addr: target_addr, port: spec.spec_port() },
    }
}

/// The socket the server of a probe needs.
pub fn server_plan(spec: ConnSpec, target_addr: IpAddress) -> (plan: ServerPlan)
    requires
        spec.wf(),
    ensures
        plan == server_plan_of(spec, target_addr),
        plan.bind.port >= 1,
{
    ServerPlan {
        family: target_addr.family(),
        bind: SocketAddress { addr: target_addr, port: spec.port() },
        backlog: match spec {
            ConnSpec::Tcp { .. } => Some(1u32),
            ConnSpec::Udp { .. } => None,
        },
    }
}

/// The socket the client of a probe needs.
pub fn client_plan(
    spec: ConnSpec,
    source_addr: IpAddress,
    target_addr: IpAddress,
) -> (plan: ClientPlan)
    requires
        spec.wf(),
        source_addr.spec_family() == target_addr.spec_family(),
    ensures
        plan == client_plan_of(spec, source_addr, target_addr),
        plan.bind matches Some(bound) ==> bound.addr.spec_family() == plan.family,
        plan.connect.port >= 1,
{
    ClientPlan {
        family: target_addr.family(),
        bind: match spec {
            ConnSpec::Tcp { .. } => None,
            ConnSpec::Udp { .. } => Some(SocketAddress { addr: source_addr, port: 0 }),
        },
        connect: SocketAddress { addr: target_addr, port: spec.port() },
    }
}

/// What a server reports that received `bytes` from `peer`: the cookie
/// that the bytes spell and the address, without the port, that they came
/// from.
pub open spec fn received_of(bytes: Seq<u8>, peer: SocketAddress) -> ServerStatus {
    ServerStatus::ReceivedCookie(
        ReceivedCookie { cookie: be_value(bytes) as u128, peer_addr: peer.addr },
    )
}

/// What a TCP server reports once it has accepted a connection from `peer`
/// and read sixteen bytes from it.
pub fn stream_received(bytes: &[u8; 16], peer: SocketAddress) -> (status: ServerStatus)
    ensures
        status == received_of(bytes@, peer),
        be_value(bytes@) <= u128::MAX,
{
    ServerStatus::ReceivedCookie(
        ReceivedCookie { cookie: decode_cookie(bytes), peer_addr: peer.addr },
    )
}

/// What a UDP server reports once a datagram of `size` bytes from `peer`
/// has landed in `buf`. The datagram must be exactly one cookie long.
pub fn datagram_received(
    buf: &[u8; 16],
    size: usize,
    peer: SocketAddress,
) -> (status: ServerStatus)
    requires
        size == COOKIE_LEN,
    ensures
        status == received_of(buf@, peer),
        be_value(buf@) <= u128::MAX,
{
    ServerStatus::ReceivedCookie(
        ReceivedCookie { cookie: decode_cookie(buf), peer_addr: peer.addr },
    )
}

/// How far a client has come.
#[derive(Clone, Copy, Debug, PartialEq, Eq, Structural)]
pub enum ClientStage {
    /// The socket is being made, and bound where the plan says so.
    Opening,
    /// The socket is being connected.
    Connecting,
    /// The cookie is being sent.
    Sending { cookie: u128 },
    /// The socket is being asked whether an error is pending on it.
    Checking { cookie: u128 },
    /// The client is done.
    Finished,
}

/// The client of one probe.
#[derive(Clone, Copy, Debug, PartialEq, Eq, Structural)]
pub struct Client {
    /// The transport and port of the probe.
    pub spec: ConnSpec,
    /// Where the socket connects.
    pub target: SocketAddress,
    /// How far the client has come.
    pub stage: ClientStage,
}

/// How the action a client asked for went. `E` is the caller's error type.
#[derive(Debug)]
pub enum ClientEvent<E> {
    /// It went through. For a socket asked about a pending error: it has
    /// none.
    Done,
    /// It failed with `error`, which carries the OS error code
    /// `raw_os_error`, if any.
    Failed { raw_os_error: Option<i32>, error: E },
    /// The socket, asked about a pending error, has `error` pending, which
    /// carries the OS error code `raw_os_error`, if any.
    Pending { raw_os_error: Option<i32>, error: E },
}

/// What the caller has to do next for a client.
#[derive(Debug)]
pub enum ClientAction<E> {
    /// Make the socket inside the source's namespace, as the plan says.
    Open(ClientPlan),
    /// Connect the socket to this address.
    Connect(SocketAddress),
    /// Send the sixteen bytes that `encode_cookie` gives for this cookie, in
    /// one write.
    Send { cookie: u128 },
    /// Ask the socket for its pending error.
    TakeError,
    /// The client is over, with this outcome.
    Finish(Result<ClientStatus, E>),
}

/// Whether `event` can follow where `client` stands.
pub open spec fn client_accepts<E>(client: Client, event: ClientEvent<E>) -> bool {
    match client.stage {
        ClientStage::Finished => false,
        ClientStage::Checking { .. } => true,
        _ => !(event is Pending),
    }
}

/// The client after an `event` that it accepts, and the action that
/// follows, where `draw` is the random number at hand for a new cookie and
/// `refused` the error code that stands for a refused connection.
///
/// A TCP client is refused when its connect fails with that code. A UDP
/// client is refused when, after the cookie is sent, that code is pending on
/// its socket. Every other failure, and every other pending error, is an
/// error of the probe.
pub open spec fn client_next<E>(
    client: Client,
    event: ClientEvent<E>,
    draw: u128,
    refused: i32,
) -> (Client, ClientAction<E>) {
    let over = Client { stage: ClientStage::Finished, ..client };
    match event {
        ClientEvent::Failed { raw_os_error, error } => (
            over,
            if client.spec is Tcp && client.stage is Connecting && raw_os_error == Some(refused) {
                ClientAction::Finish(Ok(ClientStatus::Refused))
            } else {
                ClientAction::Finish(Err(error))
            },
        ),
        ClientEvent::Pending { raw_os_error, error } => (
            over,
            if raw_os_error == Some(refused) {
                ClientAction::Finish(Ok(ClientStatus::Refused))
            } else {
                ClientAction::Finish(Err(error))
            },
        ),
        ClientEvent::Done => match client.stage {
            ClientStage::Opening => (
                Client { stage: ClientStage::Connecting, ..client },
                ClientAction::Connect(client.target),
            ),
            ClientStage::Connecting => (
                Client { stage: ClientStage::Sending { cookie: draw }, ..client },
                ClientAction::Send { cookie: draw },
            ),
            ClientStage::Sending { cookie } => if client.spec is Udp {
                (
                    Client { stage: ClientStage::Checking { cookie }, ..client },
                    ClientAction::TakeError,
                )
            } else {
                (over, ClientAction::Finish(Ok(ClientStatus::SentCookie(SentCookie { cookie }))))
            },
            ClientStage::Checking { cookie } => (
                over,
                ClientAction::Finish(Ok(ClientStatus::SentCookie(SentCookie { cookie }))),
            ),
            ClientStage::Finished => (over, ClientAction::Finish(Ok(ClientStatus::Refused))),
        },
    }
}

impl Client {
    /// A client aims at the port of its probe, and only a UDP client ever
    /// asks its socket for a pending error.
    pub open spec fn wf(self) -> bool {
        &&& self.target.port == self.spec.spec_port()
        &&& self.stage is Checking ==> self.spec is Udp
    }

    /// A client for `spec` from `source_addr` to `target_addr`, and its
    /// first action: to make its socket.
    pub fn start<E>(
        spec: ConnSpec,
        source_addr: IpAddress,
        target_addr: IpAddress,
    ) -> (out: (Client, ClientAction<E>))
        requires
            spec.wf(),
            source_addr.spec_family() == target_addr.spec_family(),
        ensures
            out.0 == (Client {
                spec,
                target: client_plan_of(spec, source_addr, target_addr).connect,
                stage: ClientStage::Opening,
            }),
            out.1 == ClientAction::<E>::Open(client_plan_of(spec, source_addr, target_addr)),
            out.0.wf(),
    {
        let plan = client_plan(spec, source_addr, target_addr);
        (
            Client { spec, target: plan.connect, stage: ClientStage::Opening },
            ClientAction::Open(plan),
        )
    }

    /// Whether `event` can follow where the client stands: see
    /// `client_accepts`.
    pub fn accepts<E>(&self, event: &ClientEvent<E>) -> (accepted: bool)
        ensures
            accepted == client_accepts(*self, *event),
    {
        match self.stage {
            ClientStage::Finished => false,
            ClientStage::Checking { .. } => true,
            _ => match event {
                ClientEvent::Pending { .. } => false,
                _ => true,
            },
        }
    }

    /// Takes `event` in and tells the caller what to do next, given the
    /// random number to use if a cookie is due and the error code that
    /// stands for a refused connection.
    pub fn step_with<E>(
        self,
        event: ClientEvent<E>,
        draw: u128,
        refused: i32,
    ) -> (out: (Client, ClientAction<E>))
        requires
            client_accepts(self, event),
        ensures
            out == client_next(self, event, draw, refused),
            out.0.stage is Finished <==> out.1 is Finish,
            self.wf() ==> out.0.wf(),
    {
        let over = Client { spec: self.spec, target: self.target, stage: ClientStage::Finished };
        match event {
            ClientEvent::Failed { raw_os_error, error } => {
                let connecting = match self.stage {
                    ClientStage::Connecting => true,
                    _ => false,
                };
                let tcp = match self.spec {
                    ConnSpec::Tcp { .. } => true,
                    ConnSpec::Udp { .. } => false,
                };
                if tcp && connecting && is_code(raw_os_error, refused) {
                    (over, ClientAction::Finish(Ok(ClientStatus::Refused)))
                } else {
                    (over, ClientAction::Finish(Err(error)))
                }
            },
            ClientEvent::Pending { raw_os_error, error } => {
                if is_code(raw_os_error, refused) {
                    (over, ClientAction::Finish(Ok(ClientStatus::Refused)))
                } else {
                    (over, ClientAction::Finish(Err(error)))
                }
            },
            ClientEvent::Done => match self.stage {
                ClientStage::Opening => (
                    Client { spec: self.spec, target: self.target, stage: ClientStage::Connecting },
                    ClientAction::Connect(self.target),
                ),
                ClientStage::Connecting => (
                    Client {
                        spec: self.spec,
                        target: self.target,
                        stage: ClientStage::Sending { cookie: draw },
                    },
                    ClientAction::Send { cookie: draw },
                ),
                ClientStage::Sending { cookie } => match self.spec {
                    ConnSpec::Udp { .. } => (
                        Client {
                            spec: self.spec,
                            target: self.target,
                            stage: ClientStage::Checking { cookie },
                        },
                        ClientAction::TakeError,
                    ),
                    ConnSpec::Tcp { .. } => (
                        over,
                        ClientAction::Finish(Ok(ClientStatus::SentCookie(SentCookie { cookie }))),
                    ),
                },
                ClientStage::Checking { cookie } => (
                    over,
                    ClientAction::Finish(Ok(ClientStatus::SentCookie(SentCookie { cookie }))),
                ),
                ClientStage::Finished => (over, ClientAction::Finish(Ok(ClientStatus::Refused))),
            },
        }
    }

    /// Takes `event` in and tells the caller what to do next. The cookie,
    /// when one is due, is drawn at random, and the error code that stands
    /// for a refused connection is the one of the system this runs on.
    pub fn step<E>(self, event: ClientEvent<E>) -> (out: (Client, ClientAction<E>))
        requires
            client_accepts(self, event),
        ensures
            exists|draw: u128, refused: i32| out == client_next(self, event, draw, refused),
            out.0.stage is Finished <==> out.1 is Finish,
            self.wf() ==> out.0.wf(),
    {
        let draw = random_u128();
        let refused = econnrefused();
        self.step_with(event, draw, refused)
    }
}

/// Whether an error carries the OS error code `code`.
fn is_code(raw_os_error: Option<i32>, code: i32) -> (same: bool)
    ensures
        same == (raw_os_error == Some(code)),
{
    match raw_os_error {
        Some(raw) => raw == code,
        None => false,
    }
}

/// The cookie a client reports as sent is the cookie it asked to have sent:
/// once the socket is connected, the client asks for the cookie drawn then
/// to be sent, and when the sending, and for UDP the look for a pending
/// error, went through, it is that cookie the client reports.
pub proof fn lemma_client_reports_the_cookie_it_sent<E>(
    client: Client,
    draw: u128,
    later_draw: u128,
    refused: i32,
)
    requires
        client.stage is Connecting,
    ensures
        ({
            let done = ClientEvent::<E>::Done;
            let sent = ClientAction::<E>::Finish(
                Ok(ClientStatus::SentCookie(SentCookie { cookie: draw })),
            );
            let (sending, send) = client_next(client, done, draw, refused);
            let (checking, check) = client_next(sending, done, later_draw, refused);
            &&& send == ClientAction::<E>::Send { cookie: draw }
            &&& client.spec is Tcp ==> check == sent
            &&& client.spec is Udp ==> check == ClientAction::<E>::TakeError && client_next(
                checking,
                done,
                later_draw,
                refused,
            ).1 == sent
        }),
{
}

/// A client reports `Refused` in exactly two cases: a TCP client whose
/// connect failed with the code for a refused connection, and a UDP client
/// that found that code pending on its socket after sending.
pub proof fn lemma_client_refused<E>(
    client: Client,
    event: ClientEvent<E>,
    draw: u128,
    refused: i32,
)
    requires
        client.wf(),
        client_accepts(client, event),
    ensures
        client_next(client, event, draw, refused).1 == ClientAction::<E>::Finish(
            Ok(ClientStatus::Refused),
        ) <==> (client.spec is Tcp && client.stage is Connecting && event is Failed
            && event->Failed_raw_os_error == Some(refused)) || (client.spec is Udp
            && client.stage is Checking && event is Pending && event->Pending_raw_os_error == Some(
            refused,
        )),
{
}

} // verus!
