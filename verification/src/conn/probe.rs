//! The coordinator of one probe.
//!
//! A probe binds its server, then runs server and client side by side under
//! one deadline. The coordinator does none of that itself. It is told what
//! happened, one event at a time, and answers with what to do next. The
//! caller performs the action and comes back with the next event.

use crate::addr::IpAddress;
use crate::conn::os::{ClientStatus, ReceivedCookie, SentCookie, ServerStatus};
use crate::conn::ConnEffect;
use vstd::prelude::*;

verus! {

/// How long a probe may take, in seconds, before it counts as unreachable.
pub const PROBE_TIMEOUT_SECS: u64 = 2;

/// What the two outcomes of a probe say together, where they make sense
/// together. A cookie that arrived changed, a server that received what a
/// refused client never sent, and a server called off although the client
/// sent its cookie make no sense: for those there is no effect.
pub open spec fn joint_effect(client: ClientStatus, server: ServerStatus) -> Option<ConnEffect> {
    match (client, server) {
        (ClientStatus::SentCookie(tx), ServerStatus::ReceivedCookie(rx)) => {
            if rx.cookie == tx.cookie {
                Some(ConnEffect::Delivered { source_addr: rx.peer_addr })
            } else {
                None
            }
        },
        (ClientStatus::Refused, ServerStatus::Aborted) => Some(ConnEffect::Refused),
        _ => None,
    }
}

/// The effect two outcomes amount to, or `None` where they contradict each
/// other.
pub fn try_conclude(client: ClientStatus, server: ServerStatus) -> (effect: Option<ConnEffect>)
    ensures
        effect == joint_effect(client, server),
{
    match client {
        ClientStatus::SentCookie(tx) => match server {
            ServerStatus::ReceivedCookie(rx) => {
                if rx.cookie == tx.cookie {
                    Some(ConnEffect::Delivered { source_addr: rx.peer_addr })
                } else {
                    None
                }
            },
            ServerStatus::Aborted => None,
        },
        ClientStatus::Refused => match server {
            ServerStatus::ReceivedCookie(_) => None,
            ServerStatus::Aborted => Some(ConnEffect::Refused),
        },
    }
}

/// The effect two outcomes amount to. The outcomes must not contradict each
/// other.
pub fn conclude(client: ClientStatus, server: ServerStatus) -> (effect: ConnEffect)
    requires
        joint_effect(client, server) is Some,
    ensures
        joint_effect(client, server) == Some(effect),
        effect is Delivered ==> client is SentCookie && server is ReceivedCookie
            && server->ReceivedCookie_0.cookie == client->SentCookie_0.cookie
            && effect->source_addr == server->ReceivedCookie_0.peer_addr,
        client is Refused ==> effect is Refused,
        effect !is Unreachable,
{
    match server {
        ServerStatus::ReceivedCookie(rx) => ConnEffect::Delivered { source_addr: rx.peer_addr },
        ServerStatus::Aborted => ConnEffect::Refused,
    }
}

/// Where a probe stands.
#[derive(Clone, Copy, Debug, PartialEq, Eq, Structural)]
pub enum ProbeState {
    /// The server socket is not bound yet; neither role runs.
    Binding,
    /// Both roles were started. Each slot holds what its role has reported
    /// so far. A server that was called off ends the probe at once, so the
    /// server's slot only ever holds a cookie that arrived.
    Running { client: Option<ClientStatus>, server: Option<ReceivedCookie> },
    /// The probe is over.
    Finished,
}

/// Something that happened to a running probe. `E` is the caller's error
/// type; the coordinator hands errors through untouched.
#[derive(Debug)]
pub enum ProbeEvent<E> {
    /// The server socket is bound.
    Bound,
    /// Binding the server socket failed.
    BindFailed(E),
    /// The client role ended.
    Client(Result<ClientStatus, E>),
    /// The server role ended.
    Server(Result<ServerStatus, E>),
    /// The deadline passed.
    Elapsed,
}

/// What the caller has to do next.
#[derive(Debug)]
pub enum ProbeAction<E> {
    /// Start the server role and the client role.
    Run,
    /// Keep waiting for the next event.
    Wait,
    /// Call the server role off, then keep waiting.
    AbortServer,
    /// Drop whatever still runs and hand this back as the probe's result.
    Return(Result<ConnEffect, E>),
}

/// Whether `event` can follow in `state`. What cannot follow would make the
/// probe contradict itself: a role that ends twice, a server called off
/// that nobody called off, two outcomes without a joint effect.
pub open spec fn accepts<E>(state: ProbeState, event: ProbeEvent<E>) -> bool {
    match state {
        ProbeState::Binding => event is Bound || event is BindFailed,
        ProbeState::Running { client, server } => match event {
            ProbeEvent::Bound => false,
            ProbeEvent::BindFailed(_) => false,
            ProbeEvent::Client(Ok(status)) => client is None && (server matches Some(rx)
                ==> joint_effect(status, ServerStatus::ReceivedCookie(rx)) is Some),
            ProbeEvent::Client(Err(_)) => client is None,
            ProbeEvent::Server(Ok(ServerStatus::ReceivedCookie(rx))) => server is None && (client
                matches Some(status) ==> joint_effect(status, ServerStatus::ReceivedCookie(rx))
                is Some),
            ProbeEvent::Server(Ok(ServerStatus::Aborted)) => server is None && client == Some(
                ClientStatus::Refused,
            ),
            ProbeEvent::Server(Err(_)) => server is None,
            ProbeEvent::Elapsed => true,
        },
        ProbeState::Finished => false,
    }
}

/// The state after `event` and the action it calls for, for an event that
/// `state` accepts.
pub open spec fn next<E>(state: ProbeState, event: ProbeEvent<E>) -> (ProbeState, ProbeAction<E>) {
    match event {
        ProbeEvent::Bound => (ProbeState::Running { client: None, server: None }, ProbeAction::Run),
        ProbeEvent::BindFailed(error) => (ProbeState::Finished, ProbeAction::Return(Err(error))),
        ProbeEvent::Client(Err(error)) => (ProbeState::Finished, ProbeAction::Return(Err(error))),
        ProbeEvent::Server(Err(error)) => (ProbeState::Finished, ProbeAction::Return(Err(error))),
        ProbeEvent::Elapsed => (
            ProbeState::Finished,
            ProbeAction::Return(Ok(ConnEffect::Unreachable)),
        ),
        ProbeEvent::Client(Ok(status)) => match state {
            ProbeState::Running { client: _, server: Some(rx) } => (
                ProbeState::Finished,
                ProbeAction::Return(Ok(ConnEffect::Delivered { source_addr: rx.peer_addr })),
            ),
            _ => (
                ProbeState::Running { client: Some(status), server: None },
                if status is Refused {
                    ProbeAction::AbortServer
                } else {
                    ProbeAction::Wait
                },
            ),
        },
        ProbeEvent::Server(Ok(ServerStatus::ReceivedCookie(rx))) => match state {
            ProbeState::Running { client: Some(_), server: _ } => (
                ProbeState::Finished,
                ProbeAction::Return(Ok(ConnEffect::Delivered { source_addr: rx.peer_addr })),
            ),
            _ => (ProbeState::Running { client: None, server: Some(rx) }, ProbeAction::Wait),
        },
        ProbeEvent::Server(Ok(ServerStatus::Aborted)) => (
            ProbeState::Finished,
            ProbeAction::Return(Ok(ConnEffect::Refused)),
        ),
    }
}

impl ProbeState {
    /// A probe that still runs has heard from one role at most: the second
    /// word ends it.
    pub open spec fn wf(self) -> bool {
        self matches ProbeState::Running { client, server } ==> client is None || server is None
    }

    /// Where every probe begins. The deadline runs from here. The caller's
    /// first job is to bind the server socket, before any client exists, and
    /// to report how that went.
    pub fn start() -> (state: ProbeState)
        ensures
            state == ProbeState::Binding,
            state.wf(),
    {
        ProbeState::Binding
    }

    /// Whether the probe is over.
    pub fn is_finished(&self) -> (finished: bool)
        ensures
            finished == (*self is Finished),
    {
        match self {
            ProbeState::Finished => true,
            _ => false,
        }
    }

    /// Whether `event` can follow in this state: see `accepts`.
    pub fn accepts<E>(&self, event: &ProbeEvent<E>) -> (accepted: bool)
        ensures
            accepted == accepts(*self, *event),
    {
        match self {
            ProbeState::Binding => match event {
                ProbeEvent::Bound => true,
                ProbeEvent::BindFailed(_) => true,
                _ => false,
            },
            ProbeState::Running { client, server } => match event {
                ProbeEvent::Bound => false,
                ProbeEvent::BindFailed(_) => false,
                ProbeEvent::Client(Ok(status)) => match client {
                    Some(_) => false,
                    None => match server {
                        None => true,
                        Some(rx) => try_conclude(
                            *status,
                            ServerStatus::ReceivedCookie(*rx),
                        ).is_some(),
                    },
                },
                ProbeEvent::Client(Err(_)) => client.is_none(),
                ProbeEvent::Server(Ok(ServerStatus::ReceivedCookie(rx))) => match server {
                    Some(_) => false,
                    None => match client {
                        None => true,
                        Some(status) => try_conclude(
                            *status,
                            ServerStatus::ReceivedCookie(*rx),
                        ).is_some(),
                    },
                },
                ProbeEvent::Server(Ok(ServerStatus::Aborted)) => match server {
                    Some(_) => false,
                    None => match client {
                        Some(ClientStatus::Refused) => true,
                        _ => false,
                    },
                },
                ProbeEvent::Server(Err(_)) => server.is_none(),
                ProbeEvent::Elapsed => true,
            },
            ProbeState::Finished => false,
        }
    }

    /// Takes `event` in and tells the caller what to do next.
    ///
    /// Once the action is `Return`, the probe is over, whatever still runs
    /// is to be dropped, and no further event is accepted.
    pub fn step<E>(self, event: ProbeEvent<E>) -> (out: (ProbeState, ProbeAction<E>))
        requires
            accepts(self, event),
        ensures
            out == next(self, event),
            out.0 is Finished <==> out.1 is Return,
            out.0.wf(),
    {
        match event {
            ProbeEvent::Bound => (
                ProbeState::Running { client: None, server: None },
                ProbeAction::Run,
            ),
            ProbeEvent::BindFailed(error) => (
                ProbeState::Finished,
                ProbeAction::Return(Err(error)),
            ),
            ProbeEvent::Client(Err(error)) => (
                ProbeState::Finished,
                ProbeAction::Return(Err(error)),
            ),
            ProbeEvent::Server(Err(error)) => (
                ProbeState::Finished,
                ProbeAction::Return(Err(error)),
            ),
            ProbeEvent::Elapsed => (
                ProbeState::Finished,
                ProbeAction::Return(Ok(ConnEffect::Unreachable)),
            ),
            ProbeEvent::Client(Ok(status)) => match self {
                ProbeState::Running { client: _, server: Some(rx) } => (
                    ProbeState::Finished,
                    ProbeAction::Return(Ok(conclude(status, ServerStatus::ReceivedCookie(rx)))),
                ),
                _ => (
                    ProbeState::Running { client: Some(status), server: None },
                    match status {
                        ClientStatus::Refused => ProbeAction::AbortServer,
                        ClientStatus::SentCookie(_) => ProbeAction::Wait,
                    },
                ),
            },
            ProbeEvent::Server(Ok(status)) => match self {
                ProbeState::Running { client: Some(sent), server: _ } => (
                    ProbeState::Finished,
                    ProbeAction::Return(Ok(conclude(sent, status))),
                ),
                _ => match status {
                    ServerStatus::ReceivedCookie(rx) => (
                        ProbeState::Running { client: None, server: Some(rx) },
                        ProbeAction::Wait,
                    ),
                    ServerStatus::Aborted => (
                        ProbeState::Finished,
                        ProbeAction::Return(Ok(ConnEffect::Refused)),
                    ),
                },
            },
        }
    }
}

/// Whenever the deadline passes while the roles run, the probe ends there
/// and reports `Unreachable`; and nothing but the deadline makes a probe
/// report `Unreachable`.
pub proof fn lemma_unreachable_is_the_deadline<E>(state: ProbeState, event: ProbeEvent<E>)
    requires
        accepts(state, event),
    ensures
        event is Elapsed <==> next(state, event).1 == ProbeAction::<E>::Return(
            Ok(ConnEffect::Unreachable),
        ),
        state is Running ==> accepts(state, ProbeEvent::<E>::Elapsed),
{
}

/// A client that is refused while the server still waits has the server
/// called off, and the server's word that it stopped then ends the probe
/// with `Refused`.
pub proof fn lemma_refusal_is_reported<E>()
    ensures
        ({
            let running = ProbeState::Running { client: None, server: None };
            let refused = ProbeEvent::<E>::Client(Ok(ClientStatus::Refused));
            let stopped = ProbeEvent::<E>::Server(Ok(ServerStatus::Aborted));
            &&& accepts(running, refused)
            &&& next(running, refused).1 == ProbeAction::<E>::AbortServer
            &&& accepts(next(running, refused).0, stopped)
            &&& next(next(running, refused).0, stopped) == (
                ProbeState::Finished,
                ProbeAction::<E>::Return(Ok(ConnEffect::Refused)),
            )
        }),
{
}

/// A cookie that is sent and arrives unchanged ends the probe with
/// `Delivered` and the address the server saw it come from, whichever of
/// the two roles reports first.
pub proof fn lemma_delivery_is_reported<E>(tx: SentCookie, rx: ReceivedCookie)
    requires
        rx.cookie == tx.cookie,
    ensures
        ({
            let running = ProbeState::Running { client: None, server: None };
            let sent = ProbeEvent::<E>::Client(Ok(ClientStatus::SentCookie(tx)));
            let received = ProbeEvent::<E>::Server(Ok(ServerStatus::ReceivedCookie(rx)));
            let delivered = (
                ProbeState::Finished,
                ProbeAction::<E>::Return(Ok(ConnEffect::Delivered { source_addr: rx.peer_addr })),
            );
            &&& accepts(running, sent)
            &&& accepts(next(running, sent).0, received)
            &&& next(next(running, sent).0, received) == delivered
            &&& accepts(running, received)
            &&& accepts(next(running, received).0, sent)
            &&& next(next(running, received).0, sent) == delivered
        }),
{
}

/// A probe reports `Delivered` only when it has both a cookie that was sent
/// and a cookie that arrived, the two are the same cookie, and the address
/// it reports is the one the server saw.
pub proof fn lemma_delivered_means_same_cookie<E>(
    state: ProbeState,
    event: ProbeEvent<E>,
    source_addr: IpAddress,
)
    requires
        accepts(state, event),
        next(state, event).1 == ProbeAction::<E>::Return(
            Ok(ConnEffect::Delivered { source_addr }),
        ),
    ensures
        (exists|tx: SentCookie, rx: ReceivedCookie|
            rx.cookie == tx.cookie && rx.peer_addr == source_addr && ((state == (
                ProbeState::Running {
                    client: Some(ClientStatus::SentCookie(tx)),
                    server: None,
                }
            ) && event == ProbeEvent::<E>::Server(Ok(ServerStatus::ReceivedCookie(rx)))) || (state
                == (ProbeState::Running { client: None, server: Some(rx) }) && event
                == ProbeEvent::<E>::Client(Ok(ClientStatus::SentCookie(tx)))))),
{
}

/// An error from either role, or from binding the server, ends the probe at
/// once with that very error.
pub proof fn lemma_errors_surface<E>(state: ProbeState, error: E)
    ensures
        next(state, ProbeEvent::BindFailed(error)).1 == ProbeAction::Return(Err(error)),
        next(state, ProbeEvent::Client(Err(error))).1 == ProbeAction::Return(Err(error)),
        next(state, ProbeEvent::Server(Err(error))).1 == ProbeAction::Return(Err(error)),
{
}

} // verus!
