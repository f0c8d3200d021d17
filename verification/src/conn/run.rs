//! Whole runs of a probe: what holds of every sequence of events that the
//! coordinator accepts, from the first event to the last.

use crate::addr::{IpAddress, SocketAddress};
use crate::conn::os::{ClientStatus, ReceivedCookie, SentCookie, ServerStatus};
use crate::conn::probe::{accepts, joint_effect, next, ProbeAction, ProbeEvent, ProbeState};
use crate::conn::role::received_of;
use crate::conn::wire::{be_bytes, lemma_cookie_round_trip};
use crate::conn::ConnEffect;
use vstd::prelude::*;

verus! {

/// Where a probe stands after `events`, taken in one by one from the start.
pub open spec fn state_after<E>(events: Seq<ProbeEvent<E>>) -> ProbeState
    decreases events.len(),
{
    if events.len() == 0 {
        ProbeState::Binding
    } else {
        next(state_after(events.drop_last()), events.last()).0
    }
}

/// Whether `events` can happen in this order: each is accepted where the
/// ones before it have led.
pub open spec fn can_happen<E>(events: Seq<ProbeEvent<E>>) -> bool
    decreases events.len(),
{
    events.len() == 0 || (can_happen(events.drop_last()) && accepts(
        state_after(events.drop_last()),
        events.last(),
    ))
}

/// What the probe hands back when the last of `events` ends it.
pub open spec fn result_after<E>(events: Seq<ProbeEvent<E>>) -> Option<Result<ConnEffect, E>> {
    if events.len() == 0 {
        None
    } else {
        match next(state_after(events.drop_last()), events.last()).1 {
            ProbeAction::Return(result) => Some(result),
            _ => None,
        }
    }
}

/// Every beginning of a run that can happen can happen too, and each event
/// of the run is accepted where the events before it have led.
pub proof fn lemma_beginnings_can_happen<E>(events: Seq<ProbeEvent<E>>, k: int)
    requires
        can_happen(events),
        0 <= k <= events.len(),
    ensures
        can_happen(events.take(k)),
        k < events.len() ==> accepts(state_after(events.take(k)), events[k]),
        k < events.len() ==> state_after(events.take(k + 1)) == next(
            state_after(events.take(k)),
            events[k],
        ).0,
    decreases events.len() - k,
{
    if k == events.len() {
        assert(events.take(k) =~= events);
    } else {
        lemma_beginnings_can_happen(events, k + 1);
        assert(events.take(k + 1).drop_last() =~= events.take(k));
    }
}

/// A probe is over after three events at the latest: the bind, and one word
/// from each role or the deadline in place of a word still owed. The bind
/// comes first: neither role is heard, and no deadline passes, before the
/// server socket is bound.
pub proof fn lemma_three_events_end_a_probe<E>(events: Seq<ProbeEvent<E>>)
    requires
        can_happen(events),
    ensures
        events.len() <= 3,
        events.len() == 3 ==> state_after(events) is Finished,
        events.len() >= 1 ==> events[0] is Bound || events[0] is BindFailed,
        events.len() >= 2 ==> events[0] is Bound,
        state_after(events) is Finished <==> result_after(events) is Some,
{
    if events.len() >= 1 {
        lemma_beginnings_can_happen(events, 0);
    }
    if events.len() >= 2 {
        lemma_beginnings_can_happen(events, 1);
    }
    if events.len() >= 3 {
        lemma_beginnings_can_happen(events, 2);
    }
    if events.len() >= 4 {
        lemma_beginnings_can_happen(events, 3);
    }
}

/// Whether `events` are those of a delivery: the server bound, then the
/// cookie `tx` sent and the cookie `rx` received, in either order.
pub open spec fn is_delivery<E>(
    events: Seq<ProbeEvent<E>>,
    tx: SentCookie,
    rx: ReceivedCookie,
) -> bool {
    let sent = ProbeEvent::<E>::Client(Ok(ClientStatus::SentCookie(tx)));
    let received = ProbeEvent::<E>::Server(Ok(ServerStatus::ReceivedCookie(rx)));
    events == seq![ProbeEvent::Bound, sent, received] || events == seq![
        ProbeEvent::Bound,
        received,
        sent,
    ]
}

/// A probe that reports `Delivered` has seen exactly this: the server
/// bound, a cookie sent and the same cookie received, in either order. The
/// address it reports is the one the server saw the cookie come from.
pub proof fn lemma_delivered_runs<E>(events: Seq<ProbeEvent<E>>, source_addr: IpAddress)
    requires
        can_happen(events),
        result_after(events) == Some(Ok::<ConnEffect, E>(ConnEffect::Delivered { source_addr })),
    ensures
        exists|tx: SentCookie, rx: ReceivedCookie| #[trigger]
            is_delivery(events, tx, rx) && rx.cookie == tx.cookie && rx.peer_addr == source_addr,
{
    lemma_three_events_end_a_probe(events);
    lemma_beginnings_can_happen(events, 0);
    if events.len() >= 2 {
        lemma_beginnings_can_happen(events, 1);
    }
    if events.len() >= 3 {
        lemma_beginnings_can_happen(events, 2);
    }
    match (events[1], events[2]) {
        (
            ProbeEvent::Client(Ok(ClientStatus::SentCookie(tx))),
            ProbeEvent::Server(Ok(ServerStatus::ReceivedCookie(rx))),
        ) => {
            assert(events =~= seq![ProbeEvent::Bound, events[1], events[2]]);
            assert(is_delivery(events, tx, rx));
        },
        (
            ProbeEvent::Server(Ok(ServerStatus::ReceivedCookie(rx))),
            ProbeEvent::Client(Ok(ClientStatus::SentCookie(tx))),
        ) => {
            assert(events =~= seq![ProbeEvent::Bound, events[1], events[2]]);
            assert(is_delivery(events, tx, rx));
        },
        _ => {},
    }
}

/// A probe whose client was refused reports `Refused`, unless the deadline
/// passes before the server has stopped.
pub proof fn lemma_refused_runs<E>(events: Seq<ProbeEvent<E>>, i: int, effect: ConnEffect)
    requires
        can_happen(events),
        0 <= i < events.len(),
        events[i] == ProbeEvent::<E>::Client(Ok(ClientStatus::Refused)),
        result_after(events) == Some(Ok::<ConnEffect, E>(effect)),
        !(events.last() is Elapsed),
    ensures
        effect is Refused,
        events == seq![
            ProbeEvent::<E>::Bound,
            ProbeEvent::Client(Ok(ClientStatus::Refused)),
            ProbeEvent::Server(Ok(ServerStatus::Aborted)),
        ],
{
    lemma_three_events_end_a_probe(events);
    lemma_beginnings_can_happen(events, 0);
    if events.len() >= 2 {
        lemma_beginnings_can_happen(events, 1);
    }
    if events.len() >= 3 {
        lemma_beginnings_can_happen(events, 2);
    }
}

/// A probe reports `Refused` only when its client was refused and its
/// server, called off, has stopped.
pub proof fn lemma_refused_means_refused<E>(events: Seq<ProbeEvent<E>>)
    requires
        can_happen(events),
        result_after(events) == Some(Ok::<ConnEffect, E>(ConnEffect::Refused)),
    ensures
        events == seq![
            ProbeEvent::<E>::Bound,
            ProbeEvent::Client(Ok(ClientStatus::Refused)),
            ProbeEvent::Server(Ok(ServerStatus::Aborted)),
        ],
{
    lemma_three_events_end_a_probe(events);
    lemma_beginnings_can_happen(events, 0);
    if events.len() >= 2 {
        lemma_beginnings_can_happen(events, 1);
    }
    if events.len() >= 3 {
        lemma_beginnings_can_happen(events, 2);
    }
}

/// A probe reports `Unreachable` when, and only when, the deadline passes
/// before both roles have had their word. In particular it does so when
/// neither role has said anything by then.
pub proof fn lemma_unreachable_runs<E>(events: Seq<ProbeEvent<E>>)
    requires
        can_happen(events),
        events.len() > 0,
    ensures
        events.last() is Elapsed <==> result_after(events) == Some(
            Ok::<ConnEffect, E>(ConnEffect::Unreachable),
        ),
        can_happen(seq![ProbeEvent::<E>::Bound, ProbeEvent::Elapsed]),
        result_after(seq![ProbeEvent::<E>::Bound, ProbeEvent::Elapsed]) == Some(
            Ok::<ConnEffect, E>(ConnEffect::Unreachable),
        ),
{
    let silent = seq![ProbeEvent::<E>::Bound, ProbeEvent::Elapsed];
    let bound = seq![ProbeEvent::<E>::Bound];
    assert(silent.drop_last() =~= bound);
    assert(can_happen(bound.drop_last()));
    assert(can_happen(bound));
}

/// A probe that ends in an error ends in the error of its last event: the
/// failed bind or the failure of one of the roles.
pub proof fn lemma_error_runs<E>(events: Seq<ProbeEvent<E>>, error: E)
    requires
        can_happen(events),
        result_after(events) == Some(Err::<ConnEffect, E>(error)),
    ensures
        events.len() > 0,
        events.last() == ProbeEvent::BindFailed(error) || events.last() == ProbeEvent::Client(
            Err(error),
        ) || events.last() == ProbeEvent::Server(Err(error)),
{
}

/// A cookie that reaches the server as the bytes the client sent for it is
/// delivered: what the client reports and what the server reports then
/// never contradict each other, and the effect names the address the bytes
/// came from.
pub proof fn lemma_sent_bytes_deliver(cookie: u128, peer: SocketAddress)
    ensures
        joint_effect(
            ClientStatus::SentCookie(SentCookie { cookie }),
            received_of(be_bytes(cookie as nat, 16), peer),
        ) == Some(ConnEffect::Delivered { source_addr: peer.addr }),
{
    lemma_cookie_round_trip(cookie);
}

} // verus!
