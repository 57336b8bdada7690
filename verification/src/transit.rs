//! The way of data through the agent, and of the memory that it reserved.
//!
//! Client data goes from the reader of the client's connection to a router, and from there to
//! a connection, which writes it to the peer. Data of a peer goes from the reader of its
//! connection to the client actor, which writes it to the client. Whatever becomes of it on
//! its way, what it reserved is held until it has left the agent.

use crate::budget::{lemma_bytes_are_capped, reserved, total, total_reserved, BudgetPermit};
use crate::client::{client_step, releasing, ClientActionView, ClientMsgView, ClientStateView};
use crate::outgoing::conn::{conn_step, ConnActionView, ConnEvent, ConnMsgView, ConnState};
use crate::outgoing::router::{
    passed_on, router_step, RouterActionView, RouterError, RouterMsgView, RouterView,
};
use crate::outgoing::{message_of, Transport};
use crate::protocol::{ConnectionId, DaemonMessageView, DaemonOutgoingView, IoErrorView};
use crate::version::VersionView;
use vstd::prelude::*;

verus! {

/// Where data is on its way.
pub enum Place {
    /// In the mailbox of a router.
    ForRouter(RouterMsgView),
    /// In the mailbox of a connection.
    ForConn(ConnMsgView),
    /// With a connection that still has these actions to perform.
    AtConn(Seq<ConnActionView>),
    /// In the mailbox of the client actor.
    ForClient(ClientMsgView),
    /// With the client actor, which still has these actions to perform.
    AtClient(Seq<ClientActionView>),
}

/// The size of the data in a message for a connection, and what it reserved.
pub open spec fn conn_mail(message: ConnMsgView) -> (nat, nat) {
    match message {
        ConnMsgView::Write(bytes, budget) => (bytes.len(), budget.held()),
        _ => (0, 0),
    }
}

/// The size of the data in a message to the client.
pub open spec fn data_len(message: DaemonMessageView) -> nat {
    match message {
        DaemonMessageView::TcpOutgoing(DaemonOutgoingView::Read(Ok((_, bytes)))) => bytes.len(),
        DaemonMessageView::UdpOutgoing(DaemonOutgoingView::Read(Ok((_, bytes)))) => bytes.len(),
        _ => 0,
    }
}

/// The size of the data that an action writes, and what it gives back.
pub open spec fn conn_action(action: ConnActionView) -> (nat, nat) {
    match action {
        ConnActionView::WritePeer(bytes) => (bytes.len(), 0),
        ConnActionView::Release(budget) => (0, budget.held()),
        _ => (0, 0),
    }
}

/// The size of the data that an action writes, and what it gives back.
pub open spec fn client_action(action: ClientActionView) -> (nat, nat) {
    match action {
        ClientActionView::Send(message) => (data_len(message), 0),
        ClientActionView::Release(budget) => (0, budget.held()),
        _ => (0, 0),
    }
}

/// What each of some actions writes and gives back.
pub open spec fn conn_work(actions: Seq<ConnActionView>) -> Seq<(nat, nat)> {
    actions.map_values(|a: ConnActionView| conn_action(a))
}

/// What each of some actions writes and gives back.
pub open spec fn client_work(actions: Seq<ClientActionView>) -> Seq<(nat, nat)> {
    actions.map_values(|a: ClientActionView| client_action(a))
}

/// How much is still to be written.
pub open spec fn to_write(work: Seq<(nat, nat)>) -> nat
    decreases work.len(),
{
    if work.len() == 0 {
        0
    } else {
        work[0].0 + to_write(work.skip(1))
    }
}

/// How much is still to be given back.
pub open spec fn to_release(work: Seq<(nat, nat)>) -> nat
    decreases work.len(),
{
    if work.len() == 0 {
        0
    } else {
        work[0].1 + to_release(work.skip(1))
    }
}

/// Whether nothing is given back while there is something to write.
pub open spec fn written_first(work: Seq<(nat, nat)>) -> bool
    decreases work.len(),
{
    work.len() == 0 || (work[0].1 > 0 ==> work[0].0 == 0 && to_write(work.skip(1)) == 0)
        && written_first(work.skip(1))
}

/// The size of the data that has not left the agent yet.
pub open spec fn waiting(place: Place) -> nat {
    match place {
        Place::ForRouter(RouterMsgView::ForConn { message, .. }) => conn_mail(message).0,
        Place::ForRouter(_) => 0,
        Place::ForConn(message) => conn_mail(message).0,
        Place::AtConn(actions) => to_write(conn_work(actions)),
        Place::ForClient(ClientMsgView::Send(message, _)) => data_len(message),
        Place::ForClient(_) => 0,
        Place::AtClient(actions) => to_write(client_work(actions)),
    }
}

/// How much of the budget is held.
pub open spec fn held(place: Place) -> nat {
    match place {
        Place::ForRouter(RouterMsgView::ForConn { message, .. }) => conn_mail(message).1,
        Place::ForRouter(_) => 0,
        Place::ForConn(message) => conn_mail(message).1,
        Place::AtConn(actions) => to_release(conn_work(actions)),
        Place::ForClient(ClientMsgView::Send(_, Some(budget))) => budget.held(),
        Place::ForClient(_) => 0,
        Place::AtClient(actions) => to_release(client_work(actions)),
    }
}

/// Whether what is held in a budget of `limit` covers the data, and stays held until the data
/// has left.
pub open spec fn covered(limit: nat, place: Place) -> bool {
    &&& reserved(limit, waiting(place)) <= held(place)
    &&& match place {
        Place::AtConn(actions) => written_first(conn_work(actions)),
        Place::AtClient(actions) => written_first(client_work(actions)),
        _ => true,
    }
}

/// All the data of one direction of one session that is in the agent.
pub struct InAgent {
    /// What is left of the budget.
    pub free: nat,
    pub places: Seq<Place>,
}

/// What happens to data, in the order in which it happens.
pub enum TransitEvent {
    /// Data of the client was read, and was granted its reservation.
    FromClient { id: ConnectionId, bytes: Seq<u8>, budget: BudgetPermit },
    /// Data of a peer was read, and was granted its reservation.
    FromPeer { transport: Transport, id: ConnectionId, bytes: Seq<u8>, budget: BudgetPermit },
    /// Something happens to what is at this place.
    Moved { at: int, how: Move },
}

/// How data moves on.
pub enum Move {
    /// A router in this state handles it.
    Routed { transport: Transport, router: RouterView },
    /// A connection in this state handles it.
    Handled { transport: Transport, conn: ConnState },
    /// A connection in this state performs the next action; if that is a write, it has this
    /// outcome.
    Performed { transport: Transport, conn: ConnState, io: Option<Result<(), IoErrorView>> },
    /// The client actor in this state handles it.
    Answered { own: VersionView, session: ClientStateView },
    /// The client actor performs the next action.
    Written,
    /// The actor that has it is gone, and everything that it has is dropped.
    Lost,
}

/// Whether data can move on in this way from where it is.
pub open spec fn can_move(place: Place, how: Move) -> bool {
    match how {
        Move::Routed { .. } => place is ForRouter,
        Move::Handled { .. } => place is ForConn,
        Move::Performed { .. } => place matches Place::AtConn(actions) && actions.len() > 0,
        Move::Answered { .. } => place is ForClient,
        Move::Written => place matches Place::AtClient(actions) && actions.len() > 0,
        Move::Lost => true,
    }
}

/// Where data gets to, if it stays in the agent, and how much is given back.
pub open spec fn moved(place: Place, how: Move) -> (Option<Place>, nat) {
    match (place, how) {
        (Place::ForRouter(message), Move::Routed { transport, router }) => match router_step(
            transport,
            router,
            message,
        ).1 {
            Ok(RouterActionView::Forward { message, .. }) => (Some(Place::ForConn(message)), 0),
            Ok(RouterActionView::Release(budget)) => (None, budget.held()),
            _ => (None, 0),
        },
        (Place::ForConn(message), Move::Handled { transport, conn }) => (
            Some(Place::AtConn(conn_step(transport, conn, ConnEvent::Message(message)).1)),
            0,
        ),
        (Place::AtConn(actions), Move::Performed { transport, conn, io }) => (
            Some(
                Place::AtConn(
                    actions.skip(1) + if actions[0] is WritePeer {
                        conn_step(transport, conn, ConnEvent::Written(io)).1
                    } else {
                        Seq::empty()
                    },
                ),
            ),
            conn_action(actions[0]).1,
        ),
        (Place::ForClient(message), Move::Answered { own, session }) => (
            Some(Place::AtClient(client_step(own, session, message).1)),
            0,
        ),
        (Place::AtClient(actions), Move::Written) => (
            Some(Place::AtClient(actions.skip(1))),
            client_action(actions[0]).1,
        ),
        _ => (None, held(place)),
    }
}

/// The data in the agent after an event.
pub open spec fn transit_step(a: InAgent, event: TransitEvent) -> InAgent {
    match event {
        TransitEvent::FromClient { id, bytes, budget } => InAgent {
            free: (a.free - budget.held()) as nat,
            places: a.places.push(
                Place::ForRouter(
                    RouterMsgView::ForConn { id, message: ConnMsgView::Write(bytes, budget) },
                ),
            ),
        },
        TransitEvent::FromPeer { transport, id, bytes, budget } => InAgent {
            free: (a.free - budget.held()) as nat,
            places: a.places.push(
                Place::ForClient(
                    ClientMsgView::Send(
                        message_of(transport, DaemonOutgoingView::Read(Ok((id, bytes)))),
                        Some(budget),
                    ),
                ),
            ),
        },
        TransitEvent::Moved { at, how } => {
            let (place, given_back) = moved(a.places[at], how);
            InAgent {
                free: a.free + given_back,
                places: match place {
                    Some(place) => a.places.update(at, place),
                    None => a.places.remove(at),
                },
            }
        },
    }
}

/// Whether an event can happen: data comes in with a reservation of its size, which is
/// granted only where enough is free.
pub open spec fn can_happen(limit: nat, a: InAgent, event: TransitEvent) -> bool {
    match event {
        TransitEvent::FromClient { bytes, budget, .. } => budget.held() == reserved(
            limit,
            bytes.len(),
        ) && budget.held() <= a.free,
        TransitEvent::FromPeer { bytes, budget, .. } => budget.held() == reserved(
            limit,
            bytes.len(),
        ) && budget.held() <= a.free,
        TransitEvent::Moved { at, how } => 0 <= at < a.places.len() && can_move(a.places[at], how),
    }
}

/// The data in the agent after some events.
pub open spec fn transit_run(limit: nat, events: Seq<TransitEvent>) -> InAgent
    decreases events.len(),
{
    if events.len() == 0 {
        InAgent { free: limit, places: Seq::empty() }
    } else {
        transit_step(transit_run(limit, events.drop_last()), events.last())
    }
}

/// Whether each of some events could happen when it did.
pub open spec fn could_happen(limit: nat, events: Seq<TransitEvent>) -> bool
    decreases events.len(),
{
    events.len() == 0 || could_happen(limit, events.drop_last()) && can_happen(
        limit,
        transit_run(limit, events.drop_last()),
        events.last(),
    )
}

/// How much of the budget is held at some places together.
pub open spec fn all_held(places: Seq<Place>) -> nat
    decreases places.len(),
{
    if places.len() == 0 {
        0
    } else {
        all_held(places.drop_last()) + held(places.last())
    }
}

/// The sizes of the data at some places.
pub open spec fn all_waiting(places: Seq<Place>) -> Seq<nat> {
    places.map_values(|p: Place| waiting(p))
}

proof fn lemma_idle_work(work: Seq<(nat, nat)>)
    requires
        forall|i: int| 0 <= i < work.len() ==> (#[trigger] work[i]) == (0nat, 0nat),
    ensures
        to_write(work) == 0,
        to_release(work) == 0,
        written_first(work),
    decreases work.len(),
{
    if work.len() > 0 {
        lemma_idle_work(work.skip(1));
    }
}

/// Work that is followed by nothing to write or to give back.
proof fn lemma_more_idle_work(work: Seq<(nat, nat)>, more: Seq<(nat, nat)>)
    requires
        forall|i: int| 0 <= i < more.len() ==> (#[trigger] more[i]) == (0nat, 0nat),
    ensures
        to_write(work + more) == to_write(work),
        to_release(work + more) == to_release(work),
        written_first(work) ==> written_first(work + more),
    decreases work.len(),
{
    if work.len() == 0 {
        assert(work + more =~= more);
        lemma_idle_work(more);
    } else {
        lemma_more_idle_work(work.skip(1), more);
        assert((work + more).skip(1) =~= work.skip(1) + more);
    }
}

/// One more thing is done.
proof fn lemma_less_work(limit: nat, work: Seq<(nat, nat)>)
    requires
        work.len() > 0,
        written_first(work),
        reserved(limit, to_write(work)) <= to_release(work),
    ensures
        written_first(work.skip(1)),
        reserved(limit, to_write(work.skip(1))) <= to_release(work.skip(1)),
        to_release(work) == work[0].1 + to_release(work.skip(1)),
{
}

proof fn lemma_conn_handles(limit: nat, transport: Transport, conn: ConnState, message: ConnMsgView)
    requires
        reserved(limit, conn_mail(message).0) <= conn_mail(message).1,
    ensures
        ({
            let work = conn_work(conn_step(transport, conn, ConnEvent::Message(message)).1);
            &&& to_release(work) == conn_mail(message).1
            &&& reserved(limit, to_write(work)) <= to_release(work)
            &&& written_first(work)
        }),
{
    let actions = conn_step(transport, conn, ConnEvent::Message(message)).1;
    let work = conn_work(actions);
    match message {
        ConnMsgView::Write(bytes, budget) => {
            reveal_with_fuel(to_write, 3);
            reveal_with_fuel(to_release, 3);
            reveal_with_fuel(written_first, 3);
            if conn.writable {
                assert(work =~= seq![(bytes.len(), 0nat), (0nat, budget.held())]);
                assert(work.skip(1) =~= seq![(0nat, budget.held())]);
                assert(work.skip(1).skip(1) =~= Seq::empty());
            } else {
                assert(work =~= seq![(0nat, budget.held())]);
                assert(work.skip(1) =~= Seq::empty());
            }
        },
        _ => {
            assert forall|i: int| 0 <= i < work.len() implies (#[trigger] work[i]) == (
                0nat,
                0nat,
            ) by {
                assert(work[i] == conn_action(actions[i]));
            }
            lemma_idle_work(work);
        },
    }
}

proof fn lemma_client_handles(
    limit: nat,
    own: VersionView,
    session: ClientStateView,
    message: ClientMsgView,
)
    requires
        covered(limit, Place::ForClient(message)),
    ensures
        ({
            let work = client_work(client_step(own, session, message).1);
            &&& to_release(work) == held(Place::ForClient(message))
            &&& reserved(limit, to_write(work)) <= to_release(work)
            &&& written_first(work)
        }),
{
    let actions = client_step(own, session, message).1;
    let work = client_work(actions);
    reveal_with_fuel(to_write, 3);
    reveal_with_fuel(to_release, 3);
    reveal_with_fuel(written_first, 3);
    match message {
        ClientMsgView::Send(m, budget) => {
            let last = client_work(releasing(budget));
            if m is LogMessage && !session.ready_for_logs {
                assert(work =~= last);
            } else {
                assert(work =~= seq![(data_len(m), 0nat)] + last);
                assert(work.skip(1) =~= last);
            }
            if budget is Some {
                assert(last =~= seq![(0nat, budget->0.held())]);
                assert(last.skip(1) =~= Seq::empty());
            } else {
                assert(last =~= Seq::empty());
            }
        },
        _ => {
            assert forall|i: int| 0 <= i < work.len() implies (#[trigger] work[i]) == (
                0nat,
                0nat,
            ) by {
                assert(work[i] == client_action(actions[i]));
            }
            lemma_idle_work(work);
        },
    }
}

/// Data that moves on stays covered, and what is not held any more is given back.
proof fn lemma_moved(limit: nat, place: Place, how: Move)
    requires
        covered(limit, place),
        can_move(place, how),
    ensures
        ({
            let (after, given_back) = moved(place, how);
            &&& held(place) == given_back + match after {
                Some(p) => held(p),
                None => 0,
            }
            &&& after matches Some(p) ==> covered(limit, p)
        }),
{
    match (place, how) {
        (Place::ForRouter(message), Move::Routed { transport, router }) => {
            if let RouterMsgView::ForConn { id, message } = message {
                assert(router_step(transport, router, RouterMsgView::ForConn { id, message }).1
                    == Ok::<RouterActionView, RouterError>(
                    passed_on(router, id, message),
                ));
            }
        },
        (Place::ForConn(message), Move::Handled { transport, conn }) => {
            lemma_conn_handles(limit, transport, conn, message);
        },
        (Place::AtConn(actions), Move::Performed { transport, conn, io }) => {
            let more = if actions[0] is WritePeer {
                conn_step(transport, conn, ConnEvent::Written(io)).1
            } else {
                Seq::empty()
            };
            let work = conn_work(actions);
            lemma_less_work(limit, work);
            assert forall|i: int| 0 <= i < conn_work(more).len() implies (
            #[trigger] conn_work(more)[i]) == (0nat, 0nat) by {
                assert(conn_work(more)[i] == conn_action(more[i]));
            }
            lemma_more_idle_work(work.skip(1), conn_work(more));
            assert(conn_work(actions.skip(1) + more) =~= work.skip(1) + conn_work(more));
        },
        (Place::ForClient(message), Move::Answered { own, session }) => {
            lemma_client_handles(limit, own, session, message);
        },
        (Place::AtClient(actions), Move::Written) => {
            let work = client_work(actions);
            lemma_less_work(limit, work);
            assert(client_work(actions.skip(1)) =~= work.skip(1));
        },
        _ => {},
    }
}

proof fn lemma_held_elsewhere(places: Seq<Place>, at: int, place: Place)
    requires
        0 <= at < places.len(),
    ensures
        all_held(places) == all_held(places.remove(at)) + held(places[at]),
        all_held(places.update(at, place)) == all_held(places.remove(at)) + held(place),
    decreases places.len(),
{
    let earlier = places.drop_last();
    if at < places.len() - 1 {
        lemma_held_elsewhere(earlier, at, place);
        assert(places.remove(at).drop_last() =~= earlier.remove(at));
        assert(places.update(at, place).drop_last() =~= earlier.update(at, place));
    } else {
        assert(places.remove(at) =~= earlier);
        assert(places.update(at, place).drop_last() =~= earlier);
    }
}

/// What is reserved covers all data that has not left the agent yet, whatever happened to it
/// so far: for every chunk in the agent as much of the budget is held as it reserved when it
/// came in, until it was written or dropped. What is not held is free, so once nothing is in
/// the agent the whole budget is.
pub proof fn law_data_is_reserved_until_it_has_left(limit: nat, events: Seq<TransitEvent>)
    requires
        could_happen(limit, events),
    ensures
        ({
            let a = transit_run(limit, events);
            &&& a.free + all_held(a.places) == limit
            &&& forall|i: int| 0 <= i < a.places.len() ==> covered(limit, #[trigger] a.places[i])
            &&& a.places.len() == 0 ==> a.free == limit
        }),
    decreases events.len(),
{
    if events.len() > 0 {
        law_data_is_reserved_until_it_has_left(limit, events.drop_last());
        let a = transit_run(limit, events.drop_last());
        let end = transit_run(limit, events);
        match events.last() {
            TransitEvent::Moved { at, how } => {
                lemma_moved(limit, a.places[at], how);
                let after = moved(a.places[at], how).0;
                lemma_held_elsewhere(
                    a.places,
                    at,
                    match after {
                        Some(place) => place,
                        None => a.places[at],
                    },
                );
            },
            _ => {
                assert(end.places.drop_last() =~= a.places);
            },
        }
    }
}

proof fn lemma_covered_together(limit: nat, places: Seq<Place>)
    requires
        forall|i: int| 0 <= i < places.len() ==> covered(limit, #[trigger] places[i]),
    ensures
        total_reserved(limit, all_waiting(places)) <= all_held(places),
    decreases places.len(),
{
    if places.len() > 0 {
        let earlier = places.drop_last();
        assert forall|i: int| 0 <= i < earlier.len() implies covered(
            limit,
            #[trigger] earlier[i],
        ) by {
            assert(earlier[i] == places[i]);
        }
        lemma_covered_together(limit, earlier);
        assert(all_waiting(places).drop_last() =~= all_waiting(earlier));
        assert(covered(limit, places[places.len() - 1]));
    }
}

/// The data of one direction of a session that is in the agent is never more than its budget,
/// unless it is a single chunk that is larger than the whole budget.
pub proof fn law_data_in_the_agent_is_capped(limit: nat, events: Seq<TransitEvent>)
    requires
        0 < limit,
        could_happen(limit, events),
    ensures
        ({
            let sizes = all_waiting(transit_run(limit, events).places);
            total(sizes) <= limit || exists|i: int|
                0 <= i < sizes.len() && #[trigger] sizes[i] > limit && forall|j: int|
                    0 <= j < sizes.len() && j != i ==> #[trigger] sizes[j] == 0
        }),
{
    law_data_is_reserved_until_it_has_left(limit, events);
    let places = transit_run(limit, events).places;
    lemma_covered_together(limit, places);
    lemma_bytes_are_capped(limit, all_waiting(places));
}

} // verus!
