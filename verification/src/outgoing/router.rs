//! One router per client and transport.
//!
//! Owns the table of the client's connections and nothing else: client requests are
//! forwarded to the right connection, and the table is kept in sync through the ends of
//! the connection actors.
//!
//! Also enforces the ordering contract of the legacy `Connect` request (answers must
//! arrive in request order), by dialing legacy requests one at a time. A connection that
//! ends before it reports its dial gives up its turn. `ConnectV2` requests carry a UID, so
//! they are dialed concurrently.

use crate::budget::BudgetPermit;
use crate::chunk::chunk;
use crate::outgoing::conn::{failure_log, ConnMsg, ConnMsgView};
use crate::outgoing::{message_of, transport_name, DaemonEvent, OutgoingFlavor, Transport};
use crate::protocol::{
    ConnectionId, DaemonMessage, DaemonMessageView, DaemonOutgoingView, LogLevel, LogMessage,
    SocketAddress, Uid,
};
use crate::text::{decimal, law_numbers_have_their_own_text, numbered};
use bytes::Bytes;
use std::collections::{HashMap, VecDeque};
use std::marker::PhantomData;
use vstd::prelude::*;

verus! {

broadcast use vstd::std_specs::hash::group_hash_axioms;

/// Identifies a client connected to this agent.
pub type ClientId = u32;

/// Identifies a running actor; no two actors ever have the same.
pub type ActorId = u64;

/// What a router is told.
#[derive(Debug, PartialEq, Eq)]
pub enum RouterMsg {
    /// The client wants a new outgoing connection.
    Connect {
        /// `None` marks a legacy request, which is subject to FIFO ordering.
        request_uid: Option<Uid>,
        address: SocketAddress,
    },
    /// Client data for an established connection, with what it reserved.
    Write { id: ConnectionId, bytes: Bytes, budget: BudgetPermit },
    /// The client shut down its write direction for this connection.
    ShutdownWrite { id: ConnectionId },
    /// The client closed this connection.
    Close { id: ConnectionId },
    /// A connection finished its dial attempt.
    ConnectFinished { id: ConnectionId, request_uid: Option<Uid>, connected: bool },
}

pub enum RouterMsgView {
    Connect { request_uid: Option<Uid>, address: SocketAddress },
    /// A message for an established connection.
    ForConn { id: ConnectionId, message: ConnMsgView },
    ConnectFinished { id: ConnectionId, request_uid: Option<Uid>, connected: bool },
}

impl View for RouterMsg {
    type V = RouterMsgView;

    open spec fn view(&self) -> RouterMsgView {
        match self {
            RouterMsg::Connect { request_uid, address } => RouterMsgView::Connect {
                request_uid: *request_uid,
                address: *address,
            },
            RouterMsg::Write { id, bytes, budget } => RouterMsgView::ForConn {
                id: *id,
                message: ConnMsgView::Write(chunk(*bytes), *budget),
            },
            RouterMsg::ShutdownWrite { id } => RouterMsgView::ForConn {
                id: *id,
                message: ConnMsgView::ShutdownWrite,
            },
            RouterMsg::Close { id } => RouterMsgView::ForConn {
                id: *id,
                message: ConnMsgView::Close,
            },
            RouterMsg::ConnectFinished { id, request_uid, connected } =>
                RouterMsgView::ConnectFinished {
                id: *id,
                request_uid: *request_uid,
                connected: *connected,
            },
        }
    }
}

pub struct RouterState {
    pub client_id: ClientId,
    pub next_conn_id: ConnectionId,
    /// The actor of each live connection.
    pub conns: HashMap<ConnectionId, ActorId>,
    /// Maps actors, which is all that their ends speak of, back to connection IDs.
    pub conn_ids: HashMap<ActorId, ConnectionId>,
    /// Legacy connect requests waiting for their turn.
    pub queued_legacy: VecDeque<SocketAddress>,
    /// The connection whose legacy dial is in flight, if there is one. At most one runs at a
    /// time, which is what keeps legacy answers in request order.
    pub legacy_in_flight: Option<ConnectionId>,
}

#[verifier::ext_equal]
pub struct RouterView {
    pub client_id: ClientId,
    pub next_conn_id: ConnectionId,
    pub conns: Map<ConnectionId, ActorId>,
    pub conn_ids: Map<ActorId, ConnectionId>,
    pub queued_legacy: Seq<SocketAddress>,
    pub legacy_in_flight: Option<ConnectionId>,
}

impl View for RouterState {
    type V = RouterView;

    open spec fn view(&self) -> RouterView {
        RouterView {
            client_id: self.client_id,
            next_conn_id: self.next_conn_id,
            conns: self.conns@,
            conn_ids: self.conn_ids@,
            queued_legacy: self.queued_legacy@,
            legacy_in_flight: self.legacy_in_flight,
        }
    }
}

/// What a router wants done.
#[derive(Debug, PartialEq, Eq)]
pub enum RouterAction {
    Nothing,
    /// Spawn a connection actor under `name` and add it to the process group `group`.
    Spawn {
        name: String,
        group: String,
        id: ConnectionId,
        request_uid: Option<Uid>,
        address: SocketAddress,
    },
    /// Pass a message on to a connection.
    Forward { actor: ActorId, message: ConnMsg },
    /// Give a reservation back to its budget.
    Release(BudgetPermit),
}

pub enum RouterActionView {
    Nothing,
    Spawn {
        name: Seq<char>,
        group: Seq<char>,
        id: ConnectionId,
        request_uid: Option<Uid>,
        address: SocketAddress,
    },
    Forward { actor: ActorId, message: ConnMsgView },
    Release(BudgetPermit),
}

impl View for RouterAction {
    type V = RouterActionView;

    open spec fn view(&self) -> RouterActionView {
        match self {
            RouterAction::Nothing => RouterActionView::Nothing,
            RouterAction::Spawn { name, group, id, request_uid, address } =>
                RouterActionView::Spawn {
                name: name@,
                group: group@,
                id: *id,
                request_uid: *request_uid,
                address: *address,
            },
            RouterAction::Forward { actor, message } => RouterActionView::Forward {
                actor: *actor,
                message: message@,
            },
            RouterAction::Release(budget) => RouterActionView::Release(*budget),
        }
    }
}

/// Why a router fails.
#[derive(Debug, Clone, Copy, PartialEq, Eq)]
pub enum RouterError {
    /// There is no connection ID left to give.
    ExhaustedConnectionIds,
}

impl RouterError {
    pub fn message(self) -> (r: &'static str)
        ensures
            r@ == "exhausted u64 connection IDs"@,
    {
        "exhausted u64 connection IDs"
    }
}

/// What follows from the end of an actor.
#[derive(Debug, PartialEq, Eq)]
pub struct AfterEnd {
    /// What the client is told.
    pub messages: Vec<DaemonMessage>,
    /// What is to be done once the client is told.
    pub next: Result<RouterAction, RouterError>,
}

/// The end of an actor.
#[derive(Debug, PartialEq, Eq)]
pub enum ActorEnd {
    /// The actor stopped.
    Terminated(ActorId),
    /// The actor failed, with an error of this text.
    Failed(ActorId, String),
    /// Anything else that is told of actors.
    Other,
}

/// The name of the process group that all connections of a transport join.
pub open spec fn group_name(transport: Transport) -> Seq<char> {
    transport_name(transport) + "-conns"@
}

/// The name of a connection actor.
pub open spec fn conn_name(client: ClientId, transport: Transport, id: ConnectionId) -> Seq<char> {
    "client-"@ + decimal(client as nat) + "."@ + transport_name(transport) + ".conn-"@ + decimal(
        id as nat,
    )
}

/// A new connection: it gets the next ID, and there has to be one left after it.
pub open spec fn spawn_step(
    transport: Transport,
    s: RouterView,
    request_uid: Option<Uid>,
    address: SocketAddress,
) -> (RouterView, Result<RouterActionView, RouterError>) {
    if s.next_conn_id == u64::MAX {
        (s, Err(RouterError::ExhaustedConnectionIds))
    } else {
        (
            RouterView { next_conn_id: (s.next_conn_id + 1) as u64, ..s },
            Ok(
                RouterActionView::Spawn {
                    name: conn_name(s.client_id, transport, s.next_conn_id),
                    group: group_name(transport),
                    id: s.next_conn_id,
                    request_uid,
                    address,
                },
            ),
        )
    }
}

/// A new connection for a legacy request, whose dial is then in flight.
pub open spec fn legacy_dial_step(
    transport: Transport,
    s: RouterView,
    address: SocketAddress,
) -> (RouterView, Result<RouterActionView, RouterError>) {
    let (after, result) = spawn_step(transport, s, None, address);
    (
        RouterView {
            legacy_in_flight: if result is Ok {
                Some(s.next_conn_id)
            } else {
                None
            },
            ..after
        },
        result,
    )
}

/// The end of the legacy dial in flight: the first of the queued addresses gets its turn, if
/// there is one.
pub open spec fn legacy_turn(transport: Transport, s: RouterView) -> (
    RouterView,
    Result<RouterActionView, RouterError>,
) {
    if s.queued_legacy.len() == 0 {
        (RouterView { legacy_in_flight: None, ..s }, Ok(RouterActionView::Nothing))
    } else {
        legacy_dial_step(
            transport,
            RouterView { queued_legacy: s.queued_legacy.skip(1), ..s },
            s.queued_legacy[0],
        )
    }
}

/// What a router does on a message, and the state that it is in afterwards.
pub open spec fn router_step(transport: Transport, s: RouterView, message: RouterMsgView) -> (
    RouterView,
    Result<RouterActionView, RouterError>,
) {
    match message {
        RouterMsgView::Connect { request_uid: Some(uid), address } => spawn_step(
            transport,
            s,
            Some(uid),
            address,
        ),
        RouterMsgView::Connect { request_uid: None, address } => if s.legacy_in_flight is Some {
            (
                RouterView { queued_legacy: s.queued_legacy.push(address), ..s },
                Ok(RouterActionView::Nothing),
            )
        } else {
            legacy_dial_step(transport, s, address)
        },
        RouterMsgView::ConnectFinished { id, request_uid, .. } => if request_uid is None
            && s.legacy_in_flight == Some(id) {
            legacy_turn(transport, s)
        } else {
            (s, Ok(RouterActionView::Nothing))
        },
        RouterMsgView::ForConn { id, message } => (s, Ok(passed_on(s, id, message))),
    }
}

/// A message for a connection goes to it, data with what it reserved. If the connection is
/// not known, the message is dropped and what it reserved is given back.
pub open spec fn passed_on(
    s: RouterView,
    id: ConnectionId,
    message: ConnMsgView,
) -> RouterActionView {
    if s.conns.contains_key(id) {
        RouterActionView::Forward { actor: s.conns[id], message }
    } else {
        match message {
            ConnMsgView::Write(_, budget) => RouterActionView::Release(budget),
            _ => RouterActionView::Nothing,
        }
    }
}

/// The state of a router after the connection `id` was spawned as `actor`.
pub open spec fn router_spawned(s: RouterView, id: ConnectionId, actor: ActorId) -> RouterView {
    RouterView {
        conns: s.conns.insert(id, actor),
        conn_ids: s.conn_ids.insert(actor, id),
        ..s
    }
}

/// The tables of a router after an actor ended: its connection is forgotten.
pub open spec fn router_forgot(s: RouterView, actor: ActorId) -> RouterView {
    RouterView {
        conns: s.conns.remove(s.conn_ids[actor]),
        conn_ids: s.conn_ids.remove(actor),
        ..s
    }
}

/// What a router does when an actor ended, and the state that it is in afterwards. If the
/// actor ended before it reported the legacy dial in flight, that dial is over too.
pub open spec fn router_ended(transport: Transport, s: RouterView, actor: ActorId) -> (
    RouterView,
    Result<RouterActionView, RouterError>,
) {
    if !s.conn_ids.contains_key(actor) {
        (s, Ok(RouterActionView::Nothing))
    } else if s.legacy_in_flight == Some(s.conn_ids[actor]) {
        legacy_turn(transport, router_forgot(s, actor))
    } else {
        (router_forgot(s, actor), Ok(RouterActionView::Nothing))
    }
}

/// The messages that a list of agent messages says.
pub open spec fn messages_view(messages: Seq<DaemonMessage>) -> Seq<DaemonMessageView> {
    messages.map_values(|m: DaemonMessage| m@)
}

/// The actor that routes one transport of one client.
pub struct OutgoingRouterActor<F>(pub PhantomData<F>);

impl<F: OutgoingFlavor> OutgoingRouterActor<F> {
    /// Process group that all connection actors of this flavor join, such as
    /// `tcp-out-conns`.
    pub fn conns_group() -> (r: String)
        ensures
            r@ == group_name(F::transport()),
    {
        let mut group = F::name().to_owned();
        group.append("-conns");
        group
    }

    fn spawn_conn(
        state: &mut RouterState,
        request_uid: Option<Uid>,
        address: SocketAddress,
    ) -> (r: Result<RouterAction, RouterError>)
        ensures
            final(state)@ == spawn_step(F::transport(), old(state)@, request_uid, address).0,
            router_result(r) == spawn_step(F::transport(), old(state)@, request_uid, address).1,
    {
        let id: ConnectionId = state.next_conn_id;
        state.next_conn_id = match id.checked_add(1) {
            Some(next) => next,
            None => {
                return Err(RouterError::ExhaustedConnectionIds);
            },
        };
        let mut name = numbered("client-", state.client_id as u128, ".");
        name.append(F::name());
        let name = numbered_after(name, ".conn-", id);
        Ok(RouterAction::Spawn { name, group: Self::conns_group(), id, request_uid, address })
    }

    fn dial_legacy(state: &mut RouterState, address: SocketAddress) -> (r: Result<
        RouterAction,
        RouterError,
    >)
        ensures
            final(state)@ == legacy_dial_step(F::transport(), old(state)@, address).0,
            router_result(r) == legacy_dial_step(F::transport(), old(state)@, address).1,
    {
        let id: ConnectionId = state.next_conn_id;
        let spawned = Self::spawn_conn(state, None, address);
        state.legacy_in_flight = if spawned.is_ok() {
            Some(id)
        } else {
            None
        };
        spawned
    }

    fn next_legacy(state: &mut RouterState) -> (r: Result<RouterAction, RouterError>)
        ensures
            final(state)@ == legacy_turn(F::transport(), old(state)@).0,
            router_result(r) == legacy_turn(F::transport(), old(state)@).1,
    {
        match state.queued_legacy.pop_front() {
            Some(address) => {
                assert(state@.queued_legacy =~= old(state)@.queued_legacy.skip(1));
                Self::dial_legacy(state, address)
            },
            None => {
                state.legacy_in_flight = None;
                Ok(RouterAction::Nothing)
            },
        }
    }

    fn is_in_flight(state: &RouterState, id: ConnectionId) -> (r: bool)
        ensures
            r == (state@.legacy_in_flight == Some(id)),
    {
        match state.legacy_in_flight {
            Some(dialed) => dialed == id,
            None => false,
        }
    }

    pub fn pre_start(client_id: ClientId) -> (r: RouterState)
        ensures
            r@ == router_start(client_id),
    {
        RouterState {
            client_id,
            next_conn_id: 0,
            conns: HashMap::new(),
            conn_ids: HashMap::new(),
            queued_legacy: VecDeque::new(),
            legacy_in_flight: None,
        }
    }

    pub fn handle(state: &mut RouterState, message: RouterMsg) -> (r: Result<
        RouterAction,
        RouterError,
    >)
        ensures
            final(state)@ == router_step(F::transport(), old(state)@, message@).0,
            router_result(r) == router_step(F::transport(), old(state)@, message@).1,
    {
        match message {
            RouterMsg::Connect { request_uid: Some(uid), address } => Self::spawn_conn(
                state,
                Some(uid),
                address,
            ),
            RouterMsg::Connect { request_uid: None, address } => {
                if state.legacy_in_flight.is_some() {
                    state.queued_legacy.push_back(address);
                    Ok(RouterAction::Nothing)
                } else {
                    Self::dial_legacy(state, address)
                }
            },
            // A connection may end before its report is read. Its turn has passed by then.
            RouterMsg::ConnectFinished { id, request_uid, connected: _ } => {
                if request_uid.is_none() && Self::is_in_flight(state, id) {
                    Self::next_legacy(state)
                } else {
                    Ok(RouterAction::Nothing)
                }
            },
            // Data and closes for an unknown ID are dropped: teardown legitimately races
            // with in-flight client messages.
            RouterMsg::Write { id, bytes, budget } => Ok(
                Self::forward(state, id, ConnMsg::Write { bytes, budget }),
            ),
            RouterMsg::ShutdownWrite { id } => Ok(
                Self::forward(state, id, ConnMsg::ShutdownWrite),
            ),
            RouterMsg::Close { id } => Ok(Self::forward(state, id, ConnMsg::Close)),
        }
    }

    fn forward(state: &RouterState, id: ConnectionId, message: ConnMsg) -> (r: RouterAction)
        ensures
            r@ == passed_on(state@, id, message@),
    {
        match state.conns.get(&id) {
            Some(actor) => RouterAction::Forward { actor: *actor, message },
            None => match message {
                ConnMsg::Write { bytes: _, budget } => RouterAction::Release(budget),
                _ => RouterAction::Nothing,
            },
        }
    }

    /// Takes note of the actor that a connection was spawned as.
    pub fn spawned(state: &mut RouterState, id: ConnectionId, actor: ActorId)
        ensures
            final(state)@ == router_spawned(old(state)@, id, actor),
    {
        state.conn_ids.insert(actor, id);
        state.conns.insert(id, actor);
    }

    /// Forgets the connection of an actor that ended, and dials the next legacy address if
    /// it was this connection's turn. Tells its ID, if the actor was one of a connection.
    fn forget(state: &mut RouterState, actor: ActorId) -> (r: (
        Option<ConnectionId>,
        Result<RouterAction, RouterError>,
    ))
        ensures
            final(state)@ == router_ended(F::transport(), old(state)@, actor).0,
            router_result(r.1) == router_ended(F::transport(), old(state)@, actor).1,
            r.0 == if old(state)@.conn_ids.contains_key(actor) {
                Some(old(state)@.conn_ids[actor])
            } else {
                None
            },
    {
        match state.conn_ids.remove(&actor) {
            Some(id) => {
                state.conns.remove(&id);
                assert(state@ =~= router_forgot(old(state)@, actor));
                let next = if Self::is_in_flight(state, id) {
                    Self::next_legacy(state)
                } else {
                    Ok(RouterAction::Nothing)
                };
                (Some(id), next)
            },
            None => {
                assert(state@ =~= old(state)@);
                (None, Ok(RouterAction::Nothing))
            },
        }
    }

    /// Forgets a connection whose actor ended, and gives its turn to the next legacy address
    /// if its dial was in flight. The connection tells the client of its end itself, so a
    /// failure means that it died without saying goodbye and the client must be told to
    /// forget it.
    pub fn handle_supervisor_evt(state: &mut RouterState, event: ActorEnd) -> (r: AfterEnd)
        ensures
            match event {
                ActorEnd::Terminated(actor) => (final(state)@, router_result(r.next))
                    == router_ended(F::transport(), old(state)@, actor) && r.messages@.len() == 0,
                ActorEnd::Failed(actor, error) => (final(state)@, router_result(r.next))
                    == router_ended(F::transport(), old(state)@, actor) && messages_view(
                    r.messages@,
                ) == goodbye(F::transport(), old(state)@, actor, error@),
                ActorEnd::Other => final(state)@ == old(state)@ && router_result(r.next) == Ok::<
                    RouterActionView,
                    RouterError,
                >(RouterActionView::Nothing) && r.messages@.len() == 0,
            },
    {
        let mut messages: Vec<DaemonMessage> = Vec::new();
        assert(messages_view(messages@) =~= Seq::empty());
        let next = match event {
            ActorEnd::Terminated(actor) => Self::forget(state, actor).1,
            ActorEnd::Failed(actor, error) => {
                let (forgotten, next) = Self::forget(state, actor);
                if let Some(id) = forgotten {
                    let mut text = numbered("outgoing connection ", id as u128, " failed: ");
                    text.append(error.as_str());
                    text.append(" (");
                    text.append(F::name());
                    text.append(")");
                    messages.push(DaemonMessage::LogMessage(LogMessage::warn(text)));
                    messages.push(F::daemon_message(DaemonEvent::Close(id)));
                    assert(messages_view(messages@) =~= goodbye(
                        F::transport(),
                        old(state)@,
                        actor,
                        error@,
                    ));
                }
                next
            },
            ActorEnd::Other => Ok(RouterAction::Nothing),
        };
        AfterEnd { messages, next }
    }
}

/// What the client is told of a connection actor that failed.
pub open spec fn goodbye(
    transport: Transport,
    s: RouterView,
    actor: ActorId,
    error: Seq<char>,
) -> Seq<DaemonMessageView> {
    if s.conn_ids.contains_key(actor) {
        let id = s.conn_ids[actor];
        seq![
            DaemonMessageView::LogMessage(LogLevel::Warn, failure_log(transport, id, error)),
            message_of(transport, DaemonOutgoingView::Close(id)),
        ]
    } else {
        Seq::empty()
    }
}

/// A router that has not been told anything yet.
pub open spec fn router_start(client_id: ClientId) -> RouterView {
    RouterView {
        client_id,
        next_conn_id: 0,
        conns: Map::empty(),
        conn_ids: Map::empty(),
        queued_legacy: Seq::empty(),
        legacy_in_flight: None,
    }
}

/// The outcome of a router's step, as specifications speak of it.
pub open spec fn router_result(r: Result<RouterAction, RouterError>) -> Result<
    RouterActionView,
    RouterError,
> {
    match r {
        Ok(action) => Ok(action@),
        Err(e) => Err(e),
    }
}

fn numbered_after(start: String, middle: &str, n: u64) -> (r: String)
    ensures
        r@ == start@ + middle@ + decimal(n as nat),
{
    let tail = numbered(middle, n as u128, "");
    let mut out = start;
    out.append(tail.as_str());
    proof {
        reveal_strlit("");
        assert(out@ =~= start@ + middle@ + decimal(n as nat));
    }
    out
}

// ---------------------------------------------------------------------------------
// Laws
// ---------------------------------------------------------------------------------

/// What happens to a router, in the order in which it happens.
pub enum RouterEvent {
    Message(RouterMsgView),
    Spawned(ConnectionId, ActorId),
    Ended(ActorId),
}

/// What a router does on an event, and the state that it is in afterwards.
pub open spec fn router_event(transport: Transport, s: RouterView, event: RouterEvent) -> (
    RouterView,
    Result<RouterActionView, RouterError>,
) {
    match event {
        RouterEvent::Message(message) => router_step(transport, s, message),
        RouterEvent::Spawned(id, actor) => (
            router_spawned(s, id, actor),
            Ok(RouterActionView::Nothing),
        ),
        RouterEvent::Ended(actor) => router_ended(transport, s, actor),
    }
}

/// The state of a router after some events, and what it wanted done on its way.
pub open spec fn router_run(transport: Transport, client: ClientId, events: Seq<RouterEvent>) -> (
    RouterView,
    Seq<RouterActionView>,
)
    decreases events.len(),
{
    if events.len() == 0 {
        (router_start(client), Seq::empty())
    } else {
        let (s, actions) = router_run(transport, client, events.drop_last());
        match router_event(transport, s, events.last()) {
            (after, Ok(action)) => (after, actions.push(action)),
            (after, Err(_)) => (after, actions),
        }
    }
}

/// Whether a router failed on one of some events. It handles no event after that.
pub open spec fn router_failed(
    transport: Transport,
    client: ClientId,
    events: Seq<RouterEvent>,
) -> bool
    decreases events.len(),
{
    events.len() > 0 && (router_failed(transport, client, events.drop_last()) || router_event(
        transport,
        router_run(transport, client, events.drop_last()).0,
        events.last(),
    ).1 is Err)
}

/// The addresses of the legacy requests among the events, in order.
pub open spec fn legacy_requests(events: Seq<RouterEvent>) -> Seq<SocketAddress>
    decreases events.len(),
{
    if events.len() == 0 {
        Seq::empty()
    } else {
        let before = legacy_requests(events.drop_last());
        match events.last() {
            RouterEvent::Message(RouterMsgView::Connect { request_uid: None, address }) =>
                before.push(address),
            _ => before,
        }
    }
}

/// The addresses dialed for legacy requests, in order.
pub open spec fn legacy_dials(actions: Seq<RouterActionView>) -> Seq<SocketAddress>
    decreases actions.len(),
{
    if actions.len() == 0 {
        Seq::empty()
    } else {
        let before = legacy_dials(actions.drop_last());
        match actions.last() {
            RouterActionView::Spawn { request_uid: None, address, .. } => before.push(address),
            _ => before,
        }
    }
}

/// The number of connections spawned.
pub open spec fn spawns(actions: Seq<RouterActionView>) -> nat
    decreases actions.len(),
{
    if actions.len() == 0 {
        0
    } else {
        spawns(actions.drop_last()) + if actions.last() is Spawn {
            1nat
        } else {
            0
        }
    }
}

proof fn lemma_ids_are_counted(transport: Transport, client: ClientId, events: Seq<RouterEvent>)
    ensures
        router_run(transport, client, events).0.next_conn_id == spawns(
            router_run(transport, client, events).1,
        ),
        router_run(transport, client, events).0.next_conn_id <= events.len(),
    decreases events.len(),
{
    if events.len() > 0 {
        lemma_ids_are_counted(transport, client, events.drop_last());
        let (s, actions) = router_run(transport, client, events.drop_last());
        let all = router_run(transport, client, events).1;
        if all.len() > actions.len() {
            assert(all.drop_last() =~= actions);
        }
    }
}

/// Legacy requests are dialed in the order in which they came, each once, however dials end:
/// what was dialed, followed by what still waits, is what was requested. Nothing waits unless
/// a dial is in flight.
pub proof fn law_legacy_requests_are_dialed_in_order(
    transport: Transport,
    client: ClientId,
    events: Seq<RouterEvent>,
)
    requires
        !router_failed(transport, client, events),
    ensures
        ({
            let (s, actions) = router_run(transport, client, events);
            &&& legacy_dials(actions) + s.queued_legacy == legacy_requests(events)
            &&& s.queued_legacy.len() > 0 ==> s.legacy_in_flight is Some
        }),
    decreases events.len(),
{
    if events.len() > 0 {
        law_legacy_requests_are_dialed_in_order(transport, client, events.drop_last());
        let (s, actions) = router_run(transport, client, events.drop_last());
        let (end, all) = router_run(transport, client, events);
        assert(all.drop_last() =~= actions);
        assert(legacy_dials(all) + end.queued_legacy =~= legacy_requests(events));
    }
}

/// A router fails only when it has no connection ID left to give, which takes more events
/// than there are IDs.
pub proof fn law_a_router_fails_for_want_of_ids(
    transport: Transport,
    client: ClientId,
    events: Seq<RouterEvent>,
)
    requires
        router_failed(transport, client, events),
    ensures
        events.len() > u64::MAX,
    decreases events.len(),
{
    if router_failed(transport, client, events.drop_last()) {
        law_a_router_fails_for_want_of_ids(transport, client, events.drop_last());
    } else {
        lemma_ids_are_counted(transport, client, events.drop_last());
    }
}

/// The connections whose legacy dial was started and is not over: the connection did not
/// report it, and its actor did not end.
pub open spec fn unfinished_legacy(
    transport: Transport,
    client: ClientId,
    events: Seq<RouterEvent>,
) -> Set<ConnectionId>
    decreases events.len(),
{
    if events.len() == 0 {
        Set::empty()
    } else {
        let s = router_run(transport, client, events.drop_last()).0;
        let before = unfinished_legacy(transport, client, events.drop_last());
        let left = match events.last() {
            RouterEvent::Message(
                RouterMsgView::ConnectFinished { id, request_uid: None, .. },
            ) => before.remove(id),
            RouterEvent::Ended(actor) => if s.conn_ids.contains_key(actor) {
                before.remove(s.conn_ids[actor])
            } else {
                before
            },
            _ => before,
        };
        match router_event(transport, s, events.last()).1 {
            Ok(RouterActionView::Spawn { id, request_uid: None, .. }) => left.insert(id),
            _ => left,
        }
    }
}

/// At most one legacy dial is unfinished at any time, and the router knows which: the one in
/// flight. A dial is over when its connection reports it, or ends without a report.
pub proof fn law_one_legacy_dial_at_a_time(
    transport: Transport,
    client: ClientId,
    events: Seq<RouterEvent>,
)
    ensures
        unfinished_legacy(transport, client, events) == match router_run(
            transport,
            client,
            events,
        ).0.legacy_in_flight {
            Some(id) => set![id],
            None => Set::<ConnectionId>::empty(),
        },
    decreases events.len(),
{
    if events.len() > 0 {
        law_one_legacy_dial_at_a_time(transport, client, events.drop_last());
        let expected = match router_run(transport, client, events).0.legacy_in_flight {
            Some(id) => set![id],
            None => Set::<ConnectionId>::empty(),
        };
        assert(unfinished_legacy(transport, client, events) =~= expected);
    }
}

/// When a connection ends whose legacy dial is in flight, the first of the queued addresses
/// is dialed, if there is one; if there is none, no dial is in flight any more. A report of
/// that connection that is read later changes nothing.
pub proof fn law_a_dead_legacy_dial_is_over(
    transport: Transport,
    s: RouterView,
    actor: ActorId,
    connected: bool,
)
    requires
        s.conn_ids.contains_key(actor),
        s.legacy_in_flight == Some(s.conn_ids[actor]),
        s.conn_ids[actor] < s.next_conn_id < u64::MAX,
    ensures
        ({
            let id = s.conn_ids[actor];
            let (after, result) = router_ended(transport, s, actor);
            let report = RouterMsgView::ConnectFinished { id, request_uid: None, connected };
            &&& s.queued_legacy.len() == 0 ==> after.legacy_in_flight is None
                && after.queued_legacy == s.queued_legacy && result == Ok::<
                RouterActionView,
                RouterError,
            >(RouterActionView::Nothing)
            &&& s.queued_legacy.len() > 0 ==> after.legacy_in_flight == Some(s.next_conn_id)
                && after.queued_legacy == s.queued_legacy.skip(1) && (result matches Ok(
                RouterActionView::Spawn { id: dialed, request_uid: None, address, .. },
            ) && dialed == s.next_conn_id && address == s.queued_legacy[0])
            &&& router_step(transport, after, report) == (
                after,
                Ok::<RouterActionView, RouterError>(RouterActionView::Nothing),
            )
        }),
{
}

/// Every connection gets the number of connections before it as its ID, from zero.
proof fn lemma_ids_count_up(
    transport: Transport,
    client: ClientId,
    events: Seq<RouterEvent>,
    i: int,
)
    requires
        0 <= i < router_run(transport, client, events).1.len(),
        router_run(transport, client, events).1[i] is Spawn,
    ensures
        router_run(transport, client, events).1[i]->id == spawns(
            router_run(transport, client, events).1.take(i),
        ),
    decreases events.len(),
{
    lemma_ids_are_counted(transport, client, events.drop_last());
    let (s, actions) = router_run(transport, client, events.drop_last());
    let all = router_run(transport, client, events).1;
    if i < actions.len() {
        lemma_ids_count_up(transport, client, events.drop_last(), i);
        assert(all.take(i) =~= actions.take(i));
    } else {
        assert(all.take(i) =~= actions);
    }
}

proof fn lemma_spawns_grow(actions: Seq<RouterActionView>, i: int, j: int)
    requires
        0 <= i < j <= actions.len(),
        actions[i] is Spawn,
    ensures
        spawns(actions.take(i)) < spawns(actions.take(j)),
    decreases j,
{
    assert(actions.take(j).drop_last() =~= actions.take(j - 1));
    if i < j - 1 {
        lemma_spawns_grow(actions, i, j - 1);
    }
}

/// No two connections get the same ID: the first gets 0, and every later one a greater ID
/// than those before.
pub proof fn law_connection_ids_are_unique(
    transport: Transport,
    client: ClientId,
    events: Seq<RouterEvent>,
    i: int,
    j: int,
)
    requires
        0 <= i < j < router_run(transport, client, events).1.len(),
        router_run(transport, client, events).1[i] is Spawn,
        router_run(transport, client, events).1[j] is Spawn,
    ensures
        router_run(transport, client, events).1[i]->id == spawns(
            router_run(transport, client, events).1.take(i),
        ),
        router_run(transport, client, events).1[i]->id < router_run(
            transport,
            client,
            events,
        ).1[j]->id,
{
    lemma_ids_count_up(transport, client, events, i);
    lemma_ids_count_up(transport, client, events, j);
    lemma_spawns_grow(router_run(transport, client, events).1, i, j);
}

/// Whether the two tables of a router mirror each other and hold no ID that was not given
/// out yet.
pub open spec fn tables_agree(s: RouterView) -> bool {
    &&& forall|id: ConnectionId| #[trigger]
        s.conns.contains_key(id) ==> s.conn_ids.contains_key(s.conns[id]) && s.conn_ids[s.conns[id]]
            == id && id < s.next_conn_id
    &&& forall|actor: ActorId| #[trigger]
        s.conn_ids.contains_key(actor) ==> s.conns.contains_key(s.conn_ids[actor])
            && s.conns[s.conn_ids[actor]] == actor
}

/// The two tables of a router always mirror each other: on the start, on every message,
/// when a connection that was just given its ID is spawned as a new actor, and when any
/// actor ends. After its actor ended, a connection is unknown.
pub proof fn law_tables_agree(transport: Transport, client: ClientId, s: RouterView)
    requires
        tables_agree(s),
    ensures
        tables_agree(router_start(client)),
        forall|message: RouterMsgView|
            tables_agree((#[trigger] router_step(transport, s, message)).0),
        forall|id: ConnectionId, actor: ActorId|
            id < s.next_conn_id && !s.conns.contains_key(id) && !s.conn_ids.contains_key(actor)
                ==> tables_agree(#[trigger] router_spawned(s, id, actor)),
        forall|actor: ActorId| tables_agree((#[trigger] router_ended(transport, s, actor)).0),
        forall|id: ConnectionId|
            #![trigger s.conns.contains_key(id)]
            s.conns.contains_key(id) ==> !router_ended(
                transport,
                s,
                s.conns[id],
            ).0.conns.contains_key(id),
{
    assert forall|message: RouterMsgView| tables_agree(
        (#[trigger] router_step(transport, s, message)).0,
    ) by {
        let after = router_step(transport, s, message).0;
        assert(after.conns == s.conns && after.conn_ids == s.conn_ids);
        assert(after.next_conn_id >= s.next_conn_id);
    }
}

/// Whatever else is under way, a message for a connection that is in the table goes to the
/// actor that the table holds for it, as it is; a message for any other goes nowhere, and
/// what it reserved is given back. Neither changes the router.
pub proof fn law_messages_reach_their_connection(
    transport: Transport,
    s: RouterView,
    id: ConnectionId,
    message: ConnMsgView,
)
    ensures
        ({
            let (after, result) = router_step(
                transport,
                s,
                RouterMsgView::ForConn { id, message },
            );
            &&& after == s
            &&& result is Ok
            &&& s.conns.contains_key(id) ==> result->Ok_0 == (RouterActionView::Forward {
                actor: s.conns[id],
                message,
            })
            &&& !s.conns.contains_key(id) ==> !(result->Ok_0 is Forward) && !(result->Ok_0
                is Spawn)
            &&& !s.conns.contains_key(id) ==> (message matches ConnMsgView::Write(_, budget)
                ==> result->Ok_0 == RouterActionView::Release(budget))
        }),
{
}

/// Whether each connection is spawned once, as an actor of its own.
pub open spec fn spawned_once(events: Seq<RouterEvent>) -> bool {
    forall|i: int, j: int|
        0 <= i < j < events.len() && (#[trigger] events[i]) is Spawned && (#[trigger] events[j])
            is Spawned ==> events[i]->Spawned_0 != events[j]->Spawned_0 && events[i]->Spawned_1
            != events[j]->Spawned_1
}

proof fn lemma_known_actors_were_spawned(
    transport: Transport,
    client: ClientId,
    events: Seq<RouterEvent>,
    actor: ActorId,
)
    requires
        router_run(transport, client, events).0.conn_ids.contains_key(actor),
    ensures
        exists|i: int|
            0 <= i < events.len() && (#[trigger] events[i]) == RouterEvent::Spawned(
                router_run(transport, client, events).0.conn_ids[actor],
                actor,
            ),
    decreases events.len(),
{
    if events.len() > 0 {
        let s = router_run(transport, client, events.drop_last()).0;
        let id = router_run(transport, client, events).0.conn_ids[actor];
        if events.last() == RouterEvent::Spawned(id, actor) {
            assert(events[events.len() - 1] == RouterEvent::Spawned(id, actor));
        } else {
            assert(s.conn_ids.contains_key(actor) && s.conn_ids[actor] == id);
            lemma_known_actors_were_spawned(transport, client, events.drop_last(), actor);
            let i = choose|i: int|
                0 <= i < events.drop_last().len() && (#[trigger] events.drop_last()[i])
                    == RouterEvent::Spawned(id, actor);
            assert(events[i] == RouterEvent::Spawned(id, actor));
        }
    }
}

/// A connection is reached from its spawn until its actor ends, whatever happens to the
/// router and its other connections meanwhile: every message for it goes to its actor.
pub proof fn law_live_connections_are_reached(
    transport: Transport,
    client: ClientId,
    events: Seq<RouterEvent>,
    i: int,
    id: ConnectionId,
    actor: ActorId,
    message: ConnMsgView,
)
    requires
        spawned_once(events),
        0 <= i < events.len(),
        events[i] == RouterEvent::Spawned(id, actor),
        forall|j: int| i < j < events.len() ==> #[trigger] events[j] != RouterEvent::Ended(actor),
    ensures
        router_step(
            transport,
            router_run(transport, client, events).0,
            RouterMsgView::ForConn { id, message },
        ).1 == Ok::<RouterActionView, RouterError>(RouterActionView::Forward { actor, message }),
    decreases events.len(),
{
    let s = router_run(transport, client, events.drop_last()).0;
    let end = router_run(transport, client, events).0;
    if i < events.len() - 1 {
        let earlier = events.drop_last();
        assert forall|a: int, b: int|
            0 <= a < b < earlier.len() && (#[trigger] earlier[a]) is Spawned && (
            #[trigger] earlier[b]) is Spawned implies earlier[a]->Spawned_0
            != earlier[b]->Spawned_0 && earlier[a]->Spawned_1 != earlier[b]->Spawned_1 by {
            assert(earlier[a] == events[a] && earlier[b] == events[b]);
        }
        assert forall|j: int| i < j < earlier.len() implies #[trigger] earlier[j]
            != RouterEvent::Ended(actor) by {
            assert(earlier[j] == events[j]);
        }
        law_live_connections_are_reached(transport, client, earlier, i, id, actor, message);
        assert(s.conns.contains_key(id) && s.conns[id] == actor);
        let last = events[events.len() - 1];
        match last {
            RouterEvent::Spawned(other, _) => {
                assert(events[i] is Spawned && last is Spawned);
            },
            RouterEvent::Ended(other) => {
                if s.conn_ids.contains_key(other) && s.conn_ids[other] == id {
                    lemma_known_actors_were_spawned(transport, client, earlier, other);
                    let k = choose|k: int|
                        0 <= k < earlier.len() && (#[trigger] earlier[k]) == RouterEvent::Spawned(
                            id,
                            other,
                        );
                    assert(events[k] == earlier[k]);
                    assert(k == i) by {
                        if k < i {
                            assert(events[k] is Spawned && events[i] is Spawned);
                        } else if i < k {
                            assert(events[i] is Spawned && events[k] is Spawned);
                        }
                    }
                    assert(false);
                }
            },
            RouterEvent::Message(_) => {},
        }
        assert(end.conns.contains_key(id) && end.conns[id] == actor);
    }
}

/// A connect request with a UID is dialed at once, whatever else is under way: under the next
/// ID, with its UID, to its address. A legacy one is too, unless another one is in flight. No
/// dial touches the connections that are there.
pub proof fn law_connects_are_dialed(
    transport: Transport,
    s: RouterView,
    request_uid: Option<Uid>,
    address: SocketAddress,
)
    requires
        s.next_conn_id < u64::MAX,
    ensures
        ({
            let (after, result) = router_step(
                transport,
                s,
                RouterMsgView::Connect { request_uid, address },
            );
            &&& request_uid is Some || s.legacy_in_flight is None ==> {
                &&& result matches Ok(
                    RouterActionView::Spawn { name, group, id, request_uid: uid, address: to },
                ) && id == s.next_conn_id && uid == request_uid && to == address && name
                    == "client-"@ + decimal(s.client_id as nat) + "."@ + transport_name(transport)
                    + ".conn-"@ + decimal(id as nat) && group == transport_name(transport)
                    + "-conns"@
                &&& after.next_conn_id == s.next_conn_id + 1
                &&& after.queued_legacy == s.queued_legacy
            }
            &&& request_uid is Some ==> after.legacy_in_flight == s.legacy_in_flight
            &&& request_uid is None && s.legacy_in_flight is Some ==> {
                &&& result == Ok::<RouterActionView, RouterError>(RouterActionView::Nothing)
                &&& after == (RouterView { queued_legacy: s.queued_legacy.push(address), ..s })
            }
            &&& after.conns == s.conns && after.conn_ids == s.conn_ids
            &&& after.client_id == s.client_id
        }),
{
}

/// The report of a dial with a UID changes nothing: only legacy dials wait for each other.
pub proof fn law_dials_with_a_uid_do_not_wait(
    transport: Transport,
    s: RouterView,
    id: ConnectionId,
    uid: Uid,
    connected: bool,
)
    ensures
        router_step(
            transport,
            s,
            RouterMsgView::ConnectFinished { id, request_uid: Some(uid), connected },
        ) == (s, Ok::<RouterActionView, RouterError>(RouterActionView::Nothing)),
{
}

/// When an actor ends, its connection is forgotten, and no other one. If it failed, the
/// client is told why and told to forget the connection, in this order; nothing is told of an
/// actor that is not known.
pub proof fn law_an_end_concerns_one_connection(
    transport: Transport,
    s: RouterView,
    actor: ActorId,
    error: Seq<char>,
    other: ConnectionId,
)
    requires
        tables_agree(s),
    ensures
        ({
            let after = router_ended(transport, s, actor).0;
            let told = goodbye(transport, s, actor, error);
            let known = s.conn_ids.contains_key(actor);
            &&& after.client_id == s.client_id
            &&& after.conns.contains_key(other) <==> s.conns.contains_key(other) && s.conns[other]
                != actor
            &&& after.conns.contains_key(other) ==> after.conns[other] == s.conns[other]
            &&& !known ==> told.len() == 0
            &&& known ==> told.len() == 2 && told[1] == message_of(
                transport,
                DaemonOutgoingView::Close(s.conn_ids[actor]),
            ) && told[0] == DaemonMessageView::LogMessage(
                LogLevel::Warn,
                "outgoing connection "@ + decimal(s.conn_ids[actor] as nat) + " failed: "@ + error
                    + " ("@ + transport_name(transport) + ")"@,
            )
        }),
{
}

/// A router passes on what is meant for a connection that it knows: data as data, with its
/// bytes and what they reserved, the end of data as the end of data, and a close as a close,
/// to the actor of the very connection. What is meant for one that it does not know goes
/// nowhere, and what it reserved is given back.
pub proof fn law_a_router_passes_messages_on<F: OutgoingFlavor>(
    state: &mut RouterState,
    message: RouterMsg,
    r: Result<RouterAction, RouterError>,
)
    requires
        call_ensures(OutgoingRouterActor::<F>::handle, (state, message), r),
    ensures
        match message {
            RouterMsg::Write { id, bytes, budget } => if old(state).conns@.contains_key(id) {
                r matches Ok(
                    RouterAction::Forward {
                        actor,
                        message: ConnMsg::Write { bytes: passed, budget: with },
                    },
                ) && actor == old(state).conns@[id] && chunk(passed) == chunk(bytes) && with
                    == budget
            } else {
                r matches Ok(RouterAction::Release(given_back)) && given_back == budget
            },
            RouterMsg::ShutdownWrite { id } => if old(state).conns@.contains_key(id) {
                r matches Ok(RouterAction::Forward { actor, message: ConnMsg::ShutdownWrite })
                    && actor == old(state).conns@[id]
            } else {
                r matches Ok(RouterAction::Nothing)
            },
            RouterMsg::Close { id } => if old(state).conns@.contains_key(id) {
                r matches Ok(RouterAction::Forward { actor, message: ConnMsg::Close }) && actor
                    == old(state).conns@[id]
            } else {
                r matches Ok(RouterAction::Nothing)
            },
            _ => !(r matches Ok(RouterAction::Forward { .. })) && !(r matches Ok(
                RouterAction::Release(_),
            )),
        },
        final(state).conns@ == old(state).conns@,
        final(state).conn_ids@ == old(state).conn_ids@,
        final(state).client_id == old(state).client_id,
{
    if let Ok(RouterAction::Forward { actor, message }) = r {
        match message {
            ConnMsg::Write { .. } => {},
            ConnMsg::ShutdownWrite => {},
            ConnMsg::Close => {},
            ConnMsg::PeerClosed => {},
            ConnMsg::PeerFailed(_) => {},
        }
    }
}

/// A connection that is asked for is made with the UID and the address of the request, under
/// an ID that was not given out before; one without a UID may have to wait for its turn, and
/// its address then waits behind all others.
pub proof fn law_a_router_makes_what_is_asked_for<F: OutgoingFlavor>(
    state: &mut RouterState,
    uid: Option<Uid>,
    address: SocketAddress,
    r: Result<RouterAction, RouterError>,
)
    requires
        call_ensures(
            OutgoingRouterActor::<F>::handle,
            (state, RouterMsg::Connect { request_uid: uid, address }),
            r,
        ),
    ensures
        r is Err <==> old(state).next_conn_id == u64::MAX && (uid is Some
            || old(state).legacy_in_flight is None),
        r matches Ok(RouterAction::Spawn { id, request_uid, address: to, .. }) ==> id
            == old(state).next_conn_id && final(state).next_conn_id == id + 1 && request_uid == uid
            && to == address,
        r matches Ok(RouterAction::Spawn { .. }) <==> r is Ok && (uid is Some
            || old(state).legacy_in_flight is None),
        r matches Ok(RouterAction::Nothing) ==> final(state).queued_legacy@
            == old(state).queued_legacy@.push(address),
        r matches Ok(RouterAction::Nothing) || r matches Ok(RouterAction::Spawn { .. }) || r is Err,
{
}

/// A connection is known from when it was spawned, under its ID and its actor; the others
/// stay as they are. It is forgotten when its actor ends, and its ID is told to be closed
/// exactly if the actor failed.
pub proof fn law_a_router_knows_what_was_spawned<F: OutgoingFlavor>(
    state: &mut RouterState,
    id: ConnectionId,
    actor: ActorId,
    other: ConnectionId,
    later: &mut RouterState,
    event: ActorEnd,
    end: AfterEnd,
)
    requires
        call_ensures(OutgoingRouterActor::<F>::spawned, (state, id, actor), ()),
        call_ensures(OutgoingRouterActor::<F>::handle_supervisor_evt, (later, event), end),
    ensures
        final(state).conns@.contains_key(id) && final(state).conns@[id] == actor,
        final(state).conn_ids@.contains_key(actor) && final(state).conn_ids@[actor] == id,
        other != id ==> (final(state).conns@.contains_key(other)
            <==> old(state).conns@.contains_key(other)),
        other != id && old(state).conns@.contains_key(other) ==> final(state).conns@[other]
            == old(state).conns@[other],
        final(state).queued_legacy@ == old(state).queued_legacy@,
        final(state).legacy_in_flight == old(state).legacy_in_flight,
        final(state).next_conn_id == old(state).next_conn_id,
        (event matches ActorEnd::Terminated(a) && a == actor) || (event matches ActorEnd::Failed(
            a,
            _,
        ) && a == actor) ==> !final(later).conn_ids@.contains_key(actor),
        (event matches ActorEnd::Failed(a, _) && old(later).conn_ids@.contains_key(a))
            <==> end.messages@.len() > 0,
        event matches ActorEnd::Failed(a, _) ==> (end.messages@.len() > 0
            ==> end.messages@.last()@ == message_of(
            F::transport(),
            DaemonOutgoingView::Close(old(later).conn_ids@[a]),
        )),
        event is Other ==> final(later)@ == old(later)@,
{
    let told = messages_view(end.messages@);
    assert(told.len() == end.messages@.len());
    if end.messages@.len() > 0 {
        assert(told[told.len() - 1] == end.messages@[told.len() - 1]@);
    }
}

/// A router starts for its client, with no connection, no dial and no request waiting.
pub proof fn law_a_router_starts_empty<F: OutgoingFlavor>(client: ClientId, start: RouterState)
    requires
        call_ensures(OutgoingRouterActor::<F>::pre_start, (client,), start),
    ensures
        start.client_id == client,
        start.next_conn_id == 0,
        start.conns@.len() == 0 && start.conn_ids@.len() == 0,
        start.queued_legacy@.len() == 0,
        start.legacy_in_flight is None,
{
    assert(start@.conns == start.conns@ && start@.conn_ids == start.conn_ids@);
    assert(start@.queued_legacy == start.queued_legacy@);
}

/// No two connections of a client and a transport have actors of the same name, and all of
/// them are in the group of their transport.
pub proof fn law_connections_have_their_own_names(
    client: ClientId,
    transport: Transport,
    a: ConnectionId,
    b: ConnectionId,
)
    ensures
        conn_name(client, transport, a) == conn_name(client, transport, b) <==> a == b,
        group_name(transport) == if transport is Tcp {
            "tcp-out-conns"@
        } else {
            "udp-out-conns"@
        },
{
    let start = "client-"@ + decimal(client as nat) + "."@ + transport_name(transport) + ".conn-"@;
    assert(conn_name(client, transport, a) =~= start + decimal(a as nat));
    assert(conn_name(client, transport, b) =~= start + decimal(b as nat));
    assert((start + decimal(a as nat)).skip(start.len() as int) =~= decimal(a as nat));
    assert((start + decimal(b as nat)).skip(start.len() as int) =~= decimal(b as nat));
    law_numbers_have_their_own_text(a as nat, b as nat);
    reveal_strlit("tcp-out");
    reveal_strlit("udp-out");
    reveal_strlit("-conns");
    reveal_strlit("tcp-out-conns");
    reveal_strlit("udp-out-conns");
    assert("tcp-out"@ + "-conns"@ =~= "tcp-out-conns"@);
    assert("udp-out"@ + "-conns"@ =~= "udp-out-conns"@);
}

} // verus!
