//! Root of the supervision tree: accepts client connections, and starts one session per
//! client.
//!
//! Client sessions come and go; the agent lives on.

use crate::client::client_name;
use crate::outgoing::router::{ActorEnd, ActorId, ClientId};
use crate::protocol::{IoError, IoErrorView};
use crate::text::{decimal, law_numbers_have_their_own_text, numbered, same_text};
use std::collections::HashMap;
use vstd::prelude::*;

verus! {

broadcast use vstd::std_specs::hash::group_hash_axioms;

/// How many connections may wait to be accepted.
pub const LISTEN_BACKLOG: u32 = 1024;

/// What the agent can listen on.
#[derive(Debug, Clone, Copy, PartialEq, Eq)]
pub enum Stack {
    /// An IPv6 socket that takes IPv4 clients too.
    DualStack,
    /// A plain IPv4 socket.
    Ipv4,
}

/// What happens while the agent sets up its listener.
#[derive(Debug, Clone, Copy, PartialEq, Eq)]
pub enum BindEvent {
    Start,
    Bound(Stack),
    Failed(Stack),
}

/// What is done next to set up the listener.
#[derive(Debug, Clone, Copy, PartialEq, Eq)]
pub enum BindStep {
    Try(Stack),
    /// The last one tried is the listener.
    Done,
    /// Fail with the error of the last one tried.
    Fail,
}

/// Decides what the agent listens on: preferably on both IPv6 and IPv4, and only if that is
/// not possible on IPv4 alone.
pub fn bind_listener(event: BindEvent) -> (r: BindStep)
    ensures
        r == match event {
            BindEvent::Start => BindStep::Try(Stack::DualStack),
            BindEvent::Bound(_) => BindStep::Done,
            BindEvent::Failed(Stack::DualStack) => BindStep::Try(Stack::Ipv4),
            BindEvent::Failed(Stack::Ipv4) => BindStep::Fail,
        },
{
    match event {
        BindEvent::Start => BindStep::Try(Stack::DualStack),
        BindEvent::Bound(_) => BindStep::Done,
        BindEvent::Failed(Stack::DualStack) => BindStep::Try(Stack::Ipv4),
        BindEvent::Failed(Stack::Ipv4) => BindStep::Fail,
    }
}

/// How often the agent reports its status, in seconds.
pub const STATUS_REPORT_PERIOD_SECS: u64 = 60;

/// What the agent is told.
#[derive(Debug, PartialEq, Eq)]
pub enum AgentMsg {
    ClientConnected,
    AcceptFailed(IoError),
    /// Comes once, when the time that the first client has to connect is over.
    FirstClientTimeout,
    ReportStatus,
}

pub enum AgentMsgView {
    ClientConnected,
    AcceptFailed(IoErrorView),
    FirstClientTimeout,
    ReportStatus,
}

impl View for AgentMsg {
    type V = AgentMsgView;

    open spec fn view(&self) -> AgentMsgView {
        match self {
            AgentMsg::ClientConnected => AgentMsgView::ClientConnected,
            AgentMsg::AcceptFailed(error) => AgentMsgView::AcceptFailed(error@),
            AgentMsg::FirstClientTimeout => AgentMsgView::FirstClientTimeout,
            AgentMsg::ReportStatus => AgentMsgView::ReportStatus,
        }
    }
}

pub struct AgentState {
    pub next_client_id: ClientId,
    pub served_any_client: bool,
    /// The clients of the live sessions, by the actors that serve them.
    pub clients: HashMap<ActorId, ClientId>,
}

#[verifier::ext_equal]
pub struct AgentView {
    pub next_client_id: ClientId,
    pub served_any_client: bool,
    pub clients: Map<ActorId, ClientId>,
}

impl View for AgentState {
    type V = AgentView;

    open spec fn view(&self) -> AgentView {
        AgentView {
            next_client_id: self.next_client_id,
            served_any_client: self.served_any_client,
            clients: self.clients@,
        }
    }
}

/// What the agent wants done.
#[derive(Debug, PartialEq, Eq)]
pub enum AgentAction {
    Nothing,
    /// Start the session of a client, as an actor of this name.
    StartSession { id: ClientId, name: String },
    /// Stop, for this reason.
    Stop(&'static str),
    /// Fail, with an error of this text.
    Fail(String),
    /// Report how many clients and connections there are.
    ReportStatus,
}

pub enum AgentActionView {
    Nothing,
    StartSession { id: ClientId, name: Seq<char> },
    Stop(Seq<char>),
    Fail(Seq<char>),
    ReportStatus,
}

impl View for AgentAction {
    type V = AgentActionView;

    open spec fn view(&self) -> AgentActionView {
        match self {
            AgentAction::Nothing => AgentActionView::Nothing,
            AgentAction::StartSession { id, name } => AgentActionView::StartSession {
                id: *id,
                name: name@,
            },
            AgentAction::Stop(reason) => AgentActionView::Stop(reason@),
            AgentAction::Fail(text) => AgentActionView::Fail(text@),
            AgentAction::ReportStatus => AgentActionView::ReportStatus,
        }
    }
}

/// A session that came to its end: whose it was, and the error that it failed with.
#[derive(Debug, PartialEq, Eq)]
pub struct EndedSession {
    pub id: ClientId,
    pub error: Option<String>,
}

/// What happens to an agent.
pub enum AgentEvent {
    Message(AgentMsgView),
    /// The actor of a session runs.
    Started(ClientId, ActorId),
    /// The actor of a session could not be started.
    StartFailed(Seq<char>),
    /// An actor ended.
    Ended(ActorId),
}

/// The agent before anything happened to it.
pub open spec fn agent_start() -> AgentView {
    AgentView { next_client_id: 0, served_any_client: false, clients: Map::empty() }
}

/// What the agent does when something happens, and the state that it is in afterwards.
pub open spec fn agent_step(s: AgentView, event: AgentEvent) -> (AgentView, AgentActionView) {
    match event {
        AgentEvent::Message(AgentMsgView::ClientConnected) => (
            AgentView {
                next_client_id: (s.next_client_id + 1) as u32,
                served_any_client: true,
                ..s
            },
            AgentActionView::StartSession {
                id: s.next_client_id,
                name: client_name(s.next_client_id),
            },
        ),
        AgentEvent::Message(AgentMsgView::AcceptFailed(error)) => (
            s,
            AgentActionView::Fail("client listener failed: "@ + error.message),
        ),
        AgentEvent::Message(AgentMsgView::FirstClientTimeout) => (
            s,
            if s.served_any_client {
                AgentActionView::Nothing
            } else {
                AgentActionView::Stop("first client timeout"@)
            },
        ),
        AgentEvent::Message(AgentMsgView::ReportStatus) => (s, AgentActionView::ReportStatus),
        AgentEvent::Started(id, actor) => (
            AgentView { clients: s.clients.insert(actor, id), ..s },
            AgentActionView::Nothing,
        ),
        AgentEvent::StartFailed(error) => (s, AgentActionView::Fail(error)),
        AgentEvent::Ended(actor) => (
            AgentView { clients: s.clients.remove(actor), ..s },
            AgentActionView::Nothing,
        ),
    }
}

/// The actor at the root.
pub struct AgentActor;

impl AgentActor {
    pub fn pre_start() -> (r: AgentState)
        ensures
            r@ == agent_start(),
    {
        AgentState { next_client_id: 0, served_any_client: false, clients: HashMap::new() }
    }

    pub fn handle(state: &mut AgentState, message: AgentMsg) -> (r: AgentAction)
        requires
            message is ClientConnected ==> old(state)@.next_client_id < u32::MAX,
        ensures
            (final(state)@, r@) == agent_step(old(state)@, AgentEvent::Message(message@)),
    {
        match message {
            AgentMsg::ClientConnected => {
                let id: ClientId = state.next_client_id;
                state.next_client_id = id + 1;
                state.served_any_client = true;
                let name = numbered("client-", id as u128, "");
                proof {
                    reveal_strlit("");
                    assert(name@ =~= client_name(id));
                }
                AgentAction::StartSession { id, name }
            },
            AgentMsg::AcceptFailed(error) => {
                let mut text = "client listener failed: ".to_owned();
                text.append(error.message.as_str());
                AgentAction::Fail(text)
            },
            AgentMsg::FirstClientTimeout => {
                if !state.served_any_client {
                    AgentAction::Stop("first client timeout")
                } else {
                    AgentAction::Nothing
                }
            },
            AgentMsg::ReportStatus => AgentAction::ReportStatus,
        }
    }

    /// Takes note of the outcome of starting the session of the client `id`.
    pub fn started(state: &mut AgentState, id: ClientId, outcome: Result<ActorId, String>) -> (r:
        AgentAction)
        ensures
            (final(state)@, r@) == agent_step(
                old(state)@,
                match outcome {
                    Ok(actor) => AgentEvent::Started(id, actor),
                    Err(error) => AgentEvent::StartFailed(error@),
                },
            ),
    {
        match outcome {
            Ok(actor) => {
                state.clients.insert(actor, id);
                AgentAction::Nothing
            },
            Err(error) => AgentAction::Fail(error),
        }
    }

    /// Forgets the session of an actor that ended. Returns the session, if there was one.
    pub fn handle_supervisor_evt(state: &mut AgentState, event: ActorEnd) -> (r: Option<
        EndedSession,
    >)
        ensures
            match event {
                ActorEnd::Terminated(actor) => final(state)@ == agent_step(
                    old(state)@,
                    AgentEvent::Ended(actor),
                ).0 && r == if old(state)@.clients.contains_key(actor) {
                    Some(EndedSession { id: old(state)@.clients[actor], error: None })
                } else {
                    None
                },
                ActorEnd::Failed(actor, error) => final(state)@ == agent_step(
                    old(state)@,
                    AgentEvent::Ended(actor),
                ).0 && r == if old(state)@.clients.contains_key(actor) {
                    Some(EndedSession { id: old(state)@.clients[actor], error: Some(error) })
                } else {
                    None
                },
                ActorEnd::Other => final(state)@ == old(state)@ && r is None,
            },
    {
        match event {
            ActorEnd::Terminated(actor) => match state.clients.remove(&actor) {
                Some(id) => Some(EndedSession { id, error: None }),
                None => None,
            },
            ActorEnd::Failed(actor, error) => match state.clients.remove(&actor) {
                Some(id) => Some(EndedSession { id, error: Some(error) }),
                None => None,
            },
            ActorEnd::Other => None,
        }
    }
}

/// What the accept loop comes upon.
#[derive(Debug, PartialEq, Eq)]
pub enum AcceptEvent {
    /// A client connected.
    Accepted,
    /// The listener failed.
    Failed(IoError),
    /// The agent could not be told of a client: it is gone.
    AgentGone,
}

/// What the accept loop does.
#[derive(Debug, PartialEq, Eq)]
pub enum AcceptStep {
    /// Tell the agent, and accept the next client.
    TellAndContinue(AgentMsg),
    /// Tell the agent, and stop.
    TellAndStop(AgentMsg),
    Stop,
}

/// What the accept loop does with what it comes upon.
pub fn accept_task(event: AcceptEvent) -> (r: AcceptStep)
    ensures
        r == match event {
            AcceptEvent::Accepted => AcceptStep::TellAndContinue(AgentMsg::ClientConnected),
            AcceptEvent::Failed(error) => AcceptStep::TellAndStop(AgentMsg::AcceptFailed(error)),
            AcceptEvent::AgentGone => AcceptStep::Stop,
        },
{
    match event {
        AcceptEvent::Accepted => AcceptStep::TellAndContinue(AgentMsg::ClientConnected),
        AcceptEvent::Failed(error) => AcceptStep::TellAndStop(AgentMsg::AcceptFailed(error)),
        AcceptEvent::AgentGone => AcceptStep::Stop,
    }
}

/// Whether logs are written as JSON, given the value of the environment variable that
/// says so: only where it is `true`.
pub fn json_log(value: Option<&str>) -> (r: bool)
    ensures
        r == (value matches Some(text) && text@ == "true"@),
{
    match value {
        Some(text) => same_text(text, "true"),
        None => false,
    }
}

// ---------------------------------------------------------------------------------
// Laws
// ---------------------------------------------------------------------------------

/// The state of an agent after some events, and what it did on each of them.
pub open spec fn agent_run(events: Seq<AgentEvent>) -> (AgentView, Seq<AgentActionView>)
    decreases events.len(),
{
    if events.len() == 0 {
        (agent_start(), Seq::empty())
    } else {
        let (before, actions) = agent_run(events.drop_last());
        let (after, action) = agent_step(before, events.last());
        (after, actions.push(action))
    }
}

/// The number of clients that connected.
pub open spec fn connected(events: Seq<AgentEvent>) -> nat
    decreases events.len(),
{
    if events.len() == 0 {
        0
    } else {
        connected(events.drop_last()) + if events.last() == AgentEvent::Message(
            AgentMsgView::ClientConnected,
        ) {
            1nat
        } else {
            0nat
        }
    }
}

/// Clients are numbered in the order in which they connect, from zero, so no two of them
/// ever have the same ID.
pub proof fn law_clients_are_numbered(events: Seq<AgentEvent>, i: int)
    requires
        connected(events) <= u32::MAX,
        0 <= i < events.len(),
        events[i] == AgentEvent::Message(AgentMsgView::ClientConnected),
    ensures
        agent_run(events).1[i] == (AgentActionView::StartSession {
            id: connected(events.take(i)) as u32,
            name: client_name(connected(events.take(i)) as u32),
        }),
        connected(events.take(i)) < connected(events),
    decreases events.len(),
{
    lemma_run(events.drop_last());
    if i == events.len() - 1 {
        assert(events.take(i) =~= events.drop_last());
    } else {
        law_clients_are_numbered(events.drop_last(), i);
        assert(events.drop_last().take(i) =~= events.take(i));
    }
}

/// Whatever happens to a session, the agent lives on: it fails only if it can no longer
/// accept clients or start a session, and stops only if no client connected in time.
pub proof fn law_the_agent_lives_on(events: Seq<AgentEvent>, i: int)
    requires
        connected(events) <= u32::MAX,
        0 <= i < events.len(),
    ensures
        agent_run(events).1[i] is Fail <==> (events[i] matches AgentEvent::Message(m)
            && m is AcceptFailed) || events[i] is StartFailed,
        agent_run(events).1[i] is Stop <==> events[i] == AgentEvent::Message(
            AgentMsgView::FirstClientTimeout,
        ) && connected(events.take(i)) == 0,
    decreases events.len(),
{
    lemma_run(events.drop_last());
    if i == events.len() - 1 {
        assert(events.take(i) =~= events.drop_last());
    } else {
        law_the_agent_lives_on(events.drop_last(), i);
        assert(events.drop_last().take(i) =~= events.take(i));
    }
}

/// A session is known from its start until its end, and not a moment longer.
pub proof fn law_live_sessions_are_known(events: Seq<AgentEvent>, i: int, actor: ActorId)
    requires
        0 <= i < events.len(),
        forall|j: int|
            i < j < events.len() ==> #[trigger] events[j] != AgentEvent::Ended(actor) && !(
            events[j] matches AgentEvent::Started(_, a) && a == actor),
    ensures
        events[i] matches AgentEvent::Started(id, a) ==> a == actor ==> agent_run(
            events,
        ).0.clients.contains_key(actor) && agent_run(events).0.clients[actor] == id,
        events[i] == AgentEvent::Ended(actor) ==> !agent_run(events).0.clients.contains_key(actor),
    decreases events.len(),
{
    if i < events.len() - 1 {
        let shorter = events.drop_last();
        assert forall|j: int| i < j < shorter.len() implies #[trigger] shorter[j]
            != AgentEvent::Ended(actor) && !(shorter[j] matches AgentEvent::Started(_, a) && a
            == actor) by {
            assert(shorter[j] == events[j]);
        }
        law_live_sessions_are_known(shorter, i, actor);
        assert(events[events.len() - 1] == events.last());
    }
}

proof fn lemma_run(events: Seq<AgentEvent>)
    requires
        connected(events) <= u32::MAX,
    ensures
        agent_run(events).1.len() == events.len(),
        agent_run(events).0.next_client_id == connected(events),
        agent_run(events).0.served_any_client == (connected(events) > 0),
    decreases events.len(),
{
    if events.len() > 0 {
        lemma_run(events.drop_last());
    }
}

/// An agent that fails says why: with the text of the error that it failed with. It reports
/// its status whenever it is asked to, and only then.
pub proof fn law_failures_say_why(s: AgentView, error: IoErrorView, text: Seq<char>, event: AgentEvent)
    ensures
        agent_step(s, AgentEvent::Message(AgentMsgView::AcceptFailed(error))).1
            == AgentActionView::Fail("client listener failed: "@ + error.message),
        agent_step(s, AgentEvent::StartFailed(text)).1 == AgentActionView::Fail(text),
        agent_step(s, event).1 is ReportStatus <==> event == AgentEvent::Message(
            AgentMsgView::ReportStatus,
        ),
{
}

/// No two clients have sessions of the same name.
pub proof fn law_sessions_have_their_own_names(a: ClientId, b: ClientId)
    ensures
        client_name(a) == client_name(b) <==> a == b,
        client_name(a) == "client-"@ + decimal(a as nat),
{
    law_numbers_have_their_own_text(a as nat, b as nat);
    if client_name(a) == client_name(b) {
        let n = "client-"@.len() as int;
        assert(client_name(a).skip(n) =~= decimal(a as nat));
        assert(client_name(b).skip(n) =~= decimal(b as nat));
    }
}

/// Sessions come and go on their own: what happens to one leaves the others as they are.
pub proof fn law_sessions_do_not_touch_each_other(s: AgentView, event: AgentEvent, other: ActorId)
    requires
        event matches AgentEvent::Started(_, actor) ==> actor != other,
        event != AgentEvent::Ended(other),
    ensures
        ({
            let after = agent_step(s, event).0;
            &&& after.clients.contains_key(other) <==> s.clients.contains_key(other)
            &&& s.clients.contains_key(other) ==> after.clients[other] == s.clients[other]
            &&& after.next_client_id != s.next_client_id ==> event == AgentEvent::Message(
                AgentMsgView::ClientConnected,
            )
        }),
{
}

/// The agent listens on IPv6 and IPv4 together if it can, on IPv4 alone only if it cannot,
/// and fails only if it can do neither.
pub proof fn law_a_listener_is_found_if_there_is_one(event: BindEvent, step: BindStep)
    requires
        call_ensures(bind_listener, (event,), step),
    ensures
        step == BindStep::Try(Stack::DualStack) <==> event is Start,
        step == BindStep::Try(Stack::Ipv4) <==> event == BindEvent::Failed(Stack::DualStack),
        step is Done <==> event is Bound,
        step is Fail <==> event == BindEvent::Failed(Stack::Ipv4),
{
}

/// Every client that is accepted is told to the agent, which starts a session for it, and more
/// are accepted after it. A listener that failed ends the accept loop, and the agent fails with
/// the text of the error.
pub proof fn law_every_accepted_client_gets_a_session(
    event: AcceptEvent,
    step: AcceptStep,
    state: &mut AgentState,
    message: AgentMsg,
    action: AgentAction,
)
    requires
        call_ensures(accept_task, (event,), step),
        call_ensures(AgentActor::handle, (state, message), action),
    ensures
        event is Accepted <==> step is TellAndContinue,
        event is AgentGone <==> step is Stop,
        step matches AcceptStep::TellAndContinue(told) ==> message == told ==> (action matches
            AgentAction::StartSession { id, .. } && id == old(state).next_client_id
            && final(state).served_any_client),
        step matches AcceptStep::TellAndStop(told) ==> message == told ==> (action matches
            AgentAction::Fail(text) && (event matches AcceptEvent::Failed(error) && text@
            == "client listener failed: "@ + error.message@)),
        action is StartSession <==> message is ClientConnected,
        action is ReportStatus <==> message is ReportStatus,
        action is Fail <==> message is AcceptFailed,
        action is Stop <==> message is FirstClientTimeout && !old(state).served_any_client,
        final(state).served_any_client <==> old(state).served_any_client || message
            is ClientConnected,
{
}

/// A session is known by its actor from when it was started, and its end is told with the
/// client that it was for, and with its error exactly if it failed. Nothing is told of actors
/// that serve no client.
pub proof fn law_ended_sessions_are_told(
    state: &mut AgentState,
    id: ClientId,
    outcome: Result<ActorId, String>,
    action: AgentAction,
    later: &mut AgentState,
    event: ActorEnd,
    ended: Option<EndedSession>,
)
    requires
        call_ensures(AgentActor::started, (state, id, outcome), action),
        call_ensures(AgentActor::handle_supervisor_evt, (later, event), ended),
    ensures
        outcome matches Ok(actor) ==> final(state).clients@ == old(state).clients@.insert(
            actor,
            id,
        ) && action is Nothing,
        outcome matches Err(error) ==> (action matches AgentAction::Fail(text) && text@ == error@)
            && final(state).clients@ == old(state).clients@,
        ended is Some <==> match event {
            ActorEnd::Terminated(actor) => old(later).clients@.contains_key(actor),
            ActorEnd::Failed(actor, _) => old(later).clients@.contains_key(actor),
            ActorEnd::Other => false,
        },
        ended matches Some(session) ==> match event {
            ActorEnd::Terminated(actor) => session.id == old(later).clients@[actor]
                && session.error is None && !final(later).clients@.contains_key(actor),
            ActorEnd::Failed(actor, error) => session.id == old(later).clients@[actor]
                && session.error == Some(error) && !final(later).clients@.contains_key(actor),
            ActorEnd::Other => false,
        },
{
}

/// Logs are JSON exactly where `true` is asked for, and not by any other value.
pub proof fn law_json_is_asked_for(value: Option<&str>, json: bool)
    requires
        call_ensures(json_log, (value,), json),
    ensures
        value is None ==> !json,
        value matches Some(text) ==> (json <==> text@ == "true"@),
{
}

/// The agent starts without a client, and counts clients from zero.
pub proof fn law_no_client_at_first(start: AgentState)
    requires
        call_ensures(AgentActor::pre_start, (), start),
    ensures
        start.next_client_id == 0,
        !start.served_any_client,
        start.clients@.len() == 0,
{
    assert(start@.clients == start.clients@);
}

/// An agent that stops does so for want of a client.
pub proof fn law_a_stop_has_a_reason(s: AgentView, event: AgentEvent)
    ensures
        agent_step(s, event).1 matches AgentActionView::Stop(reason) ==> reason
            == "first client timeout"@,
{
}

} // verus!
