//! One connected client: its session state, and where its messages go.
//!
//! Everything that any part of the agent wants to tell the client goes through the client
//! actor, which serializes writes. What the client sends is routed straight to the actor
//! that handles it, without bouncing through the client actor.

use crate::budget::{BudgetPermit, MemoryBudget, FROM_CLIENT_LIMIT, TO_CLIENT_LIMIT};
use crate::chunk::chunk;
use crate::outgoing::router::{ClientId, RouterMsg, RouterMsgView};
use crate::outgoing::{tcp_event, udp_event, LayerEvent, Transport};
use crate::protocol::{
    ClientMessage, ConnectionId, DaemonMessage, DaemonMessageView, FileRequest,
    GetAddrInfoRequestV2, IoError, IoErrorView, LayerClose, LayerConnect, LayerConnectV2,
    LayerTcpOutgoing, LayerUdpOutgoing, LayerWrite,
};
use crate::text::{decimal, joined, law_numbers_have_their_own_text, numbered};
use crate::version::{at_most, settled, Version, VersionView};
use bytes::Bytes;
use vstd::prelude::*;

verus! {

/// Process group of all client actors.
pub const CLIENTS_GROUP: &'static str = "clients";

/// What a client actor is told.
#[derive(Debug, PartialEq, Eq)]
pub enum ClientMsg {
    /// Send a message to the client. The reservation, for data of a peer, is given back after
    /// the message has been written and flushed.
    Send { message: DaemonMessage, budget: Option<BudgetPermit> },
    Ping,
    SwitchProtocolVersion(Version),
    ReadyForLogs,
    GetEnvVars,
    /// The client sent a message for a feature that this agent does not have.
    NotSupported { feature: &'static str },
    /// The client asked for the session to end.
    CloseRequested,
    /// There is nothing more to read: clean disconnect (`None`) or connection error.
    ReaderFinished(Option<IoError>),
}

pub enum ClientMsgView {
    Send(DaemonMessageView, Option<BudgetPermit>),
    Ping,
    SwitchProtocolVersion(VersionView),
    ReadyForLogs,
    GetEnvVars,
    NotSupported(Seq<char>),
    CloseRequested,
    ReaderFinished(Option<IoErrorView>),
}

impl View for ClientMsg {
    type V = ClientMsgView;

    open spec fn view(&self) -> ClientMsgView {
        match self {
            ClientMsg::Send { message, budget } => ClientMsgView::Send(message@, *budget),
            ClientMsg::Ping => ClientMsgView::Ping,
            ClientMsg::SwitchProtocolVersion(v) => ClientMsgView::SwitchProtocolVersion(v@),
            ClientMsg::ReadyForLogs => ClientMsgView::ReadyForLogs,
            ClientMsg::GetEnvVars => ClientMsgView::GetEnvVars,
            ClientMsg::NotSupported { feature } => ClientMsgView::NotSupported(feature@),
            ClientMsg::CloseRequested => ClientMsgView::CloseRequested,
            ClientMsg::ReaderFinished(None) => ClientMsgView::ReaderFinished(None),
            ClientMsg::ReaderFinished(Some(e)) => ClientMsgView::ReaderFinished(Some(e@)),
        }
    }
}

#[derive(Debug, PartialEq, Eq)]
pub struct ClientState {
    pub id: ClientId,
    /// Whether the client has said that it is ready for logs.
    pub ready_for_logs: bool,
    /// The client's version of the protocol, once it told it.
    pub protocol_version: Option<Version>,
}

pub struct ClientStateView {
    pub id: ClientId,
    pub ready_for_logs: bool,
    pub protocol_version: Option<VersionView>,
}

impl View for ClientState {
    type V = ClientStateView;

    open spec fn view(&self) -> ClientStateView {
        ClientStateView {
            id: self.id,
            ready_for_logs: self.ready_for_logs,
            protocol_version: match self.protocol_version {
                Some(v) => Some(v@),
                None => None,
            },
        }
    }
}

/// What a client actor wants done. Each action is over before the next is begun.
#[derive(Debug, PartialEq, Eq)]
pub enum ClientAction {
    /// Write a message to the client's connection and flush it; if that fails, so does the
    /// session.
    Send(DaemonMessage),
    /// Give a reservation back to its budget.
    Release(BudgetPermit),
    /// Stop, for this reason.
    Stop(&'static str),
    /// Fail, with an error of this text.
    Fail(String),
}

pub enum ClientActionView {
    Send(DaemonMessageView),
    Release(BudgetPermit),
    Stop(Seq<char>),
    Fail(Seq<char>),
}

impl View for ClientAction {
    type V = ClientActionView;

    open spec fn view(&self) -> ClientActionView {
        match self {
            ClientAction::Send(m) => ClientActionView::Send(m@),
            ClientAction::Release(budget) => ClientActionView::Release(*budget),
            ClientAction::Stop(reason) => ClientActionView::Stop(reason@),
            ClientAction::Fail(text) => ClientActionView::Fail(text@),
        }
    }
}

/// The farewell for a feature that this agent does not have.
pub open spec fn not_supported_text(feature: Seq<char>) -> Seq<char> {
    feature + " is not supported by mirrord-agent-ractor"@
}

/// What a list of actions says.
pub open spec fn actions_view(actions: Seq<ClientAction>) -> Seq<ClientActionView> {
    actions.map_values(|a: ClientAction| a@)
}

/// What gives a reservation back, if there is one.
pub open spec fn releasing(budget: Option<BudgetPermit>) -> Seq<ClientActionView> {
    match budget {
        Some(budget) => seq![ClientActionView::Release(budget)],
        None => Seq::empty(),
    }
}

/// What a client actor of an agent with the protocol version `own` does on a message, and
/// the state that it is in afterwards.
pub open spec fn client_step(own: VersionView, s: ClientStateView, message: ClientMsgView) -> (
    ClientStateView,
    Seq<ClientActionView>,
) {
    match message {
        ClientMsgView::Send(m, budget) => (
            s,
            (if m is LogMessage && !s.ready_for_logs {
                Seq::empty()
            } else {
                seq![ClientActionView::Send(m)]
            }) + releasing(budget),
        ),
        ClientMsgView::Ping => (s, seq![ClientActionView::Send(DaemonMessageView::Pong)]),
        ClientMsgView::SwitchProtocolVersion(client) => (
            ClientStateView { protocol_version: Some(client), ..s },
            seq![
                ClientActionView::Send(
                    DaemonMessageView::SwitchProtocolVersionResponse(settled(own, client)),
                ),
            ],
        ),
        ClientMsgView::ReadyForLogs => (
            ClientStateView { ready_for_logs: true, ..s },
            Seq::empty(),
        ),
        ClientMsgView::GetEnvVars => (
            s,
            seq![ClientActionView::Send(DaemonMessageView::GetEnvVarsResponse(Seq::empty()))],
        ),
        ClientMsgView::NotSupported(feature) => (
            s,
            seq![ClientActionView::Send(DaemonMessageView::Close(not_supported_text(feature)))],
        ),
        ClientMsgView::CloseRequested => (s, seq![ClientActionView::Stop("client sent Close"@)]),
        ClientMsgView::ReaderFinished(None) => (
            s,
            seq![ClientActionView::Stop("client disconnected"@)],
        ),
        ClientMsgView::ReaderFinished(Some(error)) => (
            s,
            seq![ClientActionView::Fail("client connection failed: "@ + error.message)],
        ),
    }
}

/// The end of a feature actor of a session.
#[derive(Debug, PartialEq, Eq)]
pub enum FeatureEnd {
    /// The actor failed, with an error of this text.
    Failed { name: Option<String>, error: String },
    /// The actor stopped; `reason` is the debug text of its reason, if it gave one.
    Terminated { name: Option<String>, reason: String },
    /// Anything else that is told of actors.
    Other,
}

/// What the end of a feature actor means for the session.
#[derive(Debug, PartialEq, Eq)]
pub struct SessionEnd {
    /// What the client is told, if it can still be reached.
    pub farewell: DaemonMessage,
    /// The error that the session fails with.
    pub error: String,
}

/// The names of the actors of a session.
#[derive(Debug, PartialEq, Eq)]
pub struct SessionNames {
    pub dns: String,
    pub tcp_outgoing: String,
    pub udp_outgoing: String,
}

/// A session that starts.
pub struct Session {
    pub state: ClientState,
    pub names: SessionNames,
    pub to_client_budget: MemoryBudget,
    pub from_client_budget: MemoryBudget,
}

/// The name of the client actor.
pub open spec fn client_name(id: ClientId) -> Seq<char> {
    "client-"@ + decimal(id as nat)
}

/// The actor of one connected client.
pub struct ClientActor;

pub open spec fn name_or_nothing(name: Option<String>) -> Seq<char> {
    match name {
        Some(name) => name@,
        None => Seq::empty(),
    }
}

impl ClientActor {
    /// Starts the session of the client `id`. Each direction has a budget of its own, so
    /// neither can hold up the other.
    pub fn pre_start(id: ClientId) -> (r: Session)
        ensures
            r.state@ == (ClientStateView { id, ready_for_logs: false, protocol_version: None }),
            r.names.dns@ == client_name(id) + ".dns"@,
            r.names.tcp_outgoing@ == client_name(id) + ".tcp-out"@,
            r.names.udp_outgoing@ == client_name(id) + ".udp-out"@,
            r.to_client_budget.limit() == TO_CLIENT_LIMIT,
            r.from_client_budget.limit() == FROM_CLIENT_LIMIT,
            r.to_client_budget.semaphore() != r.from_client_budget.semaphore(),
    {
        let to_client_budget = MemoryBudget::new(TO_CLIENT_LIMIT);
        let from_client_budget = to_client_budget.new_apart(FROM_CLIENT_LIMIT);
        Session {
            state: ClientState { id, ready_for_logs: false, protocol_version: None },
            names: SessionNames {
                dns: numbered("client-", id as u128, ".dns"),
                tcp_outgoing: numbered("client-", id as u128, ".tcp-out"),
                udp_outgoing: numbered("client-", id as u128, ".udp-out"),
            },
            to_client_budget,
            from_client_budget,
        }
    }

    /// Handles a message. `own` is the agent's version of the protocol.
    pub fn handle(own: &Version, state: &mut ClientState, message: ClientMsg) -> (r: Vec<
        ClientAction,
    >)
        requires
            own@.well_formed(),
            message@ matches ClientMsgView::SwitchProtocolVersion(v) ==> v.well_formed(),
        ensures
            (final(state)@, actions_view(r@)) == client_step(own@, old(state)@, message@),
            message@ matches ClientMsgView::SwitchProtocolVersion(v) ==> at_most(
                settled(own@, v),
                own@,
            ) && at_most(settled(own@, v), v),
    {
        let mut actions: Vec<ClientAction> = Vec::new();
        match message {
            ClientMsg::Send { message, budget } => {
                let is_log = if let DaemonMessage::LogMessage(..) = &message {
                    true
                } else {
                    false
                };
                if !is_log || state.ready_for_logs {
                    actions.push(ClientAction::Send(message));
                }
                if let Some(budget) = budget {
                    actions.push(ClientAction::Release(budget));
                }
            },
            ClientMsg::Ping => {
                actions.push(ClientAction::Send(DaemonMessage::Pong));
            },
            ClientMsg::SwitchProtocolVersion(client_version) => {
                let settled = own.settle(&client_version);
                state.protocol_version = Some(client_version);
                actions.push(
                    ClientAction::Send(DaemonMessage::SwitchProtocolVersionResponse(settled)),
                );
            },
            ClientMsg::ReadyForLogs => {
                state.ready_for_logs = true;
            },
            ClientMsg::GetEnvVars => {
                // Targetless agents have no meaningful target environment; an empty set
                // keeps env-requesting clients working.
                let vars: Vec<(String, String)> = Vec::new();
                assert(vars@.map_values(|v: (String, String)| (v.0@, v.1@)) =~= Seq::empty());
                actions.push(ClientAction::Send(DaemonMessage::GetEnvVarsResponse(vars)));
            },
            ClientMsg::NotSupported { feature } => {
                let mut text = feature.to_owned();
                text.append(" is not supported by mirrord-agent-ractor");
                actions.push(ClientAction::Send(DaemonMessage::Close(text)));
            },
            ClientMsg::CloseRequested => {
                actions.push(ClientAction::Stop("client sent Close"));
            },
            ClientMsg::ReaderFinished(None) => {
                actions.push(ClientAction::Stop("client disconnected"));
            },
            ClientMsg::ReaderFinished(Some(error)) => {
                let mut text = "client connection failed: ".to_owned();
                text.append(error.message.as_str());
                actions.push(ClientAction::Fail(text));
            },
        }
        assert(actions_view(actions@) =~= client_step(own@, old(state)@, message@).1);
        actions
    }

    /// The feature actors live exactly as long as the session, so any of them ending on
    /// its own means that the session is broken: the client is told, and the session
    /// fails.
    pub fn handle_supervisor_evt(event: FeatureEnd) -> (r: Option<SessionEnd>)
        ensures
            match event {
                FeatureEnd::Failed { name, error } => r matches Some(end) && end.farewell@
                    == DaemonMessageView::Close(
                    "agent failed serving this session: "@ + error@,
                ) && end.error@ == "feature actor "@ + name_or_nothing(name) + " failed: "@
                    + error@,
                FeatureEnd::Terminated { name, reason } => r matches Some(end) && end.farewell@
                    == DaemonMessageView::Close(
                    "agent failed serving this session: "@ + end.error@,
                ) && end.error@ == "feature actor "@ + name_or_nothing(name)
                    + " stopped unexpectedly (reason: "@ + reason@ + ")"@,
                FeatureEnd::Other => r is None,
            },
    {
        match event {
            FeatureEnd::Failed { name, error } => {
                let mut farewell = "agent failed serving this session: ".to_owned();
                farewell.append(error.as_str());
                let mut text = joined("feature actor ", Self::known_name(name).as_str(), " failed: ");
                text.append(error.as_str());
                Some(SessionEnd { farewell: DaemonMessage::Close(farewell), error: text })
            },
            FeatureEnd::Terminated { name, reason } => {
                let mut text = joined(
                    "feature actor ",
                    Self::known_name(name).as_str(),
                    " stopped unexpectedly (reason: ",
                );
                text.append(reason.as_str());
                text.append(")");
                let mut farewell = "agent failed serving this session: ".to_owned();
                farewell.append(text.as_str());
                Some(SessionEnd { farewell: DaemonMessage::Close(farewell), error: text })
            },
            FeatureEnd::Other => None,
        }
    }

    fn known_name(name: Option<String>) -> (r: String)
        ensures
            r@ == name_or_nothing(name),
    {
        match name {
            Some(name) => name,
            None => String::new(),
        }
    }
}

// ---------------------------------------------------------------------------------
// Routing
// ---------------------------------------------------------------------------------

/// How an outgoing request gets to its router.
#[derive(Debug, PartialEq, Eq)]
pub enum OutgoingRoute {
    /// Pass it on.
    Cast(RouterMsg),
    /// Reserve this many bytes of the memory budget, then pass the data on with the
    /// reservation, as [`OutgoingWrite::with`] says.
    ReserveAndCast { bytes: usize, write: OutgoingWrite },
}

/// Client data for an outgoing connection that has nothing reserved yet.
#[derive(Debug, PartialEq, Eq)]
pub struct OutgoingWrite {
    pub id: ConnectionId,
    pub bytes: Bytes,
}

impl OutgoingWrite {
    /// The data, with what was reserved for it.
    pub fn with(self, budget: BudgetPermit) -> (r: RouterMsg)
        ensures
            r == (RouterMsg::Write { id: self.id, bytes: self.bytes, budget }),
    {
        RouterMsg::Write { id: self.id, bytes: self.bytes, budget }
    }
}

pub enum OutgoingRouteView {
    Cast(RouterMsgView),
    ReserveAndCast { bytes: nat, id: ConnectionId, data: Seq<u8> },
}

impl View for OutgoingRoute {
    type V = OutgoingRouteView;

    open spec fn view(&self) -> OutgoingRouteView {
        match self {
            OutgoingRoute::Cast(m) => OutgoingRouteView::Cast(m@),
            OutgoingRoute::ReserveAndCast { bytes, write } => OutgoingRouteView::ReserveAndCast {
                bytes: *bytes as nat,
                id: write.id,
                data: chunk(write.bytes),
            },
        }
    }
}

/// Where a message of the client goes.
#[derive(Debug, PartialEq, Eq)]
pub enum Route {
    /// To the router of a transport.
    Outgoing(Transport, OutgoingRoute),
    /// To the DNS actor.
    Dns(GetAddrInfoRequestV2),
    /// To the client actor.
    Client(ClientMsg),
    /// Nowhere.
    Ignore,
}

/// How an outgoing request gets to its router: only data reserves memory, as much as there
/// are bytes of it, and data of no bytes is the end of the client's data.
pub open spec fn outgoing_route(event: LayerEvent) -> OutgoingRouteView {
    match event {
        LayerEvent::Connect { request_uid, address } => OutgoingRouteView::Cast(
            RouterMsgView::Connect { request_uid, address },
        ),
        LayerEvent::Write { id, bytes } => if chunk(bytes).len() == 0 {
            OutgoingRouteView::Cast(RouterMsg::ShutdownWrite { id }@)
        } else {
            OutgoingRouteView::ReserveAndCast {
                bytes: chunk(bytes).len(),
                id,
                data: chunk(bytes),
            }
        },
        LayerEvent::Close { id } => OutgoingRouteView::Cast(RouterMsg::Close { id }@),
    }
}

/// Routes one outgoing request.
pub fn dispatch_outgoing(event: LayerEvent) -> (r: OutgoingRoute)
    ensures
        r@ == outgoing_route(event),
{
    match event {
        LayerEvent::Connect { request_uid, address } => OutgoingRoute::Cast(
            RouterMsg::Connect { request_uid, address },
        ),
        LayerEvent::Write { id, bytes } => if bytes.is_empty() {
            OutgoingRoute::Cast(RouterMsg::ShutdownWrite { id })
        } else {
            let len: usize = bytes.len();
            OutgoingRoute::ReserveAndCast { bytes: len, write: OutgoingWrite { id, bytes } }
        },
        LayerEvent::Close { id } => OutgoingRoute::Cast(RouterMsg::Close { id }),
    }
}

/// The feature that a message asks for, if it is one that this agent does not have.
pub open spec fn unsupported_feature(message: ClientMessage) -> Option<Seq<char>> {
    match message {
        ClientMessage::FileRequest(..) => Some("file operations"@),
        ClientMessage::Tcp => Some("incoming traffic mirroring"@),
        ClientMessage::TcpSteal => Some("incoming traffic stealing"@),
        ClientMessage::SeqpacketOutgoing => Some("seqpacket outgoing traffic"@),
        ClientMessage::ReverseDnsLookup => Some("reverse DNS lookup"@),
        ClientMessage::Vpn => Some("vpn"@),
        ClientMessage::PauseTargetRequest => Some("target pause"@),
        _ => None,
    }
}

/// The message for the client actor that a message of the client is, if it is one that the
/// session itself answers.
pub open spec fn session_message(message: ClientMessage) -> Option<ClientMsgView> {
    match message {
        ClientMessage::Ping => Some(ClientMsgView::Ping),
        ClientMessage::SwitchProtocolVersion(v) => Some(ClientMsgView::SwitchProtocolVersion(v@)),
        ClientMessage::ReadyForLogs => Some(ClientMsgView::ReadyForLogs),
        ClientMessage::GetEnvVarsRequest => Some(ClientMsgView::GetEnvVars),
        ClientMessage::Close => Some(ClientMsgView::CloseRequested),
        _ => match unsupported_feature(message) {
            Some(feature) => Some(ClientMsgView::NotSupported(feature)),
            None => None,
        },
    }
}

/// The request that a message of the client is, if it is one for outgoing traffic.
pub open spec fn outgoing_request(message: ClientMessage) -> Option<(Transport, LayerEvent)> {
    match message {
        ClientMessage::TcpOutgoing(m) => Some(
            (Transport::Tcp, tcp_event(m)),
        ),
        ClientMessage::UdpOutgoing(m) => Some(
            (Transport::Udp, udp_event(m)),
        ),
        _ => None,
    }
}

/// Whether a message of the client goes where it belongs.
pub open spec fn routed(message: ClientMessage, route: Route) -> bool {
    match message {
        ClientMessage::GetAddrInfoRequest(request) => route == Route::Dns(request),
        ClientMessage::GetAddrInfoRequestV2(request) => route == Route::Dns(request),
        // The operator handles these, not the agent.
        ClientMessage::OperatorPong => route == Route::Ignore,
        ClientMessage::ShareLink => route == Route::Ignore,
        _ => match outgoing_request(message) {
            Some((transport, event)) => route matches Route::Outgoing(to, way) && to == transport
                && way@ == outgoing_route(event),
            None => route matches Route::Client(m) && Some(m@) == session_message(message),
        },
    }
}

/// Routes a message of the client to the actor that handles it.
pub fn dispatch(message: ClientMessage) -> (r: Route)
    ensures
        routed(message, r),
{
    match message {
        ClientMessage::TcpOutgoing(message) => Route::Outgoing(
            Transport::Tcp,
            dispatch_outgoing(LayerEvent::from(message)),
        ),
        ClientMessage::UdpOutgoing(message) => Route::Outgoing(
            Transport::Udp,
            dispatch_outgoing(LayerEvent::from(message)),
        ),
        ClientMessage::GetAddrInfoRequest(request) => Route::Dns(request),
        ClientMessage::GetAddrInfoRequestV2(request) => Route::Dns(request),
        ClientMessage::Ping => Route::Client(ClientMsg::Ping),
        ClientMessage::SwitchProtocolVersion(version) => Route::Client(
            ClientMsg::SwitchProtocolVersion(version),
        ),
        ClientMessage::ReadyForLogs => Route::Client(ClientMsg::ReadyForLogs),
        ClientMessage::GetEnvVarsRequest => Route::Client(ClientMsg::GetEnvVars),
        ClientMessage::Close => Route::Client(ClientMsg::CloseRequested),
        // Handled exclusively by the operator.
        ClientMessage::OperatorPong => Route::Ignore,
        // Meaningless without the incoming traffic features.
        ClientMessage::ShareLink => Route::Ignore,
        ClientMessage::FileRequest(..) => not_supported("file operations"),
        ClientMessage::Tcp => not_supported("incoming traffic mirroring"),
        ClientMessage::TcpSteal => not_supported("incoming traffic stealing"),
        ClientMessage::SeqpacketOutgoing => not_supported("seqpacket outgoing traffic"),
        ClientMessage::ReverseDnsLookup => not_supported("reverse DNS lookup"),
        ClientMessage::Vpn => not_supported("vpn"),
        ClientMessage::PauseTargetRequest => not_supported("target pause"),
    }
}

fn not_supported(feature: &'static str) -> (r: Route)
    ensures
        r == Route::Client(ClientMsg::NotSupported { feature }),
{
    Route::Client(ClientMsg::NotSupported { feature })
}

/// What the reader of a client connection comes upon.
pub enum ReaderEvent {
    /// A message of the client.
    Received(ClientMessage),
    /// The connection broke.
    Failed(IoError),
    /// The connection ended.
    Ended,
    /// The actor that a message was routed to is gone, so the session is ending.
    SessionClosed,
}

/// What the reader of a client connection does.
#[derive(Debug, PartialEq, Eq)]
pub enum ReaderStep {
    /// Route a message and read on.
    Route(Route),
    /// Tell the client actor, and stop reading.
    Finish(ClientMsg),
    /// Stop reading.
    Quit,
}

/// What the reader of a client connection does with what it comes upon.
pub fn reader_task(event: ReaderEvent) -> (r: ReaderStep)
    ensures
        match event {
            ReaderEvent::Received(message) => r matches ReaderStep::Route(route) && routed(
                message,
                route,
            ),
            ReaderEvent::Failed(error) => r == ReaderStep::Finish(
                ClientMsg::ReaderFinished(Some(error)),
            ),
            ReaderEvent::Ended => r == ReaderStep::Finish(ClientMsg::ReaderFinished(None)),
            ReaderEvent::SessionClosed => r == ReaderStep::Quit,
        },
{
    match event {
        ReaderEvent::Received(message) => ReaderStep::Route(dispatch(message)),
        ReaderEvent::Failed(error) => ReaderStep::Finish(ClientMsg::ReaderFinished(Some(error))),
        ReaderEvent::Ended => ReaderStep::Finish(ClientMsg::ReaderFinished(None)),
        ReaderEvent::SessionClosed => ReaderStep::Quit,
    }
}

// ---------------------------------------------------------------------------------
// Laws
// ---------------------------------------------------------------------------------

/// Every message for a feature that this agent does not have is answered with a `Close`
/// that names the feature; a ping is answered with a pong, and a request for the
/// environment with an empty one. None of them changes the session.
pub proof fn law_session_answers(own: VersionView, s: ClientStateView, message: ClientMessage)
    ensures
        unsupported_feature(message) matches Some(feature) ==> session_message(message) is Some
            && client_step(own, s, session_message(message)->0) == (
            s,
            seq![ClientActionView::Send(DaemonMessageView::Close(not_supported_text(feature)))],
        ),
        message is Ping ==> client_step(own, s, session_message(message)->0) == (
            s,
            seq![ClientActionView::Send(DaemonMessageView::Pong)],
        ),
        message is GetEnvVarsRequest ==> client_step(own, s, session_message(message)->0) == (
            s,
            seq![ClientActionView::Send(DaemonMessageView::GetEnvVarsResponse(Seq::empty()))],
        ),
{
}

/// The state of a session after some messages, and what it did on each of them.
pub open spec fn client_run(
    own: VersionView,
    s: ClientStateView,
    messages: Seq<ClientMsgView>,
) -> (ClientStateView, Seq<Seq<ClientActionView>>)
    decreases messages.len(),
{
    if messages.len() == 0 {
        (s, Seq::empty())
    } else {
        let (before, actions) = client_run(own, s, messages.drop_last());
        let (after, then) = client_step(own, before, messages.last());
        (after, actions.push(then))
    }
}

/// The client gets no log message before it said that it is ready for them. After that, it
/// gets every one.
pub proof fn law_logs_wait_for_the_client(
    own: VersionView,
    s: ClientStateView,
    messages: Seq<ClientMsgView>,
    i: int,
)
    requires
        !s.ready_for_logs,
        0 <= i < messages.len(),
        messages[i] matches ClientMsgView::Send(m, _) && m is LogMessage,
    ensures
        ({
            let (end, actions) = client_run(own, s, messages);
            let was_ready = exists|j: int| 0 <= j < i && (#[trigger] messages[j]) is ReadyForLogs;
            &&& actions.len() == messages.len()
            &&& actions[i] == (if was_ready {
                seq![ClientActionView::Send(messages[i]->Send_0)]
            } else {
                Seq::empty()
            }) + releasing(messages[i]->Send_1)
        }),
    decreases messages.len(),
{
    lemma_ready_for_logs(own, s, messages.drop_last());
    if i < messages.len() - 1 {
        law_logs_wait_for_the_client(own, s, messages.drop_last(), i);
        let shorter = messages.drop_last();
        assert forall|j: int| 0 <= j < i implies shorter[j] == messages[j] by {}
        assert((exists|j: int| 0 <= j < i && (#[trigger] shorter[j]) is ReadyForLogs) <==> (exists|
            j: int,
        |
            0 <= j < i && (#[trigger] messages[j]) is ReadyForLogs)) by {
            if exists|j: int| 0 <= j < i && (#[trigger] messages[j]) is ReadyForLogs {
                let j = choose|j: int| 0 <= j < i && (#[trigger] messages[j]) is ReadyForLogs;
                assert(shorter[j] is ReadyForLogs);
            }
            if exists|j: int| 0 <= j < i && (#[trigger] shorter[j]) is ReadyForLogs {
                let j = choose|j: int| 0 <= j < i && (#[trigger] shorter[j]) is ReadyForLogs;
                assert(messages[j] is ReadyForLogs);
            }
        }
    } else {
        let shorter = messages.drop_last();
        if exists|j: int| 0 <= j < i && (#[trigger] messages[j]) is ReadyForLogs {
            let j = choose|j: int| 0 <= j < i && (#[trigger] messages[j]) is ReadyForLogs;
            assert(shorter[j] is ReadyForLogs);
        }
        if exists|j: int| 0 <= j < i && (#[trigger] shorter[j]) is ReadyForLogs {
            let j = choose|j: int| 0 <= j < i && (#[trigger] shorter[j]) is ReadyForLogs;
            assert(messages[j] is ReadyForLogs);
        }
    }
}

proof fn lemma_ready_for_logs(own: VersionView, s: ClientStateView, messages: Seq<ClientMsgView>)
    requires
        !s.ready_for_logs,
    ensures
        client_run(own, s, messages).1.len() == messages.len(),
        client_run(own, s, messages).0.ready_for_logs <==> exists|j: int|
            0 <= j < messages.len() && (#[trigger] messages[j]) is ReadyForLogs,
    decreases messages.len(),
{
    if messages.len() > 0 {
        let shorter = messages.drop_last();
        lemma_ready_for_logs(own, s, shorter);
        if exists|j: int| 0 <= j < shorter.len() && (#[trigger] shorter[j]) is ReadyForLogs {
            let j = choose|j: int|
                0 <= j < shorter.len() && (#[trigger] shorter[j]) is ReadyForLogs;
            assert(messages[j] is ReadyForLogs);
        } else if exists|j: int|
            0 <= j < messages.len() && (#[trigger] messages[j]) is ReadyForLogs {
            let j = choose|j: int|
                0 <= j < messages.len() && (#[trigger] messages[j]) is ReadyForLogs;
            if j < shorter.len() {
                assert(shorter[j] is ReadyForLogs);
            }
        } else {
            assert(!(messages[messages.len() - 1] is ReadyForLogs));
        }
        if messages.last() is ReadyForLogs {
            assert(messages[messages.len() - 1] is ReadyForLogs);
        }
    }
}

/// What data for the client reserved is given back once, and not before the data was written
/// and flushed; if the message is held back, its reservation is not. No other message gives
/// anything back.
pub proof fn law_a_reservation_outlives_its_message(
    own: VersionView,
    s: ClientStateView,
    message: ClientMsgView,
)
    ensures
        ({
            let actions = client_step(own, s, message).1;
            match message {
                ClientMsgView::Send(m, Some(budget)) => {
                    &&& actions.last() == ClientActionView::Release(budget)
                    &&& forall|i: int|
                        0 <= i < actions.len() - 1 ==> (#[trigger] actions[i])
                            == ClientActionView::Send(m)
                    &&& actions.len() == if m is LogMessage && !s.ready_for_logs {
                        1nat
                    } else {
                        2
                    }
                },
                _ => forall|i: int|
                    0 <= i < actions.len() ==> !((#[trigger] actions[i]) is Release),
            }
        }),
{
}

/// The request of a client means the same over both transports.
pub proof fn law_transports_route_alike(tcp: LayerTcpOutgoing, udp: LayerUdpOutgoing)
    requires
        tcp@ == udp@,
    ensures
        outgoing_route(tcp_event(tcp)) == outgoing_route(udp_event(udp)),
{
}

/// A request for outgoing traffic reaches the router of its transport as it is. A connect
/// keeps its address and its UID, and a legacy one has none; data keeps its connection and
/// its bytes, and reserves as much as there is of it; data of no bytes is the end of the
/// client's data; and a close keeps its connection.
pub proof fn law_requests_are_routed_as_they_are(
    connect: LayerConnect,
    connect_v2: LayerConnectV2,
    write: LayerWrite,
    close: LayerClose,
    udp: bool,
    route: Route,
)
    ensures
        ({
            let message = if udp {
                ClientMessage::UdpOutgoing(LayerUdpOutgoing::Connect(connect))
            } else {
                ClientMessage::TcpOutgoing(LayerTcpOutgoing::Connect(connect))
            };
            routed(message, route) ==> (route matches Route::Outgoing(
                to,
                OutgoingRoute::Cast(RouterMsg::Connect { request_uid, address }),
            ) && (to is Udp <==> udp) && request_uid is None && address
                == connect.remote_address)
        }),
        ({
            let message = if udp {
                ClientMessage::UdpOutgoing(LayerUdpOutgoing::ConnectV2(connect_v2))
            } else {
                ClientMessage::TcpOutgoing(LayerTcpOutgoing::ConnectV2(connect_v2))
            };
            routed(message, route) ==> (route matches Route::Outgoing(
                to,
                OutgoingRoute::Cast(RouterMsg::Connect { request_uid, address }),
            ) && (to is Udp <==> udp) && request_uid == Some(connect_v2.uid) && address
                == connect_v2.remote_address)
        }),
        ({
            let message = if udp {
                ClientMessage::UdpOutgoing(LayerUdpOutgoing::Write(write))
            } else {
                ClientMessage::TcpOutgoing(LayerTcpOutgoing::Write(write))
            };
            routed(message, route) ==> if chunk(write.bytes).len() > 0 {
                route matches Route::Outgoing(
                    to,
                    OutgoingRoute::ReserveAndCast { bytes, write: data },
                ) && (to is Udp <==> udp) && bytes == chunk(write.bytes).len() && data.id
                    == write.connection_id && chunk(data.bytes) == chunk(write.bytes)
            } else {
                route matches Route::Outgoing(
                    to,
                    OutgoingRoute::Cast(RouterMsg::ShutdownWrite { id }),
                ) && (to is Udp <==> udp) && id == write.connection_id
            }
        }),
        ({
            let message = if udp {
                ClientMessage::UdpOutgoing(LayerUdpOutgoing::Close(close))
            } else {
                ClientMessage::TcpOutgoing(LayerTcpOutgoing::Close(close))
            };
            routed(message, route) ==> (route matches Route::Outgoing(
                to,
                OutgoingRoute::Cast(RouterMsg::Close { id }),
            ) && (to is Udp <==> udp) && id == close.connection_id)
        }),
{
    if let Route::Outgoing(_, OutgoingRoute::Cast(message)) = route {
        match message {
            RouterMsg::Connect { .. } => {},
            RouterMsg::Write { .. } => {},
            RouterMsg::ShutdownWrite { .. } => {},
            RouterMsg::Close { .. } => {},
            RouterMsg::ConnectFinished { .. } => {},
        }
    }
}

/// Connect requests that differ in their UID or their address are routed to messages that
/// differ in it too, and so are legacy ones and those with a UID.
pub proof fn law_connects_are_told_apart(
    a: LayerEvent,
    b: LayerEvent,
)
    requires
        a is Connect,
        b is Connect,
    ensures
        outgoing_route(a) == outgoing_route(b) <==> a == b,
{
}

/// A lookup goes to the DNS actor as it is, in both of its versions; what the session answers
/// goes to the client actor; and every request for a feature that this agent does not have is
/// answered with the name of the feature, whatever it asks for in particular.
pub proof fn law_other_messages_are_routed_as_they_are(
    request: GetAddrInfoRequestV2,
    version: Version,
    file: FileRequest,
    route: Route,
)
    ensures
        routed(ClientMessage::GetAddrInfoRequest(request), route) ==> route == Route::Dns(request),
        routed(ClientMessage::GetAddrInfoRequestV2(request), route) ==> route == Route::Dns(
            request,
        ),
        routed(ClientMessage::SwitchProtocolVersion(version), route) ==> (route matches
            Route::Client(ClientMsg::SwitchProtocolVersion(v)) && v@ == version@),
        routed(ClientMessage::Ping, route) ==> (route matches Route::Client(ClientMsg::Ping)),
        routed(ClientMessage::ReadyForLogs, route) ==> (route matches Route::Client(
            ClientMsg::ReadyForLogs,
        )),
        routed(ClientMessage::GetEnvVarsRequest, route) ==> (route matches Route::Client(
            ClientMsg::GetEnvVars,
        )),
        routed(ClientMessage::Close, route) ==> (route matches Route::Client(
            ClientMsg::CloseRequested,
        )),
        routed(ClientMessage::FileRequest(file), route) ==> (route matches Route::Client(
            ClientMsg::NotSupported { feature },
        ) && feature@ == "file operations"@),
        routed(ClientMessage::OperatorPong, route) ==> route == Route::Ignore,
        routed(ClientMessage::ShareLink, route) ==> route == Route::Ignore,
{
    if let Route::Client(message) = route {
        match message {
            ClientMsg::ReaderFinished(None) => {},
            ClientMsg::ReaderFinished(Some(_)) => {},
            _ => {},
        }
    }
}

/// A session changes only by what the client says of itself: that it is ready for logs, which
/// it stays, and which version it speaks.
pub proof fn law_a_session_changes_by_what_the_client_says(
    own: VersionView,
    s: ClientStateView,
    message: ClientMsgView,
)
    ensures
        ({
            let after = client_step(own, s, message).0;
            &&& after.id == s.id
            &&& after.ready_for_logs <==> s.ready_for_logs || message is ReadyForLogs
            &&& after.protocol_version == match message {
                ClientMsgView::SwitchProtocolVersion(v) => Some(v),
                _ => s.protocol_version,
            }
        }),
{
}

/// What is to be told to the client is sent once and as it is, whatever the state of the
/// session; only log messages may have to wait. The client's version is answered with the one
/// that both settle on.
pub proof fn law_messages_are_sent_as_they_are(
    own: VersionView,
    s: ClientStateView,
    message: DaemonMessageView,
    budget: Option<BudgetPermit>,
    client: VersionView,
)
    requires
        !(message is LogMessage),
    ensures
        ({
            let actions = client_step(own, s, ClientMsgView::Send(message, budget)).1;
            &&& actions.len() > 0 && actions[0] == ClientActionView::Send(message)
            &&& forall|i: int| 0 < i < actions.len() ==> !((#[trigger] actions[i]) is Send)
        }),
        client_step(own, s, ClientMsgView::SwitchProtocolVersion(client)).1 =~= seq![
            ClientActionView::Send(
                DaemonMessageView::SwitchProtocolVersionResponse(settled(own, client)),
            ),
        ],
{
}

/// A session stops exactly when the client asks for it or disconnects, and fails exactly when
/// its connection does, saying why. Nothing is sent then.
pub proof fn law_a_session_ends_with_its_client(
    own: VersionView,
    s: ClientStateView,
    message: ClientMsgView,
    i: int,
)
    requires
        0 <= i < client_step(own, s, message).1.len(),
    ensures
        ({
            let actions = client_step(own, s, message).1;
            let asked = message is CloseRequested || message == ClientMsgView::ReaderFinished(None);
            let broken = message matches ClientMsgView::ReaderFinished(Some(_));
            &&& actions[i] is Stop <==> asked
            &&& actions[i] is Fail <==> broken
            &&& asked || broken ==> actions.len() == 1
            &&& message matches ClientMsgView::ReaderFinished(Some(error)) ==> actions[i]
                == ClientActionView::Fail("client connection failed: "@ + error.message)
        }),
        client_step(own, s, ClientMsgView::CloseRequested).1.len() == 1,
        client_step(own, s, ClientMsgView::ReaderFinished(None)).1.len() == 1,
{
}

/// Every feature that this agent does not have has a name of its own, and the farewell for
/// it tells the name.
pub proof fn law_missing_features_are_named(
    own: VersionView,
    s: ClientStateView,
    message: ClientMessage,
    route: Route,
)
    requires
        call_ensures(dispatch, (message,), route),
        unsupported_feature(message) is Some,
    ensures
        ({
            let name = match message {
                ClientMessage::FileRequest(_) => "file operations"@,
                ClientMessage::Tcp => "incoming traffic mirroring"@,
                ClientMessage::TcpSteal => "incoming traffic stealing"@,
                ClientMessage::SeqpacketOutgoing => "seqpacket outgoing traffic"@,
                ClientMessage::ReverseDnsLookup => "reverse DNS lookup"@,
                ClientMessage::Vpn => "vpn"@,
                _ => "target pause"@,
            };
            &&& route matches Route::Client(told)
            &&& client_step(own, s, told@).1 =~= seq![
                ClientActionView::Send(
                    DaemonMessageView::Close(
                        name + " is not supported by mirrord-agent-ractor"@,
                    ),
                ),
            ]
        }),
{
}

/// The features that this agent does not have are these, whatever is asked of them; all else
/// that a client says is understood.
pub proof fn law_which_features_are_missing(message: ClientMessage)
    ensures
        unsupported_feature(message) is Some <==> message is FileRequest || message is Tcp
            || message is TcpSteal || message is SeqpacketOutgoing || message is ReverseDnsLookup
            || message is Vpn || message is PauseTargetRequest,
{
}

/// A session does what it is told and nothing else. A message for the client is written as it
/// is, unless it is a log message that the client is not ready for; what was reserved for it
/// is given back after that, either way. A ping is answered with a pong, a version with the
/// one that is settled on, and a request for the environment with an empty one.
pub proof fn law_a_session_does_as_it_is_told(
    own: &Version,
    state: &mut ClientState,
    message: ClientMsg,
    r: Vec<ClientAction>,
    i: int,
)
    requires
        call_ensures(ClientActor::handle, (own, state, message), r),
        0 <= i < r@.len(),
    ensures
        r@[i] matches ClientAction::Send(written) ==> i == 0 && match message {
            ClientMsg::Send { message: given, .. } => written@ == given@ && (written
                is LogMessage ==> old(state).ready_for_logs),
            ClientMsg::Ping => written is Pong,
            ClientMsg::SwitchProtocolVersion(version) => written matches
                DaemonMessage::SwitchProtocolVersionResponse(answer) && answer@ == settled(
                own@,
                version@,
            ),
            ClientMsg::GetEnvVars => written matches DaemonMessage::GetEnvVarsResponse(vars)
                && vars@.len() == 0,
            ClientMsg::NotSupported { feature } => written matches DaemonMessage::Close(text)
                && text@ == feature@ + " is not supported by mirrord-agent-ractor"@,
            _ => false,
        },
        r@[i] matches ClientAction::Release(given_back) ==> i == r@.len() - 1 && (message matches
            ClientMsg::Send { budget: Some(budget), .. } && given_back == budget),
        r@[i] is Stop <==> message is CloseRequested || message == ClientMsg::ReaderFinished(None),
        r@[i] matches ClientAction::Fail(text) ==> (message matches ClientMsg::ReaderFinished(
            Some(error),
        ) && text@ == "client connection failed: "@ + error.message@),
{
    let said = actions_view(r@);
    assert(said.len() == r@.len());
    assert(said[i] == r@[i]@);
    if let ClientAction::Send(DaemonMessage::GetEnvVarsResponse(vars)) = r@[i] {
        let f = |v: (String, String)| (v.0@, v.1@);
        assert(vars@.map_values(f).len() == vars@.len());
    }
}

/// Nothing that a session is told is passed over, but for log messages that the client is not
/// ready for: all else that is for the client is written, what was reserved is given back, and
/// a session that is to end does.
pub proof fn law_nothing_is_passed_over(
    own: &Version,
    state: &mut ClientState,
    message: ClientMsg,
    r: Vec<ClientAction>,
)
    requires
        call_ensures(ClientActor::handle, (own, state, message), r),
    ensures
        message matches ClientMsg::Send { message: given, budget } ==> {
            let is_written = !(given is LogMessage) || old(state).ready_for_logs;
            &&& r@.len() == (if is_written {
                1int
            } else {
                0
            }) + (if budget is Some {
                1int
            } else {
                0
            })
            &&& is_written ==> r@[0] is Send
            &&& budget is Some ==> r@.last() is Release
        },
        message is Send || message is ReadyForLogs || r@.len() == 1,
        message is ReadyForLogs ==> r@.len() == 0,
        message is Ping || message is SwitchProtocolVersion || message is GetEnvVars || message
            is NotSupported ==> r@[0] is Send,
        message matches ClientMsg::ReaderFinished(Some(_)) ==> r@[0] is Fail,
        final(state).ready_for_logs <==> old(state).ready_for_logs || message is ReadyForLogs,
        final(state).id == old(state).id,
{
    let said = actions_view(r@);
    assert(said.len() == r@.len());
    if r@.len() > 0 {
        assert(said[0] == r@[0]@);
        assert(said[said.len() - 1] == r@[r@.len() - 1]@);
    }
    assert(old(state)@.ready_for_logs == old(state).ready_for_logs);
    assert(final(state)@.ready_for_logs == final(state).ready_for_logs);
    assert(final(state)@.id == final(state).id && old(state)@.id == old(state).id);
}

/// Two connect requests are routed alike only if they are the same, and what is routed is the
/// UID and the address of the request. Data is routed with its connection and its bytes, and
/// with a reservation of exactly its size; data of no bytes is the end of the client's data.
pub proof fn law_outgoing_requests_are_told_apart(
    a: LayerEvent,
    to_a: OutgoingRoute,
    b: LayerEvent,
    to_b: OutgoingRoute,
)
    requires
        call_ensures(dispatch_outgoing, (a,), to_a),
        call_ensures(dispatch_outgoing, (b,), to_b),
    ensures
        a is Connect && b is Connect ==> (to_a == to_b <==> a == b),
        a matches LayerEvent::Connect { request_uid, address } ==> to_a == OutgoingRoute::Cast(
            RouterMsg::Connect { request_uid, address },
        ),
        a matches LayerEvent::Close { id } ==> to_a == OutgoingRoute::Cast(RouterMsg::Close { id }),
        a matches LayerEvent::Write { id, bytes } ==> if chunk(bytes).len() == 0 {
            to_a == OutgoingRoute::Cast(RouterMsg::ShutdownWrite { id })
        } else {
            to_a matches OutgoingRoute::ReserveAndCast { bytes: reserve, write } && reserve
                == chunk(bytes).len() && write.id == id && chunk(write.bytes) == chunk(bytes)
        },
{
    lemma_cast(to_a);
    lemma_cast(to_b);
}

proof fn lemma_cast(route: OutgoingRoute)
    ensures
        route@ matches OutgoingRouteView::Cast(RouterMsgView::Connect { request_uid, address })
            ==> route == OutgoingRoute::Cast(RouterMsg::Connect { request_uid, address }),
        route matches OutgoingRoute::Cast(RouterMsg::Write { bytes, budget, .. }) ==> (route@
            matches OutgoingRouteView::Cast(RouterMsgView::ForConn { message, .. }) && !(message
            is Close) && !(message is ShutdownWrite)),
{
    if let OutgoingRoute::Cast(message) = route {
        match message {
            RouterMsg::Connect { .. } => {},
            RouterMsg::Write { .. } => {},
            RouterMsg::ShutdownWrite { .. } => {},
            RouterMsg::Close { .. } => {},
            RouterMsg::ConnectFinished { .. } => {},
        }
    }
}

/// Data is cast with the connection and the bytes that it had before, and with what was
/// reserved for it.
pub proof fn law_data_keeps_its_reservation(
    write: OutgoingWrite,
    budget: BudgetPermit,
    message: RouterMsg,
)
    requires
        call_ensures(OutgoingWrite::with, (write, budget), message),
    ensures
        message matches RouterMsg::Write { id, bytes, budget: with } && id == write.id && bytes
            == write.bytes && with == budget,
{
}

/// What the reader comes upon gets to the session: messages are routed, an error ends the
/// session with its text, and the end of the connection ends it well. Reading goes on exactly
/// after a message.
pub proof fn law_the_session_hears_of_the_end(
    event: ReaderEvent,
    step: ReaderStep,
    own: VersionView,
    s: ClientStateView,
)
    requires
        call_ensures(reader_task, (event,), step),
    ensures
        step is Route <==> event is Received,
        step is Quit <==> event is SessionClosed,
        step matches ReaderStep::Finish(message) ==> {
            let actions = client_step(own, s, message@).1;
            &&& actions.len() == 1
            &&& event is Ended ==> actions[0] is Stop
            &&& event matches ReaderEvent::Failed(error) ==> actions[0] == ClientActionView::Fail(
                "client connection failed: "@ + error@.message,
            )
        },
{
}

/// A session ends exactly if one of its feature actors does. The client is told that the agent
/// failed and why, and the session fails with a text that names the actor.
pub proof fn law_a_feature_takes_its_session_along(event: FeatureEnd, end: Option<SessionEnd>)
    requires
        call_ensures(ClientActor::handle_supervisor_evt, (event,), end),
    ensures
        end is None <==> event is Other,
        end matches Some(session) ==> session.farewell is Close,
        event matches FeatureEnd::Failed { name: Some(name), error } ==> (end matches Some(session)
            && session.farewell@ == DaemonMessageView::Close(
            "agent failed serving this session: "@ + error@,
        ) && session.error@ == "feature actor "@ + name@ + " failed: "@ + error@),
        event matches FeatureEnd::Terminated { name: Some(name), reason } ==> (end matches Some(
            session,
        ) && session.farewell@ == DaemonMessageView::Close(
            "agent failed serving this session: "@ + session.error@,
        ) && session.error@ == "feature actor "@ + name@ + " stopped unexpectedly (reason: "@
            + reason@ + ")"@),
{
}

/// A new session has heard nothing of its client yet, its two directions have budgets of their
/// own, and no two sessions have actors of the same name.
pub proof fn law_sessions_start_afresh(
    a: ClientId,
    of_a: Session,
    b: ClientId,
    of_b: Session,
)
    requires
        call_ensures(ClientActor::pre_start, (a,), of_a),
        call_ensures(ClientActor::pre_start, (b,), of_b),
    ensures
        of_a.state.id == a,
        !of_a.state.ready_for_logs,
        of_a.state.protocol_version is None,
        of_a.to_client_budget.limit() == 512 * 1024,
        of_a.from_client_budget.limit() == 512 * 1024,
        of_a.to_client_budget.semaphore() != of_a.from_client_budget.semaphore(),
        of_a.names.dns@ == of_b.names.dns@ <==> a == b,
        of_a.names.tcp_outgoing@ == of_b.names.tcp_outgoing@ <==> a == b,
        of_a.names.udp_outgoing@ == of_b.names.udp_outgoing@ <==> a == b,
        of_a.names.dns@ == "client-"@ + decimal(a as nat) + ".dns"@,
        of_a.names.tcp_outgoing@ == "client-"@ + decimal(a as nat) + ".tcp-out"@,
        of_a.names.udp_outgoing@ == "client-"@ + decimal(a as nat) + ".udp-out"@,
{
    assert(of_a.state@.id == a && of_a.state@.protocol_version is None);
    law_numbers_have_their_own_text(a as nat, b as nat);
    lemma_same_inside("client-"@, decimal(a as nat), decimal(b as nat), ".dns"@);
    lemma_same_inside("client-"@, decimal(a as nat), decimal(b as nat), ".tcp-out"@);
    lemma_same_inside("client-"@, decimal(a as nat), decimal(b as nat), ".udp-out"@);
}

proof fn lemma_same_inside(before: Seq<char>, a: Seq<char>, b: Seq<char>, after: Seq<char>)
    ensures
        before + a + after == before + b + after <==> a == b,
{
    let with_a = before + a + after;
    let with_b = before + b + after;
    assert(with_a.subrange(before.len() as int, with_a.len() - after.len()) =~= a);
    assert(with_b.subrange(before.len() as int, with_b.len() - after.len()) =~= b);
}

/// A session that stops tells why: that the client closed it, or that the client is gone.
pub proof fn law_a_stop_has_a_reason(own: VersionView, s: ClientStateView)
    ensures
        client_step(own, s, ClientMsgView::CloseRequested).1 =~= seq![
            ClientActionView::Stop("client sent Close"@),
        ],
        client_step(own, s, ClientMsgView::ReaderFinished(None)).1 =~= seq![
            ClientActionView::Stop("client disconnected"@),
        ],
{
}

} // verus!
