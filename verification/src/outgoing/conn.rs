//! One outgoing connection.
//!
//! The connection decides what the client is told and when the connection ends; the
//! sockets and tasks that it speaks of are held by whoever performs its actions.
//!
//! ## Close protocol
//!
//! * The peer closed its write side: an empty `Read` to the client, the connection stays
//!   half-open for client writes.
//! * The client sent an empty write: the write side is shut down, the connection stays
//!   half-open for peer reads.
//! * Both sides closed, or any IO error: `Close` to the client and the connection stops.
//!   Errors are additionally surfaced as a log message, because the protocol has no error
//!   variant for established connections.

use crate::budget::BudgetPermit;
use crate::chunk::chunk;
use crate::outgoing::{
    message_of, transport_name, DaemonEvent, OutgoingFlavor, Transport,
};
use crate::protocol::{
    timed_out, ConnectionId, DaemonConnect, DaemonMessage, DaemonMessageView, DaemonOutgoingView,
    IoError, IoErrorKindView, IoErrorView, LogLevel, LogMessage, ResponseErrorView, SocketAddress,
    Uid,
};
use crate::text::{decimal, numbered};
use bytes::Bytes;
use std::marker::PhantomData;
use vstd::prelude::*;

verus! {

/// Timeout for dialing the peer, in seconds.
pub const CONNECT_TIMEOUT_SECS: u64 = 5;

/// Timeout for writing a single chunk to the peer, in seconds.
pub const WRITE_TIMEOUT_SECS: u64 = 30;

/// What a connection is told.
#[derive(Debug, PartialEq, Eq)]
pub enum ConnMsg {
    /// Relay a chunk from the client to the peer. The reservation is given back after the
    /// chunk was written.
    Write { bytes: Bytes, budget: BudgetPermit },
    /// The client shut down its write direction (sent an empty write).
    ShutdownWrite,
    /// The client closed the connection; tear down silently.
    Close,
    /// The reader saw the end of the peer's data.
    PeerClosed,
    /// The reader saw an IO error.
    PeerFailed(IoError),
}

pub enum ConnMsgView {
    Write(Seq<u8>, BudgetPermit),
    ShutdownWrite,
    Close,
    PeerClosed,
    PeerFailed(IoErrorView),
}

impl View for ConnMsg {
    type V = ConnMsgView;

    open spec fn view(&self) -> ConnMsgView {
        match self {
            ConnMsg::Write { bytes, budget } => ConnMsgView::Write(chunk(*bytes), *budget),
            ConnMsg::ShutdownWrite => ConnMsgView::ShutdownWrite,
            ConnMsg::Close => ConnMsgView::Close,
            ConnMsg::PeerClosed => ConnMsgView::PeerClosed,
            ConnMsg::PeerFailed(error) => ConnMsgView::PeerFailed(error@),
        }
    }
}

/// What a connection is started with.
#[derive(Debug, PartialEq, Eq)]
pub struct ConnArgs {
    pub id: ConnectionId,
    /// `Some` for `ConnectV2` requests, `None` for legacy ordered requests.
    pub request_uid: Option<Uid>,
    pub address: SocketAddress,
}

#[derive(Debug, PartialEq, Eq)]
pub struct ConnState {
    pub id: ConnectionId,
    pub request_uid: Option<Uid>,
    /// The peer to dial, until it is dialed.
    pub address: Option<SocketAddress>,
    /// Whether the write side is open: not until connected, and not after it is shut
    /// down.
    pub writable: bool,
    /// Whether the reader runs: not until connected, and not after the peer closed its
    /// side (or failed).
    pub reading: bool,
}

/// The two addresses of a freshly established connection.
#[derive(Debug, PartialEq, Eq)]
pub struct Established {
    pub local_address: SocketAddress,
    pub peer_address: SocketAddress,
}

/// What is to be done for a connection. Each action is over, in whatever way, before the next
/// is begun.
#[derive(Debug, PartialEq, Eq)]
pub enum ConnAction {
    /// Send a message to the client; if that fails, so does the connection.
    Send(DaemonMessage),
    /// Send a message to the client, if there still is one.
    TrySend(DaemonMessage),
    /// Tell the router that the dial attempt finished; if that fails, so does the
    /// connection.
    NotifyRouter { id: ConnectionId, request_uid: Option<Uid>, connected: bool },
    /// Start relaying what the peer sends.
    StartReader,
    /// Stop relaying what the peer sends.
    AbortReader,
    /// Let go of the write side.
    DropWriter,
    /// Write a chunk to the peer.
    WritePeer(Bytes),
    /// Shut down the write side, which the connection has let go of.
    ShutdownPeer,
    /// Give a reservation back to its budget.
    Release(BudgetPermit),
    /// Stop, for this reason.
    Stop(&'static str),
}

pub enum ConnActionView {
    Send(DaemonMessageView),
    TrySend(DaemonMessageView),
    NotifyRouter { id: ConnectionId, request_uid: Option<Uid>, connected: bool },
    StartReader,
    AbortReader,
    DropWriter,
    WritePeer(Seq<u8>),
    ShutdownPeer,
    Release(BudgetPermit),
    Stop(Seq<char>),
}

impl View for ConnAction {
    type V = ConnActionView;

    open spec fn view(&self) -> ConnActionView {
        match self {
            ConnAction::Send(m) => ConnActionView::Send(m@),
            ConnAction::TrySend(m) => ConnActionView::TrySend(m@),
            ConnAction::NotifyRouter { id, request_uid, connected } =>
                ConnActionView::NotifyRouter {
                id: *id,
                request_uid: *request_uid,
                connected: *connected,
            },
            ConnAction::StartReader => ConnActionView::StartReader,
            ConnAction::AbortReader => ConnActionView::AbortReader,
            ConnAction::DropWriter => ConnActionView::DropWriter,
            ConnAction::WritePeer(bytes) => ConnActionView::WritePeer(chunk(*bytes)),
            ConnAction::ShutdownPeer => ConnActionView::ShutdownPeer,
            ConnAction::Release(budget) => ConnActionView::Release(*budget),
            ConnAction::Stop(reason) => ConnActionView::Stop(reason@),
        }
    }
}

/// What a list of actions says.
pub open spec fn actions_view(actions: Seq<ConnAction>) -> Seq<ConnActionView> {
    actions.map_values(|a: ConnAction| a@)
}

/// What happens to a connection, in the order in which it happens.
pub enum ConnEvent {
    /// The dial attempt finished, or took too long (`None`).
    Dialed(Option<Result<Established, IoErrorView>>),
    Message(ConnMsgView),
    /// Writing a chunk finished, or took too long (`None`).
    Written(Option<Result<(), IoErrorView>>),
    /// Shutting down the write side finished.
    WriteShutDown(Result<(), IoErrorView>),
}

/// The outcome of an operation with a timeout: taking too long is an error like any
/// other.
pub open spec fn in_time<T>(outcome: Option<Result<T, IoErrorView>>) -> Result<T, IoErrorView> {
    match outcome {
        Some(result) => result,
        None => Err(timed_out()),
    }
}

/// The log message for an established connection that failed.
pub open spec fn failure_log(transport: Transport, id: ConnectionId, error: Seq<char>) -> Seq<
    char,
> {
    "outgoing connection "@ + decimal(id as nat) + " failed: "@ + error + " ("@ + transport_name(
        transport,
    ) + ")"@
}

/// The client is told to forget the connection, and the connection stops.
pub open spec fn closing(transport: Transport, id: ConnectionId) -> Seq<ConnActionView> {
    seq![
        ConnActionView::TrySend(message_of(transport, DaemonOutgoingView::Close(id))),
        ConnActionView::Stop("connection closed"@),
    ]
}

/// Both sides are let go of, the client is told why, and the connection closes.
pub open spec fn failing(transport: Transport, id: ConnectionId, error: IoErrorView) -> Seq<
    ConnActionView,
> {
    seq![
        ConnActionView::AbortReader,
        ConnActionView::DropWriter,
        ConnActionView::TrySend(
            DaemonMessageView::LogMessage(
                LogLevel::Warn,
                failure_log(transport, id, error.message),
            ),
        ),
    ] + closing(transport, id)
}

/// What a connection does on an event, and the state that it is in afterwards.
pub open spec fn conn_step(transport: Transport, s: ConnState, event: ConnEvent) -> (
    ConnState,
    Seq<ConnActionView>,
) {
    let failed = ConnState { writable: false, reading: false, ..s };
    match event {
        ConnEvent::Dialed(outcome) => match in_time(outcome) {
            Ok(addresses) => (
                ConnState { writable: true, reading: true, ..s },
                seq![
                    ConnActionView::Send(
                        message_of(
                            transport,
                            DaemonOutgoingView::Connect(
                                s.request_uid,
                                Ok(
                                    DaemonConnect {
                                        connection_id: s.id,
                                        remote_address: addresses.peer_address,
                                        local_address: addresses.local_address,
                                    },
                                ),
                            ),
                        ),
                    ),
                    ConnActionView::NotifyRouter {
                        id: s.id,
                        request_uid: s.request_uid,
                        connected: true,
                    },
                    ConnActionView::StartReader,
                ],
            ),
            Err(error) => (
                s,
                seq![
                    ConnActionView::Send(
                        message_of(
                            transport,
                            DaemonOutgoingView::Connect(
                                s.request_uid,
                                Err(ResponseErrorView::RemoteIo(error)),
                            ),
                        ),
                    ),
                    ConnActionView::NotifyRouter {
                        id: s.id,
                        request_uid: s.request_uid,
                        connected: false,
                    },
                    ConnActionView::Stop("connect failed"@),
                ],
            ),
        },
        ConnEvent::Message(ConnMsgView::Write(bytes, budget)) => (
            s,
            if s.writable {
                seq![ConnActionView::WritePeer(bytes), ConnActionView::Release(budget)]
            } else {
                seq![ConnActionView::Release(budget)]
            },
        ),
        ConnEvent::Written(outcome) => match in_time(outcome) {
            Ok(()) => (s, Seq::empty()),
            Err(error) => (failed, failing(transport, s.id, error)),
        },
        ConnEvent::Message(ConnMsgView::ShutdownWrite) => (
            ConnState { writable: false, ..s },
            if s.writable {
                seq![ConnActionView::ShutdownPeer]
            } else {
                Seq::empty()
            },
        ),
        ConnEvent::WriteShutDown(Ok(())) => (
            s,
            if s.reading {
                Seq::empty()
            } else {
                closing(transport, s.id)
            },
        ),
        ConnEvent::WriteShutDown(Err(error)) => (failed, failing(transport, s.id, error)),
        ConnEvent::Message(ConnMsgView::Close) => (
            s,
            seq![ConnActionView::Stop("closed by the client"@)],
        ),
        ConnEvent::Message(ConnMsgView::PeerClosed) => (
            ConnState { reading: false, ..s },
            seq![ConnActionView::AbortReader] + if s.writable {
                seq![
                    ConnActionView::Send(
                        message_of(transport, DaemonOutgoingView::Read(Ok((s.id, Seq::empty())))),
                    ),
                ]
            } else {
                closing(transport, s.id)
            },
        ),
        ConnEvent::Message(ConnMsgView::PeerFailed(error)) => (
            failed,
            failing(transport, s.id, error),
        ),
    }
}

/// The actor that owns one outgoing connection.
pub struct OutgoingConnActor<F>(pub PhantomData<F>);

/// What the reader of a connection does with what it read.
#[derive(Debug, PartialEq, Eq)]
pub enum ReaderAction {
    /// Reserve this many bytes of the memory budget, then send the message to the
    /// client with the reservation.
    Relay { reserve: usize, message: DaemonMessage },
    /// Tell the connection, and stop reading.
    Report(ConnMsg),
}

fn unless_late<T>(outcome: Option<Result<T, IoError>>) -> (r: Result<T, IoError>)
    ensures
        match r {
            Ok(value) => outcome == Some(Ok::<T, IoError>(value)),
            Err(e) => match outcome {
                Some(Err(error)) => e == error,
                Some(Ok(_)) => false,
                None => e@ == timed_out(),
            },
        },
{
    match outcome {
        Some(result) => result,
        None => Err(IoError::timed_out()),
    }
}

/// An outcome as specifications speak of it.
pub open spec fn outcome_view<T>(outcome: Option<Result<T, IoError>>) -> Option<
    Result<T, IoErrorView>,
> {
    match outcome {
        Some(Ok(value)) => Some(Ok(value)),
        Some(Err(e)) => Some(Err(e@)),
        None => None,
    }
}

impl<F: OutgoingFlavor> OutgoingConnActor<F> {
    /// What the reader does with the outcome of a read. Every chunk reserves its size of
    /// the memory budget before it is sent, so a fast peer is paused instead of
    /// ballooning the client's mailbox.
    pub fn reader_task(id: ConnectionId, read: Result<Option<Bytes>, IoError>) -> (r: ReaderAction)
        ensures
            match read {
                Ok(Some(bytes)) => r matches ReaderAction::Relay { reserve, message } && reserve
                    == chunk(bytes).len() && message@ == message_of(
                    F::transport(),
                    DaemonOutgoingView::Read(Ok((id, chunk(bytes)))),
                ),
                Ok(None) => r == ReaderAction::Report(ConnMsg::PeerClosed),
                Err(error) => r == ReaderAction::Report(ConnMsg::PeerFailed(error)),
            },
    {
        match read {
            Ok(Some(bytes)) => {
                let reserve: usize = bytes.len();
                ReaderAction::Relay {
                    reserve,
                    message: F::daemon_message(DaemonEvent::Read(id, bytes)),
                }
            },
            Ok(None) => ReaderAction::Report(ConnMsg::PeerClosed),
            Err(error) => ReaderAction::Report(ConnMsg::PeerFailed(error)),
        }
    }

    /// Common teardown for IO failures: the reader is silenced first so that no more peer
    /// data can be queued behind the `Close`, then the client is told.
    fn fail(state: &mut ConnState, error: IoError) -> (r: Vec<ConnAction>)
        ensures
            *final(state) == (ConnState { writable: false, reading: false, ..*old(state) }),
            actions_view(r@) == failing(F::transport(), old(state).id, error@),
    {
        state.reading = false;
        state.writable = false;
        let mut text = numbered("outgoing connection ", state.id as u128, " failed: ");
        text.append(error.message.as_str());
        text.append(" (");
        text.append(F::name());
        text.append(")");
        let mut actions: Vec<ConnAction> = Vec::new();
        actions.push(ConnAction::AbortReader);
        actions.push(ConnAction::DropWriter);
        actions.push(ConnAction::TrySend(DaemonMessage::LogMessage(LogMessage::warn(text))));
        Self::close_and_stop(state, &mut actions);
        assert(actions_view(actions@) =~= failing(F::transport(), old(state).id, error@));
        actions
    }

    fn close_and_stop(state: &ConnState, actions: &mut Vec<ConnAction>)
        ensures
            actions_view(final(actions)@) == actions_view(old(actions)@) + closing(
                F::transport(),
                state.id,
            ),
    {
        actions.push(ConnAction::TrySend(F::daemon_message(DaemonEvent::Close(state.id))));
        actions.push(ConnAction::Stop("connection closed"));
        assert(actions_view(actions@) =~= actions_view(old(actions)@) + closing(
            F::transport(),
            state.id,
        ));
    }

    pub fn pre_start(args: ConnArgs) -> (r: ConnState)
        ensures
            r == (ConnState {
                id: args.id,
                request_uid: args.request_uid,
                address: Some(args.address),
                writable: false,
                reading: false,
            }),
    {
        ConnState {
            id: args.id,
            request_uid: args.request_uid,
            address: Some(args.address),
            writable: false,
            reading: false,
        }
    }

    /// The peer to dial. It is only consumed here, once.
    pub fn dial(state: &mut ConnState) -> (r: SocketAddress)
        requires
            old(state).address is Some,
        ensures
            Some(r) == old(state).address,
            *final(state) == (ConnState { address: None, ..*old(state) }),
    {
        let address = state.address.take();
        match address {
            Some(address) => address,
            None => vstd::pervasive::unreached(),
        }
    }

    /// Answers the connect request. The answer comes before the reader starts, so it
    /// reaches the client before any `Read` or `Close` of the same connection.
    pub fn post_start(
        state: &mut ConnState,
        connected: Option<Result<Established, IoError>>,
    ) -> (r: Vec<ConnAction>)
        ensures
            (*final(state), actions_view(r@)) == conn_step(
                F::transport(),
                *old(state),
                ConnEvent::Dialed(outcome_view(connected)),
            ),
    {
        let mut actions: Vec<ConnAction> = Vec::new();
        match unless_late(connected) {
            Ok(addresses) => {
                actions.push(
                    ConnAction::Send(
                        F::daemon_message(
                            DaemonEvent::ConnectOk {
                                uid: state.request_uid,
                                id: state.id,
                                local_address: addresses.local_address,
                                peer_address: addresses.peer_address,
                            },
                        ),
                    ),
                );
                actions.push(
                    ConnAction::NotifyRouter {
                        id: state.id,
                        request_uid: state.request_uid,
                        connected: true,
                    },
                );
                actions.push(ConnAction::StartReader);
                state.reading = true;
                state.writable = true;
            },
            Err(error) => {
                actions.push(
                    ConnAction::Send(
                        F::daemon_message(
                            DaemonEvent::ConnectErr { uid: state.request_uid, error },
                        ),
                    ),
                );
                actions.push(
                    ConnAction::NotifyRouter {
                        id: state.id,
                        request_uid: state.request_uid,
                        connected: false,
                    },
                );
                actions.push(ConnAction::Stop("connect failed"));
            },
        }
        assert(actions_view(actions@) =~= conn_step(
            F::transport(),
            *old(state),
            ConnEvent::Dialed(outcome_view(connected)),
        ).1);
        actions
    }

    pub fn handle(state: &mut ConnState, message: ConnMsg) -> (r: Vec<ConnAction>)
        ensures
            (*final(state), actions_view(r@)) == conn_step(
                F::transport(),
                *old(state),
                ConnEvent::Message(message@),
            ),
    {
        let mut actions: Vec<ConnAction> = Vec::new();
        match message {
            ConnMsg::Write { bytes, budget } => {
                // A write can legitimately race with write-side teardown; the chunk is
                // dropped.
                if state.writable {
                    actions.push(ConnAction::WritePeer(bytes));
                }
                actions.push(ConnAction::Release(budget));
            },
            ConnMsg::ShutdownWrite => {
                if state.writable {
                    state.writable = false;
                    actions.push(ConnAction::ShutdownPeer);
                }
            },
            ConnMsg::Close => {
                actions.push(ConnAction::Stop("closed by the client"));
            },
            ConnMsg::PeerClosed => {
                state.reading = false;
                actions.push(ConnAction::AbortReader);
                if state.writable {
                    actions.push(
                        ConnAction::Send(
                            F::daemon_message(DaemonEvent::Read(state.id, Bytes::new())),
                        ),
                    );
                } else {
                    assert(actions_view(actions@) =~= seq![ConnActionView::AbortReader]);
                    Self::close_and_stop(state, &mut actions);
                }
            },
            ConnMsg::PeerFailed(error) => {
                return Self::fail(state, error);
            },
        }
        assert(actions_view(actions@) =~= conn_step(
            F::transport(),
            *old(state),
            ConnEvent::Message(message@),
        ).1);
        actions
    }

    /// What follows a write to the peer.
    pub fn written(state: &mut ConnState, result: Option<Result<(), IoError>>) -> (r: Vec<
        ConnAction,
    >)
        ensures
            (*final(state), actions_view(r@)) == conn_step(
                F::transport(),
                *old(state),
                ConnEvent::Written(outcome_view(result)),
            ),
    {
        match unless_late(result) {
            Ok(()) => {
                let actions: Vec<ConnAction> = Vec::new();
                assert(actions_view(actions@) =~= Seq::empty());
                actions
            },
            Err(error) => Self::fail(state, error),
        }
    }

    /// What follows the shutdown of the write side.
    pub fn write_shut_down(state: &mut ConnState, result: Result<(), IoError>) -> (r: Vec<
        ConnAction,
    >)
        ensures
            (*final(state), actions_view(r@)) == conn_step(
                F::transport(),
                *old(state),
                ConnEvent::WriteShutDown(
                    match result {
                        Ok(()) => Ok(()),
                        Err(e) => Err(e@),
                    },
                ),
            ),
    {
        match result {
            Ok(()) => {
                let mut actions: Vec<ConnAction> = Vec::new();
                assert(actions_view(actions@) =~= Seq::empty());
                if !state.reading {
                    Self::close_and_stop(state, &mut actions);
                    assert(actions_view(actions@) =~= closing(F::transport(), state.id));
                }
                actions
            },
            Err(error) => Self::fail(state, error),
        }
    }
}

// ---------------------------------------------------------------------------------
// Laws
// ---------------------------------------------------------------------------------

/// One message with everything that follows from it: the message is handled, and if it
/// asks for IO, so is the outcome `io` of that IO.
pub open spec fn conn_process(
    transport: Transport,
    s: ConnState,
    message: ConnMsgView,
    io: Option<Result<(), IoErrorView>>,
) -> (ConnState, Seq<ConnActionView>) {
    let (after, actions) = conn_step(transport, s, ConnEvent::Message(message));
    if actions.contains(ConnActionView::ShutdownPeer) {
        let (end, more) = conn_step(transport, after, ConnEvent::WriteShutDown(in_time(io)));
        (end, actions + more)
    } else if message is Write && s.writable {
        let (end, more) = conn_step(transport, after, ConnEvent::Written(io));
        (end, actions + more)
    } else {
        (after, actions)
    }
}

/// Whether one of the actions stops the connection.
pub open spec fn stops(actions: Seq<ConnActionView>) -> bool {
    exists|i: int| 0 <= i < actions.len() && (#[trigger] actions[i]) is Stop
}

/// The message that an action sends to the client, if it sends one.
pub open spec fn sent(action: ConnActionView) -> Option<DaemonMessageView> {
    match action {
        ConnActionView::Send(m) => Some(m),
        ConnActionView::TrySend(m) => Some(m),
        _ => None,
    }
}

pub open spec fn sends_close(transport: Transport, id: ConnectionId, action: ConnActionView) -> bool {
    sent(action) == Some(message_of(transport, DaemonOutgoingView::Close(id)))
}

/// Whether an action answers a connect request.
pub open spec fn answers_connect(transport: Transport, action: ConnActionView) -> bool {
    exists|uid: Option<Uid>, result: Result<DaemonConnect, ResponseErrorView>|
        sent(action) == Some(
            #[trigger] message_of(transport, DaemonOutgoingView::Connect(uid, result)),
        )
}

/// Handles messages, each with the outcome of its IO, until one of them stops the
/// connection.
pub open spec fn conn_run(
    transport: Transport,
    s: ConnState,
    messages: Seq<(ConnMsgView, Option<Result<(), IoErrorView>>)>,
) -> (ConnState, Seq<ConnActionView>)
    decreases messages.len(),
{
    if messages.len() == 0 {
        (s, Seq::empty())
    } else {
        let (before, actions) = conn_run(transport, s, messages.drop_last());
        if stops(actions) {
            (before, actions)
        } else {
            let (end, more) = conn_process(
                transport,
                before,
                messages.last().0,
                messages.last().1,
            );
            (end, actions + more)
        }
    }
}

/// The whole life of a connection: it is dialed and, once connected, handles messages.
pub open spec fn conn_life(
    transport: Transport,
    args: ConnArgs,
    dialed: Option<Result<Established, IoErrorView>>,
    messages: Seq<(ConnMsgView, Option<Result<(), IoErrorView>>)>,
) -> Seq<ConnActionView> {
    let start = ConnState {
        id: args.id,
        request_uid: args.request_uid,
        address: None,
        writable: false,
        reading: false,
    };
    let (connected, answer) = conn_step(transport, start, ConnEvent::Dialed(dialed));
    if stops(answer) {
        answer
    } else {
        answer + conn_run(transport, connected, messages).1
    }
}

/// A connection with an open side stays so until it stops. It stops on the client's
/// `Close`, without a word to the client, and otherwise exactly when no side is left
/// open, by telling the client to forget the connection; that is the last thing it
/// tells the client.
pub proof fn law_close_protocol(
    transport: Transport,
    s: ConnState,
    message: ConnMsgView,
    io: Option<Result<(), IoErrorView>>,
)
    requires
        s.writable || s.reading,
    ensures
        ({
            let (end, actions) = conn_process(transport, s, message, io);
            &&& message is Close ==> actions == seq![ConnActionView::Stop("closed by the client"@)]
            &&& !(message is Close) ==> (stops(actions) <==> !end.writable && !end.reading)
            &&& !(message is Close) && stops(actions) ==> actions.len() >= 2 && sends_close(
                transport,
                s.id,
                actions[actions.len() - 2],
            ) && actions.last() is Stop
            &&& forall|i: int|
                0 <= i < actions.len() && #[trigger] sends_close(transport, s.id, actions[i])
                    ==> i == actions.len() - 2 && actions.last() is Stop
            &&& forall|i: int|
                0 <= i < actions.len() ==> !#[trigger] answers_connect(transport, actions[i])
            &&& end.id == s.id
        }),
{
    let (after, actions) = conn_step(transport, s, ConnEvent::Message(message));
    let (end, all) = conn_process(transport, s, message, io);
    if message is ShutdownWrite && s.writable {
        assert(actions[0] == ConnActionView::ShutdownPeer);
    }
    assert(!(message is ShutdownWrite) ==> !actions.contains(ConnActionView::ShutdownPeer));
    if !(message is Close) && !end.writable && !end.reading {
        assert(all.last() is Stop);
        assert(stops(all));
    }
}

/// In any run of a connected connection, a side of it is open until it stops, and nothing
/// comes after the `Close` but the end. No connect request is answered again.
pub proof fn law_run_keeps_a_side_open(
    transport: Transport,
    s: ConnState,
    messages: Seq<(ConnMsgView, Option<Result<(), IoErrorView>>)>,
)
    requires
        s.writable || s.reading,
    ensures
        ({
            let (end, actions) = conn_run(transport, s, messages);
            &&& end.id == s.id
            &&& !stops(actions) ==> end.writable || end.reading
            &&& forall|i: int|
                0 <= i < actions.len() && #[trigger] sends_close(transport, s.id, actions[i])
                    ==> i == actions.len() - 2 && actions.last() is Stop
            &&& forall|i: int|
                0 <= i < actions.len() ==> !#[trigger] answers_connect(transport, actions[i])
        }),
    decreases messages.len(),
{
    if messages.len() > 0 {
        law_run_keeps_a_side_open(transport, s, messages.drop_last());
        let (before, actions) = conn_run(transport, s, messages.drop_last());
        if !stops(actions) {
            let (message, io) = messages.last();
            law_close_protocol(transport, before, message, io);
            let (end, more) = conn_process(transport, before, message, io);
            let all = actions + more;
            assert forall|i: int|
                0 <= i < all.len() && #[trigger] sends_close(transport, s.id, all[i]) implies i
                == all.len() - 2 && all.last() is Stop by {
                if i < actions.len() {
                    assert(sends_close(transport, s.id, actions[i]));
                    assert(actions[actions.len() - 1] is Stop);
                } else {
                    assert(sends_close(transport, s.id, more[i - actions.len()]));
                }
            }
            assert forall|i: int| 0 <= i < all.len() implies !#[trigger] answers_connect(
                transport,
                all[i],
            ) by {
                if i < actions.len() {
                    assert(!answers_connect(transport, actions[i]));
                } else {
                    assert(!answers_connect(transport, more[i - actions.len()]));
                }
            }
            if !stops(all) {
                assert forall|i: int| 0 <= i < more.len() implies !((#[trigger] more[i]) is Stop) by {
                    assert(all[actions.len() + i] == more[i]);
                }
                assert(!(message is Close)) by {
                    if message is Close {
                        assert(more[0] is Stop);
                    }
                }
            }
        }
    }
}

/// No data of the peer comes after the `Close`: when the client is told to forget the
/// connection, the reader does not run any more.
pub proof fn law_the_reader_is_silenced_before_close(
    transport: Transport,
    s: ConnState,
    message: ConnMsgView,
    io: Option<Result<(), IoErrorView>>,
    i: int,
)
    requires
        0 <= i < conn_process(transport, s, message, io).1.len(),
        sends_close(transport, s.id, conn_process(transport, s, message, io).1[i]),
    ensures
        ({
            let (end, actions) = conn_process(transport, s, message, io);
            &&& !end.reading
            &&& s.reading ==> exists|j: int|
                0 <= j < i && (#[trigger] actions[j]) is AbortReader
        }),
{
    let (after, first) = conn_step(transport, s, ConnEvent::Message(message));
    let (end, actions) = conn_process(transport, s, message, io);
    if message is ShutdownWrite && s.writable {
        assert(first[0] == ConnActionView::ShutdownPeer);
    }
    assert(!(message is ShutdownWrite) ==> !first.contains(ConnActionView::ShutdownPeer));
    if s.reading {
        if message is PeerClosed || message is PeerFailed {
            assert(actions[0] is AbortReader);
        } else if message is Write {
            assert(actions[2] is AbortReader);
        } else {
            assert(actions[1] is AbortReader);
        }
    }
}

/// The reservation of a chunk is given back once, whatever becomes of the chunk: after the
/// write to the peer, if the chunk is written, and at once if it is dropped. No other message
/// gives anything back.
pub proof fn law_a_reservation_outlives_its_write(
    transport: Transport,
    s: ConnState,
    message: ConnMsgView,
    io: Option<Result<(), IoErrorView>>,
)
    ensures
        ({
            let (end, actions) = conn_process(transport, s, message, io);
            match message {
                ConnMsgView::Write(bytes, budget) => {
                    let at = if s.writable {
                        1int
                    } else {
                        0
                    };
                    &&& at < actions.len() && actions[at] == ConnActionView::Release(budget)
                    &&& s.writable ==> actions[0] == ConnActionView::WritePeer(bytes)
                    &&& forall|i: int|
                        0 <= i < actions.len() && (#[trigger] actions[i]) is Release ==> i == at
                    &&& forall|i: int|
                        0 <= i < actions.len() && (#[trigger] actions[i]) is WritePeer ==> i < at
                },
                _ => forall|i: int|
                    0 <= i < actions.len() ==> !((#[trigger] actions[i]) is Release) && !(actions[i]
                        is WritePeer),
            }
        }),
{
    let (after, first) = conn_step(transport, s, ConnEvent::Message(message));
    if message is ShutdownWrite && s.writable {
        assert(first[0] == ConnActionView::ShutdownPeer);
    }
    assert(!(message is ShutdownWrite) ==> !first.contains(ConnActionView::ShutdownPeer));
}

/// The client gets exactly one answer to its connect request, before anything else about
/// the connection; and after being told `Close` it hears nothing more of it.
pub proof fn law_one_answer_first_and_close_last(
    transport: Transport,
    args: ConnArgs,
    dialed: Option<Result<Established, IoErrorView>>,
    messages: Seq<(ConnMsgView, Option<Result<(), IoErrorView>>)>,
)
    ensures
        ({
            let actions = conn_life(transport, args, dialed, messages);
            &&& actions.len() > 0
            &&& sent(actions[0]) == Some(
                message_of(
                    transport,
                    DaemonOutgoingView::Connect(
                        args.request_uid,
                        match in_time(dialed) {
                            Ok(addresses) => Ok(
                                DaemonConnect {
                                    connection_id: args.id,
                                    remote_address: addresses.peer_address,
                                    local_address: addresses.local_address,
                                },
                            ),
                            Err(error) => Err(ResponseErrorView::RemoteIo(error)),
                        },
                    ),
                ),
            )
            &&& forall|i: int|
                0 < i < actions.len() ==> !#[trigger] answers_connect(transport, actions[i])
            &&& forall|i: int|
                0 <= i < actions.len() && #[trigger] sends_close(transport, args.id, actions[i])
                    ==> i == actions.len() - 2 && actions.last() is Stop
        }),
{
    let start = ConnState {
        id: args.id,
        request_uid: args.request_uid,
        address: None,
        writable: false,
        reading: false,
    };
    let (connected, answer) = conn_step(transport, start, ConnEvent::Dialed(dialed));
    if in_time(dialed) is Err {
        assert(answer[2] is Stop);
    } else {
        law_run_keeps_a_side_open(transport, connected, messages);
        let (end, more) = conn_run(transport, connected, messages);
        let all = answer + more;
        assert forall|i: int| 0 < i < all.len() implies !#[trigger] answers_connect(
            transport,
            all[i],
        ) by {
            if i >= 3 {
                assert(!answers_connect(transport, more[i - 3]));
            }
        }
        assert forall|i: int|
            0 <= i < all.len() && #[trigger] sends_close(transport, args.id, all[i]) implies i
            == all.len() - 2 && all.last() is Stop by {
            if i >= 3 {
                assert(sends_close(transport, args.id, more[i - 3]));
            }
        }
    }
}

/// Both ways of closing a connection in an orderly manner end with a single `Close`: if
/// the client is done writing first, the end of the peer's data goes unmentioned; if the
/// peer is done first, the client is told so with an empty `Read`.
pub proof fn law_half_close_either_way(transport: Transport, s: ConnState)
    requires
        s.writable && s.reading,
    ensures
        ({
            let (a, first) = conn_process(
                transport,
                s,
                ConnMsgView::ShutdownWrite,
                Some(Ok(())),
            );
            let (b, second) = conn_process(transport, a, ConnMsgView::PeerClosed, None);
            &&& first == seq![ConnActionView::ShutdownPeer]
            &&& second == seq![ConnActionView::AbortReader] + closing(transport, s.id)
        }),
        ({
            let (a, first) = conn_process(transport, s, ConnMsgView::PeerClosed, None);
            let (b, second) = conn_process(
                transport,
                a,
                ConnMsgView::ShutdownWrite,
                Some(Ok(())),
            );
            &&& first == seq![
                ConnActionView::AbortReader,
                ConnActionView::Send(
                    message_of(transport, DaemonOutgoingView::Read(Ok((s.id, Seq::empty())))),
                ),
            ]
            &&& second == seq![ConnActionView::ShutdownPeer] + closing(transport, s.id)
        }),
{
    let (a, first) = conn_step(transport, s, ConnEvent::Message(ConnMsgView::ShutdownWrite));
    assert(first[0] == ConnActionView::ShutdownPeer);
    let (b, peer) = conn_step(transport, s, ConnEvent::Message(ConnMsgView::PeerClosed));
    let (c, then) = conn_step(transport, b, ConnEvent::Message(ConnMsgView::ShutdownWrite));
    assert(then[0] == ConnActionView::ShutdownPeer);
    assert(first + Seq::<ConnActionView>::empty() =~= first);
}

/// The chunks that some actions write to the peer, in order.
pub open spec fn chunks_written(actions: Seq<ConnActionView>) -> Seq<Seq<u8>>
    decreases actions.len(),
{
    if actions.len() == 0 {
        Seq::empty()
    } else {
        let before = chunks_written(actions.drop_last());
        match actions.last() {
            ConnActionView::WritePeer(bytes) => before.push(bytes),
            _ => before,
        }
    }
}

/// Whether the client was done writing: it shut its side down.
pub open spec fn was_shut_down(
    messages: Seq<(ConnMsgView, Option<Result<(), IoErrorView>>)>,
) -> bool
    decreases messages.len(),
{
    messages.len() > 0 && (messages.last().0 is ShutdownWrite || was_shut_down(
        messages.drop_last(),
    ))
}

/// Whether the client closed the connection.
pub open spec fn was_closed(messages: Seq<(ConnMsgView, Option<Result<(), IoErrorView>>)>) -> bool
    decreases messages.len(),
{
    messages.len() > 0 && (messages.last().0 is Close || was_closed(messages.drop_last()))
}

/// Whether the peer was done writing.
pub open spec fn was_peer_closed(
    messages: Seq<(ConnMsgView, Option<Result<(), IoErrorView>>)>,
) -> bool
    decreases messages.len(),
{
    messages.len() > 0 && (messages.last().0 is PeerClosed || was_peer_closed(messages.drop_last()))
}

/// The chunks that the client sent before it was done writing, in order.
pub open spec fn chunks_sent(
    messages: Seq<(ConnMsgView, Option<Result<(), IoErrorView>>)>,
) -> Seq<Seq<u8>>
    decreases messages.len(),
{
    if messages.len() == 0 {
        Seq::empty()
    } else {
        let before = chunks_sent(messages.drop_last());
        if was_shut_down(messages.drop_last()) || was_closed(messages.drop_last()) {
            before
        } else {
            match messages.last().0 {
                ConnMsgView::Write(bytes, _) => before.push(bytes),
                _ => before,
            }
        }
    }
}

/// Whether no IO failed.
pub open spec fn all_went_well(
    messages: Seq<(ConnMsgView, Option<Result<(), IoErrorView>>)>,
) -> bool {
    forall|i: int|
        0 <= i < messages.len() ==> !((#[trigger] messages[i]).0 is PeerFailed) && (messages[i].1
            matches Some(Ok(_)))
}

proof fn lemma_chunks_written_together(a: Seq<ConnActionView>, b: Seq<ConnActionView>)
    ensures
        chunks_written(a + b) == chunks_written(a) + chunks_written(b),
        stops(a + b) <==> stops(a) || stops(b),
    decreases b.len(),
{
    if b.len() == 0 {
        assert(a + b =~= a);
    } else {
        lemma_chunks_written_together(a, b.drop_last());
        assert((a + b).drop_last() =~= a + b.drop_last());
        assert(chunks_written(a + b) =~= chunks_written(a) + chunks_written(b));
    }
    if stops(a) {
        let i = choose|i: int| 0 <= i < a.len() && (#[trigger] a[i]) is Stop;
        assert((a + b)[i] is Stop);
    }
    if stops(b) {
        let i = choose|i: int| 0 <= i < b.len() && (#[trigger] b[i]) is Stop;
        assert((a + b)[a.len() + i] is Stop);
    }
    if stops(a + b) {
        let i = choose|i: int| 0 <= i < (a + b).len() && (#[trigger] (a + b)[i]) is Stop;
        if i < a.len() {
            assert(a[i] is Stop);
        } else {
            assert(b[i - a.len()] is Stop);
        }
    }
}

proof fn lemma_nothing_written(actions: Seq<ConnActionView>)
    requires
        forall|i: int| 0 <= i < actions.len() ==> !((#[trigger] actions[i]) is WritePeer),
    ensures
        chunks_written(actions) == Seq::<Seq<u8>>::empty(),
    decreases actions.len(),
{
    if actions.len() > 0 {
        let shorter = actions.drop_last();
        assert forall|i: int| 0 <= i < shorter.len() implies !((#[trigger] shorter[i])
            is WritePeer) by {
            assert(shorter[i] == actions[i]);
        }
        lemma_nothing_written(shorter);
        assert(!(actions[actions.len() - 1] is WritePeer));
    }
}

/// One message whose IO goes well.
proof fn lemma_one_message(
    transport: Transport,
    s: ConnState,
    message: ConnMsgView,
    io: Option<Result<(), IoErrorView>>,
)
    requires
        s.writable || s.reading,
        !(message is PeerFailed),
        io matches Some(Ok(_)),
    ensures
        ({
            let (end, actions) = conn_process(transport, s, message, io);
            &&& chunks_written(actions) == (match message {
                ConnMsgView::Write(bytes, _) => if s.writable {
                    seq![bytes]
                } else {
                    Seq::empty()
                },
                _ => Seq::empty(),
            })
            &&& end.writable == (s.writable && !(message is ShutdownWrite))
            &&& end.reading == (s.reading && !(message is PeerClosed))
            &&& end.id == s.id && end.request_uid == s.request_uid && end.address == s.address
            &&& stops(actions) <==> message is Close || !end.writable && !end.reading
        }),
{
    law_close_protocol(transport, s, message, io);
    law_a_reservation_outlives_its_write(transport, s, message, io);
    let (after, first) = conn_step(transport, s, ConnEvent::Message(message));
    let (end, actions) = conn_process(transport, s, message, io);
    if message is ShutdownWrite && s.writable {
        assert(first[0] == ConnActionView::ShutdownPeer);
    }
    assert(!(message is ShutdownWrite) ==> !first.contains(ConnActionView::ShutdownPeer));
    match message {
        ConnMsgView::Write(bytes, budget) => {
            if s.writable {
                assert(actions =~= seq![
                    ConnActionView::WritePeer(bytes),
                    ConnActionView::Release(budget),
                ]);
                assert(actions.drop_last() =~= seq![ConnActionView::WritePeer(bytes)]);
                assert(actions.drop_last().drop_last() =~= Seq::empty());
                reveal_with_fuel(chunks_written, 3);
                assert(chunks_written(actions) =~= seq![bytes]);
            } else {
                lemma_nothing_written(actions);
            }
            if stops(actions) {
                let i = choose|i: int| 0 <= i < actions.len() && (#[trigger] actions[i]) is Stop;
                assert(actions[i] is Stop);
            }
        },
        ConnMsgView::Close => {
            lemma_nothing_written(actions);
            assert(actions[0] is Stop);
        },
        _ => {
            lemma_nothing_written(actions);
        },
    }
}

/// All that the client writes reaches the peer. As long as no IO fails, the chunks written to
/// the peer are those that the client sent before it shut its side down or closed the
/// connection, all of them and in order. A side is closed only when whoever writes to it says
/// so, and the connection stops exactly when the client closes it or both sides are closed.
pub proof fn law_client_data_reaches_the_peer(
    transport: Transport,
    s: ConnState,
    messages: Seq<(ConnMsgView, Option<Result<(), IoErrorView>>)>,
)
    requires
        s.writable && s.reading,
        all_went_well(messages),
    ensures
        ({
            let (end, actions) = conn_run(transport, s, messages);
            &&& chunks_written(actions) == chunks_sent(messages)
            &&& stops(actions) <==> was_closed(messages) || was_shut_down(messages)
                && was_peer_closed(messages)
            &&& !stops(actions) ==> end.writable == !was_shut_down(messages) && end.reading
                == !was_peer_closed(messages)
            &&& end.id == s.id && end.request_uid == s.request_uid
        }),
    decreases messages.len(),
{
    if messages.len() > 0 {
        let earlier = messages.drop_last();
        assert forall|i: int| 0 <= i < earlier.len() implies !((#[trigger] earlier[i]).0
            is PeerFailed) && (earlier[i].1 matches Some(Ok(_))) by {
            assert(earlier[i] == messages[i]);
        }
        law_client_data_reaches_the_peer(transport, s, earlier);
        let (before, actions) = conn_run(transport, s, earlier);
        if !stops(actions) {
            let (message, io) = messages.last();
            assert(messages[messages.len() - 1] == (message, io));
            lemma_one_message(transport, before, message, io);
            let more = conn_process(transport, before, message, io).1;
            lemma_chunks_written_together(actions, more);
            assert(chunks_written(actions) + chunks_written(more) =~= chunks_sent(messages));
        }
    } else {
        assert(!stops(conn_run(transport, s, messages).1));
    }
}

/// Whatever fails on a connection, the client is told why and told to forget the connection,
/// in this order and nothing else; then the connection stops, with both sides closed. An
/// operation that took too long failed with that.
pub proof fn law_failures_are_told(
    transport: Transport,
    s: ConnState,
    message: ConnMsgView,
    io: Option<Result<(), IoErrorView>>,
    error: IoErrorView,
)
    requires
        ({
            ||| message == ConnMsgView::PeerFailed(error)
            ||| s.writable && (message is Write || message is ShutdownWrite) && io == Some(
                Err::<(), IoErrorView>(error),
            )
            ||| s.writable && message is Write && io is None && error.kind is TimedOut
                && error.message == "timed out"@
        }),
    ensures
        ({
            let (end, actions) = conn_process(transport, s, message, io);
            let n = actions.len() - 3;
            let name = if transport is Tcp {
                "tcp-out"@
            } else {
                "udp-out"@
            };
            &&& n >= 0
            &&& sent(actions[n]) == Some(
                DaemonMessageView::LogMessage(
                    LogLevel::Warn,
                    "outgoing connection "@ + decimal(s.id as nat) + " failed: "@ + error.message
                        + " ("@ + name + ")"@,
                ),
            )
            &&& sent(actions[n + 1]) == Some(
                message_of(transport, DaemonOutgoingView::Close(s.id)),
            )
            &&& actions[n + 2] is Stop
            &&& forall|i: int| 0 <= i < n ==> sent(#[trigger] actions[i]) is None
            &&& !end.writable && !end.reading
            &&& exists|i: int| 0 <= i < n && (#[trigger] actions[i]) is DropWriter
        }),
{
    let (after, first) = conn_step(transport, s, ConnEvent::Message(message));
    let (end, actions) = conn_process(transport, s, message, io);
    if message is ShutdownWrite && s.writable {
        assert(first[0] == ConnActionView::ShutdownPeer);
    }
    assert(!(message is ShutdownWrite) ==> !first.contains(ConnActionView::ShutdownPeer));
    assert(actions[actions.len() - 4] is DropWriter);
}

/// As long as nothing fails, the client hears of a connection only what concerns it: that the
/// peer is done writing, with an empty `Read` while the client can still write, and that the
/// connection is over. There is no log message without a failure.
pub proof fn law_no_failure_no_log(
    transport: Transport,
    s: ConnState,
    message: ConnMsgView,
    io: Option<Result<(), IoErrorView>>,
    i: int,
)
    requires
        !(message is PeerFailed),
        io matches Some(Ok(_)),
        0 <= i < conn_process(transport, s, message, io).1.len(),
    ensures
        ({
            let (end, actions) = conn_process(transport, s, message, io);
            let end_of_data = message_of(
                transport,
                DaemonOutgoingView::Read(Ok((s.id, Seq::empty()))),
            );
            &&& sent(actions[i]) matches Some(m) ==> {
                ||| m == end_of_data && message is PeerClosed && s.writable
                ||| m == message_of(transport, DaemonOutgoingView::Close(s.id)) && !end.writable
                    && !end.reading
            }
            &&& message is PeerClosed && s.writable ==> exists|j: int|
                0 <= j < actions.len() && sent(#[trigger] actions[j]) == Some(end_of_data)
            &&& actions[i] is AbortReader ==> message is PeerClosed
            &&& !(actions[i] is DropWriter)
            &&& actions[i] is ShutdownPeer <==> i == 0 && message is ShutdownWrite && s.writable
        }),
{
    let (after, first) = conn_step(transport, s, ConnEvent::Message(message));
    let (end, actions) = conn_process(transport, s, message, io);
    if message is ShutdownWrite && s.writable {
        assert(first[0] == ConnActionView::ShutdownPeer);
    }
    assert(!(message is ShutdownWrite) ==> !first.contains(ConnActionView::ShutdownPeer));
    if message is PeerClosed && s.writable {
        assert(sent(actions[1]) is Some);
    }
}

proof fn lemma_no_message_notifies(
    transport: Transport,
    s: ConnState,
    message: ConnMsgView,
    io: Option<Result<(), IoErrorView>>,
    i: int,
)
    requires
        0 <= i < conn_process(transport, s, message, io).1.len(),
    ensures
        !(conn_process(transport, s, message, io).1[i] is NotifyRouter),
        !(conn_process(transport, s, message, io).1[i] is StartReader),
{
    let first = conn_step(transport, s, ConnEvent::Message(message)).1;
    assert(!(message is ShutdownWrite) ==> !first.contains(ConnActionView::ShutdownPeer));
    match message {
        ConnMsgView::Write(..) => {},
        ConnMsgView::ShutdownWrite => {},
        _ => {},
    }
}

proof fn lemma_only_the_dial_notifies(
    transport: Transport,
    s: ConnState,
    messages: Seq<(ConnMsgView, Option<Result<(), IoErrorView>>)>,
    i: int,
)
    requires
        0 <= i < conn_run(transport, s, messages).1.len(),
    ensures
        !(conn_run(transport, s, messages).1[i] is NotifyRouter),
        !(conn_run(transport, s, messages).1[i] is StartReader),
    decreases messages.len(),
{
    if messages.len() > 0 {
        let (before, actions) = conn_run(transport, s, messages.drop_last());
        if i < actions.len() {
            lemma_only_the_dial_notifies(transport, s, messages.drop_last(), i);
        } else {
            lemma_no_message_notifies(
                transport,
                before,
                messages.last().0,
                messages.last().1,
                i - actions.len(),
            );
        }
    }
}

/// The router hears of every dial once, right after the client was answered: whose it was and
/// whether it succeeded. The reader is started once, after that, and only if the dial
/// succeeded; a connection whose dial failed stops.
pub proof fn law_the_router_hears_of_every_dial(
    transport: Transport,
    args: ConnArgs,
    dialed: Option<Result<Established, IoErrorView>>,
    messages: Seq<(ConnMsgView, Option<Result<(), IoErrorView>>)>,
)
    ensures
        ({
            let actions = conn_life(transport, args, dialed, messages);
            let connected = dialed matches Some(Ok(_));
            &&& actions.len() >= 3
            &&& actions[1] == (ConnActionView::NotifyRouter {
                id: args.id,
                request_uid: args.request_uid,
                connected,
            })
            &&& forall|i: int|
                0 <= i < actions.len() && (#[trigger] actions[i]) is NotifyRouter ==> i == 1
            &&& forall|i: int|
                0 <= i < actions.len() ==> ((#[trigger] actions[i]) is StartReader <==> connected
                    && i == 2)
            &&& !connected ==> actions.len() == 3 && actions[2] is Stop
        }),
{
    let start = ConnState {
        id: args.id,
        request_uid: args.request_uid,
        address: None,
        writable: false,
        reading: false,
    };
    let (connected, answer) = conn_step(transport, start, ConnEvent::Dialed(dialed));
    let actions = conn_life(transport, args, dialed, messages);
    if in_time(dialed) is Err {
        assert(answer[2] is Stop);
    } else {
        assert forall|i: int| 0 <= i < actions.len() && i >= 3 implies !((#[trigger] actions[i])
            is NotifyRouter) && !(actions[i] is StartReader) by {
            lemma_only_the_dial_notifies(transport, connected, messages, i - 3);
        }
    }
}

/// A connection is open both ways once it was dialed.
pub proof fn law_a_dial_opens_both_sides(
    transport: Transport,
    s: ConnState,
    dialed: Option<Result<Established, IoErrorView>>,
)
    ensures
        ({
            let end = conn_step(transport, s, ConnEvent::Dialed(dialed)).0;
            &&& dialed matches Some(Ok(_)) ==> end.writable && end.reading
            &&& end.id == s.id && end.request_uid == s.request_uid
        }),
{
}

proof fn lemma_actions_say(actions: Seq<ConnAction>)
    ensures
        actions_view(actions).len() == actions.len(),
        forall|i: int|
            0 <= i < actions.len() ==> #[trigger] actions_view(actions)[i] == actions[i]@,
{
}

/// A connection does what it is told and nothing else. It writes a chunk exactly if it is
/// told to and its write side is open, and then these very bytes; it gives back what the
/// chunk reserved, written or not; and it shuts down its write side exactly if it is told to
/// and the side is open. A side that is open stays so until it is told otherwise, and the
/// connection stops exactly if the client closes it, the peer fails, or the peer closes a
/// connection that can no longer be written to.
pub proof fn law_a_connection_does_as_it_is_told<F: OutgoingFlavor>(
    state: &mut ConnState,
    message: ConnMsg,
    r: Vec<ConnAction>,
    i: int,
)
    requires
        call_ensures(OutgoingConnActor::<F>::handle, (state, message), r),
        0 <= i < r@.len(),
    ensures
        r@[i] matches ConnAction::WritePeer(written) ==> (message matches ConnMsg::Write {
            bytes,
            ..
        } && chunk(written) == chunk(bytes) && old(state).writable && i == 0),
        r@[i] matches ConnAction::Release(given_back) ==> (message matches ConnMsg::Write {
            budget,
            ..
        } && given_back == budget && i == r@.len() - 1),
        r@[i] is ShutdownPeer ==> message is ShutdownWrite && old(state).writable,
        r@[i] is AbortReader ==> message is PeerClosed || message is PeerFailed,
        r@[i] is Stop ==> i == r@.len() - 1,
        message is Write ==> r@.last() is Release && r@.len() == if old(state).writable {
            2int
        } else {
            1
        },
        message is Write && old(state).writable ==> r@[0] is WritePeer,
        r@.last() is Stop <==> message is Close || message is PeerFailed || message is PeerClosed
            && !old(state).writable,
{
    lemma_actions_say(r@);
    assert(actions_view(r@)[i] == r@[i]@);
    assert(actions_view(r@)[0] == r@[0]@);
    assert(actions_view(r@)[r@.len() - 1] == r@[r@.len() - 1]@);
}

/// What a connection is told changes its sides only as far as it speaks of them: the write
/// side is closed by the end of the client's data and by a failure, the read side by the end
/// of the peer's data and by a failure.
pub proof fn law_sides_are_closed_by_what_closes_them<F: OutgoingFlavor>(
    state: &mut ConnState,
    message: ConnMsg,
    r: Vec<ConnAction>,
)
    requires
        call_ensures(OutgoingConnActor::<F>::handle, (state, message), r),
    ensures
        final(state).writable <==> old(state).writable && !(message is ShutdownWrite) && !(message
            is PeerFailed),
        final(state).reading <==> old(state).reading && !(message is PeerClosed) && !(message
            is PeerFailed),
        final(state).id == old(state).id,
        final(state).request_uid == old(state).request_uid,
        message is ShutdownWrite ==> (r@.len() == 1 <==> old(state).writable) && r@.len() <= 1,
        message is ShutdownWrite && old(state).writable ==> r@[0] is ShutdownPeer,
{
    lemma_actions_say(r@);
    if r@.len() > 0 {
        assert(actions_view(r@)[0] == r@[0]@);
    }
}

/// A write or a shutdown that went well changes nothing, and nothing follows a write; a
/// shutdown that went well ends a connection that reads no more. One that did not, or a write
/// that took too long, closes both sides and stops the connection.
pub proof fn law_good_writes_change_nothing<F: OutgoingFlavor>(
    state: &mut ConnState,
    outcome: Option<Result<(), IoError>>,
    shut: Result<(), IoError>,
    other: &mut ConnState,
    after_write: Vec<ConnAction>,
    after_shutdown: Vec<ConnAction>,
)
    requires
        call_ensures(OutgoingConnActor::<F>::written, (state, outcome), after_write),
        call_ensures(OutgoingConnActor::<F>::write_shut_down, (other, shut), after_shutdown),
    ensures
        outcome matches Some(Ok(_)) ==> *final(state) == *old(state) && after_write@.len() == 0,
        !(outcome matches Some(Ok(_))) ==> !final(state).writable && !final(state).reading
            && after_write@.len() > 0 && after_write@.last() is Stop,
        shut is Ok ==> *final(other) == *old(other),
        shut is Ok && old(other).reading ==> after_shutdown@.len() == 0,
        shut is Ok && !old(other).reading ==> after_shutdown@.len() == 2
            && after_shutdown@.last() is Stop,
        shut is Err ==> !final(other).writable && !final(other).reading && after_shutdown@.len()
            > 0 && after_shutdown@.last() is Stop,
        final(state).id == old(state).id && final(other).id == old(other).id,
{
    lemma_actions_say(after_write@);
    lemma_actions_say(after_shutdown@);
    if after_write@.len() > 0 {
        assert(actions_view(after_write@)[after_write@.len() - 1] == after_write@[after_write@.len()
            - 1]@);
    }
    if after_shutdown@.len() > 0 {
        assert(actions_view(after_shutdown@)[after_shutdown@.len() - 1]
            == after_shutdown@[after_shutdown@.len() - 1]@);
    }
}

/// The answer to a connect request has the request's UID, if it had one. It tells both ends
/// of a connection that was made under the ID that the connection has, and else the error
/// that came, or that it took too long.
pub proof fn law_dials_are_answered_with_their_outcome<F: OutgoingFlavor>(
    state: &mut ConnState,
    outcome: Option<Result<Established, IoError>>,
    r: Vec<ConnAction>,
)
    requires
        call_ensures(OutgoingConnActor::<F>::post_start, (state, outcome), r),
    ensures
        r@.len() == 3,
        r@[0] matches ConnAction::Send(answer) && match outcome {
            Some(Ok(ends)) => answer@ == message_of(
                F::transport(),
                DaemonOutgoingView::Connect(
                    old(state).request_uid,
                    Ok(
                        DaemonConnect {
                            connection_id: old(state).id,
                            remote_address: ends.peer_address,
                            local_address: ends.local_address,
                        },
                    ),
                ),
            ),
            Some(Err(error)) => answer@ == message_of(
                F::transport(),
                DaemonOutgoingView::Connect(
                    old(state).request_uid,
                    Err(ResponseErrorView::RemoteIo(error@)),
                ),
            ),
            None => answer@ == message_of(
                F::transport(),
                DaemonOutgoingView::Connect(
                    old(state).request_uid,
                    Err(
                        ResponseErrorView::RemoteIo(
                            IoErrorView { kind: IoErrorKindView::TimedOut, message: "timed out"@ },
                        ),
                    ),
                ),
            ),
        },
        r@[1] matches ConnAction::NotifyRouter { id, request_uid, connected } && id
            == old(state).id && request_uid == old(state).request_uid && (connected
            <==> (outcome matches Some(Ok(_)))),
        r@[2] is StartReader <==> (outcome matches Some(Ok(_))),
        r@[2] is Stop <==> !(outcome matches Some(Ok(_))),
        outcome matches Some(Ok(_)) ==> final(state).writable && final(state).reading,
{
    lemma_actions_say(r@);
    assert(actions_view(r@)[0] == r@[0]@);
    assert(actions_view(r@)[1] == r@[1]@);
    assert(actions_view(r@)[2] == r@[2]@);
}

/// What the peer sends is relayed as it is, under the ID of the connection, with a
/// reservation of exactly its size; and the end of its data and a failure are reported to the
/// connection, the failure with its error.
pub proof fn law_what_the_peer_sends_is_relayed<F: OutgoingFlavor>(
    id: ConnectionId,
    read: Result<Option<Bytes>, IoError>,
    r: ReaderAction,
)
    requires
        call_ensures(OutgoingConnActor::<F>::reader_task, (id, read), r),
    ensures
        r is Relay <==> (read matches Ok(Some(_))),
        read matches Ok(Some(bytes)) ==> (r matches ReaderAction::Relay { reserve, message }
            && reserve == chunk(bytes).len() && message@ == message_of(
            F::transport(),
            DaemonOutgoingView::Read(Ok((id, chunk(bytes)))),
        )),
        r matches ReaderAction::Report(ConnMsg::PeerClosed) <==> (read matches Ok(None)),
        read matches Err(error) ==> r == ReaderAction::Report(ConnMsg::PeerFailed(error)),
{
}

/// A connection that starts has the ID, the UID and the address that it is started with, and
/// dials this address, once.
pub proof fn law_the_address_is_dialed<F: OutgoingFlavor>(
    args: ConnArgs,
    started: ConnState,
    state: &mut ConnState,
    dialed: SocketAddress,
)
    requires
        call_ensures(OutgoingConnActor::<F>::pre_start, (args,), started),
        *old(state) == started,
        call_ensures(OutgoingConnActor::<F>::dial, (state,), dialed),
    ensures
        dialed == args.address,
        final(state).address is None,
        final(state).id == args.id,
        final(state).request_uid == args.request_uid,
        !final(state).writable && !final(state).reading,
{
}

/// A connection that stops tells why, as its last action: that its dial failed, that the
/// client closed it, or that both of its sides are closed.
pub proof fn law_a_stop_has_a_reason(transport: Transport, s: ConnState, event: ConnEvent)
    ensures
        ({
            let actions = conn_step(transport, s, event).1;
            actions.len() > 0 ==> (actions.last() matches ConnActionView::Stop(reason) ==> reason
                == match event {
                ConnEvent::Dialed(_) => "connect failed"@,
                ConnEvent::Message(ConnMsgView::Close) => "closed by the client"@,
                _ => "connection closed"@,
            })
        }),
{
}

} // verus!
