//! The checks on outgoing streams.

use crate::chunk::{bytes_of, chunk};
use crate::harness::{
    connected_line, nothing, one, pass_line, passed, passed_connect, sent, Reason, ReasonView, Step,
    StepView,
};
use crate::protocol::{
    ClientMessage, ClientMessageView, ConnectionId, DaemonConnect, DaemonMessage,
    DaemonMessageView, DaemonOutgoingView, DaemonTcpOutgoing, LayerClose, LayerConnect,
    LayerConnectV2, LayerOutgoingView, LayerTcpOutgoing, LayerWrite, SocketAddr, SocketAddress, Uid,
};
use bytes::Bytes;
use vstd::prelude::*;
use vstd::utf8::encode_utf8;

verus! {

/// Whether two runs of bytes are the same.
pub(crate) fn same_bytes(a: &[u8], b: &[u8]) -> (r: bool)
    ensures
        r == (a@ == b@),
{
    if a.len() != b.len() {
        return false;
    }
    let mut i: usize = 0;
    while i < a.len()
        invariant
            i <= a.len(),
            a.len() == b.len(),
            forall|j: int| 0 <= j < i ==> a@[j] == b@[j],
        decreases a.len() - i,
    {
        if a[i] != b[i] {
            return false;
        }
        i = i + 1;
    }
    assert(a@ =~= b@);
    true
}

pub open spec fn tcp(message: LayerOutgoingView) -> ClientMessageView {
    ClientMessageView::TcpOutgoing(message)
}

fn connect_message(address: SocketAddr) -> (r: ClientMessage)
    ensures
        r@ == tcp(LayerOutgoingView::Connect(SocketAddress::Ip(address))),
{
    ClientMessage::TcpOutgoing(
        LayerTcpOutgoing::Connect(LayerConnect { remote_address: SocketAddress::Ip(address) }),
    )
}

fn write_message(id: ConnectionId, bytes: Bytes) -> (r: ClientMessage)
    ensures
        r@ == tcp(LayerOutgoingView::Write(id, chunk(bytes))),
{
    ClientMessage::TcpOutgoing(LayerTcpOutgoing::Write(LayerWrite { connection_id: id, bytes }))
}

fn close_message(id: ConnectionId) -> (r: ClientMessage)
    ensures
        r@ == tcp(LayerOutgoingView::Close(id)),
{
    ClientMessage::TcpOutgoing(LayerTcpOutgoing::Close(LayerClose { connection_id: id }))
}

// ---------------------------------------------------------------------------------
// Echo
// ---------------------------------------------------------------------------------

/// What the echo check waits for.
#[derive(Debug, Clone, Copy, PartialEq, Eq)]
#[allow(inconsistent_fields)]
pub enum TcpEcho {
    /// The connection.
    Connect,
    /// What was written.
    Echo { id: ConnectionId },
    /// The close that follows the shutdown.
    Close { id: ConnectionId },
}

impl View for TcpEcho {
    type V = TcpEcho;

    open spec fn view(&self) -> TcpEcho {
        *self
    }
}

/// How the echo check goes on after a message. A legacy connect is answered without a UID,
/// what is written comes back, and after the end of the written data comes `Close`.
pub open spec fn tcp_echo_step(at: TcpEcho, message: DaemonMessageView) -> StepView<TcpEcho> {
    match at {
        TcpEcho::Connect => match message {
            DaemonMessageView::TcpOutgoing(DaemonOutgoingView::Connect(None, Ok(connect))) =>
                StepView::Await {
                passed: Some(connected_line("tcp legacy connect"@, connect.connection_id)),
                send: seq![
                    tcp(
                        LayerOutgoingView::Write(
                            connect.connection_id,
                            encode_utf8("hello, echo"@),
                        ),
                    ),
                ],
                next: TcpEcho::Echo { id: connect.connection_id },
            },
            _ => StepView::Fail {
                check: "tcp legacy connect"@,
                reason: ReasonView::Unexpected(message),
            },
        },
        TcpEcho::Echo { id } => if message == DaemonMessageView::TcpOutgoing(
            DaemonOutgoingView::Read(Ok((id, encode_utf8("hello, echo"@)))),
        ) {
            StepView::Await {
                passed: Some(pass_line("tcp echo roundtrip"@)),
                send: seq![tcp(LayerOutgoingView::Write(id, Seq::empty()))],
                next: TcpEcho::Close { id },
            }
        } else {
            StepView::Fail {
                check: "tcp echo roundtrip"@,
                reason: ReasonView::Unexpected(message),
            }
        },
        TcpEcho::Close { id } => if message == DaemonMessageView::TcpOutgoing(
            DaemonOutgoingView::Close(id),
        ) {
            StepView::Done { passed: pass_line("tcp shutdown -> close"@), send: Seq::empty() }
        } else {
            StepView::Fail {
                check: "tcp shutdown -> close"@,
                reason: ReasonView::Unexpected(message),
            }
        },
    }
}

/// Starts the echo check, with a server that sends back what it gets.
pub fn start_tcp_echo(echo: SocketAddr) -> (r: (Vec<ClientMessage>, TcpEcho))
    ensures
        sent(r.0@) == seq![tcp(LayerOutgoingView::Connect(SocketAddress::Ip(echo)))],
        r.1 == TcpEcho::Connect,
{
    (one(connect_message(echo)), TcpEcho::Connect)
}

/// Judges a message in the echo check.
pub fn tcp_echo(at: TcpEcho, message: DaemonMessage) -> (r: Step<TcpEcho>)
    ensures
        r@ == tcp_echo_step(at, message@),
{
    match (at, message) {
        (
            TcpEcho::Connect,
            DaemonMessage::TcpOutgoing(DaemonTcpOutgoing::Connect(Ok(connect))),
        ) => {
            let id: ConnectionId = connect.connection_id;
            let bytes = Bytes::copy_from_slice("hello, echo".as_bytes());
            Step::Await {
                passed: Some(passed_connect("tcp legacy connect", id)),
                send: one(write_message(id, bytes)),
                next: TcpEcho::Echo { id },
            }
        },
        (TcpEcho::Connect, other) => Step::Fail {
            check: "tcp legacy connect",
            reason: Reason::Unexpected(other),
        },
        (TcpEcho::Echo { id }, DaemonMessage::TcpOutgoing(DaemonTcpOutgoing::Read(Ok(read)))) => {
            if read.connection_id == id && same_bytes(
                bytes_of(&read.bytes),
                "hello, echo".as_bytes(),
            ) {
                // An empty write shuts our write side down. The echo server responds by
                // closing, which must come back as `Close` for the closed connection.
                Step::Await {
                    passed: Some(passed("tcp echo roundtrip")),
                    send: one(write_message(id, Bytes::new())),
                    next: TcpEcho::Close { id },
                }
            } else {
                Step::Fail {
                    check: "tcp echo roundtrip",
                    reason: Reason::Unexpected(
                        DaemonMessage::TcpOutgoing(DaemonTcpOutgoing::Read(Ok(read))),
                    ),
                }
            }
        },
        (TcpEcho::Echo { .. }, other) => Step::Fail {
            check: "tcp echo roundtrip",
            reason: Reason::Unexpected(other),
        },
        (TcpEcho::Close { id }, DaemonMessage::TcpOutgoing(DaemonTcpOutgoing::Close(closed))) => {
            if closed == id {
                Step::Done { passed: passed("tcp shutdown -> close"), send: nothing() }
            } else {
                Step::Fail {
                    check: "tcp shutdown -> close",
                    reason: Reason::Unexpected(
                        DaemonMessage::TcpOutgoing(DaemonTcpOutgoing::Close(closed)),
                    ),
                }
            }
        },
        (TcpEcho::Close { .. }, other) => Step::Fail {
            check: "tcp shutdown -> close",
            reason: Reason::Unexpected(other),
        },
    }
}

// ---------------------------------------------------------------------------------
// Close by the client
// ---------------------------------------------------------------------------------

/// What the check on connects with a UID waits for.
#[derive(Debug, Clone, Copy, PartialEq, Eq)]
pub enum TcpV2 {
    /// The connection.
    Connect { uid: Uid },
    /// The answer to the ping that follows the close.
    Pong,
}

impl View for TcpV2 {
    type V = TcpV2;

    open spec fn view(&self) -> TcpV2 {
        *self
    }
}

/// How the check on connects with a UID goes on after a message. A close by the client is
/// silent, and what is written afterwards is dropped.
pub open spec fn tcp_v2_step(at: TcpV2, message: DaemonMessageView) -> StepView<TcpV2> {
    match at {
        TcpV2::Connect { uid } => match message {
            DaemonMessageView::TcpOutgoing(DaemonOutgoingView::Connect(Some(answered), outcome))
                if answered == uid => match outcome {
                Ok(connect) => StepView::Await {
                    passed: Some(connected_line("tcp v2 connect"@, connect.connection_id)),
                    send: seq![
                        tcp(LayerOutgoingView::Close(connect.connection_id)),
                        tcp(
                            LayerOutgoingView::Write(
                                connect.connection_id,
                                encode_utf8("into the void"@),
                            ),
                        ),
                        ClientMessageView::Ping,
                    ],
                    next: TcpV2::Pong,
                },
                Err(error) => StepView::Fail {
                    check: "tcp v2 connect"@,
                    reason: ReasonView::Connect(error),
                },
            },
            _ => StepView::Fail {
                check: "tcp v2 connect"@,
                reason: ReasonView::Unexpected(message),
            },
        },
        TcpV2::Pong => if message is Pong {
            StepView::Done { passed: pass_line("tcp client close is silent"@), send: Seq::empty() }
        } else {
            StepView::Fail {
                check: "tcp client close is silent"@,
                reason: ReasonView::Unexpected(message),
            }
        },
    }
}

/// Starts the check on connects with a UID.
pub fn start_tcp_v2_and_client_close(echo: SocketAddr, uid: Uid) -> (r: (
    Vec<ClientMessage>,
    TcpV2,
))
    ensures
        sent(r.0@) == seq![tcp(LayerOutgoingView::ConnectV2(uid, SocketAddress::Ip(echo)))],
        r.1 == (TcpV2::Connect { uid }),
{
    let connect = LayerConnectV2 { uid, remote_address: SocketAddress::Ip(echo) };
    (
        one(ClientMessage::TcpOutgoing(LayerTcpOutgoing::ConnectV2(connect))),
        TcpV2::Connect { uid },
    )
}

/// Judges a message in the check on connects with a UID.
pub fn tcp_v2_and_client_close(at: TcpV2, message: DaemonMessage) -> (r: Step<TcpV2>)
    ensures
        r@ == tcp_v2_step(at, message@),
{
    match (at, message) {
        (
            TcpV2::Connect { uid },
            DaemonMessage::TcpOutgoing(DaemonTcpOutgoing::ConnectV2(connect)),
        ) => {
            if connect.uid.0 != uid.0 {
                return Step::Fail {
                    check: "tcp v2 connect",
                    reason: Reason::Unexpected(
                        DaemonMessage::TcpOutgoing(DaemonTcpOutgoing::ConnectV2(connect)),
                    ),
                };
            }
            match connect.connect {
                Ok(connect) => {
                    let id: ConnectionId = connect.connection_id;
                    let bytes = Bytes::copy_from_slice("into the void".as_bytes());
                    let mut send: Vec<ClientMessage> = Vec::new();
                    send.push(close_message(id));
                    send.push(write_message(id, bytes));
                    send.push(ClientMessage::Ping);
                    assert(sent(send@) =~= seq![
                        tcp(LayerOutgoingView::Close(id)),
                        tcp(LayerOutgoingView::Write(id, encode_utf8("into the void"@))),
                        ClientMessageView::Ping,
                    ]);
                    Step::Await {
                        passed: Some(passed_connect("tcp v2 connect", id)),
                        send,
                        next: TcpV2::Pong,
                    }
                },
                Err(error) => Step::Fail {
                    check: "tcp v2 connect",
                    reason: Reason::Connect(error),
                },
            }
        },
        (TcpV2::Connect { .. }, other) => Step::Fail {
            check: "tcp v2 connect",
            reason: Reason::Unexpected(other),
        },
        (TcpV2::Pong, DaemonMessage::Pong) => Step::Done {
            passed: passed("tcp client close is silent"),
            send: nothing(),
        },
        (TcpV2::Pong, other) => Step::Fail {
            check: "tcp client close is silent",
            reason: Reason::Unexpected(other),
        },
    }
}

// ---------------------------------------------------------------------------------
// Order of legacy connects
// ---------------------------------------------------------------------------------

/// What the check on the order of legacy connects waits for.
#[derive(Debug, Clone, Copy, PartialEq, Eq)]
pub enum TcpLegacy {
    /// The answer to the first connect.
    First,
    /// The answer to the second connect.
    Second { first_id: ConnectionId },
}

impl View for TcpLegacy {
    type V = TcpLegacy;

    open spec fn view(&self) -> TcpLegacy {
        *self
    }
}

/// An address on the same host where nobody listens.
pub open spec fn refused_address(echo: SocketAddr) -> SocketAddr {
    match echo {
        SocketAddr::V4 { ip, .. } => SocketAddr::V4 { ip, port: 1 },
        SocketAddr::V6 { ip, .. } => SocketAddr::V6 { ip, port: 1, flowinfo: 0, scope_id: 0 },
    }
}

/// How the check on the order of legacy connects goes on after a message. The answers carry
/// no IDs, so their order is the only way to match them: the one that succeeds comes first.
pub open spec fn tcp_legacy_step(at: TcpLegacy, message: DaemonMessageView) -> StepView<TcpLegacy> {
    match at {
        TcpLegacy::First => match message {
            DaemonMessageView::TcpOutgoing(DaemonOutgoingView::Connect(None, Ok(connect))) =>
                StepView::Await {
                passed: None,
                send: Seq::empty(),
                next: TcpLegacy::Second { first_id: connect.connection_id },
            },
            _ => StepView::Fail {
                check: "tcp legacy ordering"@,
                reason: ReasonView::Unexpected(message),
            },
        },
        TcpLegacy::Second { first_id } => match message {
            DaemonMessageView::TcpOutgoing(DaemonOutgoingView::Connect(None, Err(_))) =>
                StepView::Done {
                passed: pass_line("tcp legacy connect ordering"@),
                send: seq![tcp(LayerOutgoingView::Close(first_id))],
            },
            _ => StepView::Fail {
                check: "tcp legacy connect ordering"@,
                reason: ReasonView::Unexpected(message),
            },
        },
    }
}

/// Starts the check on the order of legacy connects: one that succeeds and one that is
/// refused, back to back.
pub fn start_tcp_legacy_ordering(echo: SocketAddr) -> (r: (Vec<ClientMessage>, TcpLegacy))
    ensures
        sent(r.0@) == seq![
            tcp(LayerOutgoingView::Connect(SocketAddress::Ip(echo))),
            tcp(LayerOutgoingView::Connect(SocketAddress::Ip(refused_address(echo)))),
        ],
        r.1 == TcpLegacy::First,
{
    let refused = match echo {
        SocketAddr::V4 { ip, port: _ } => SocketAddr::V4 { ip, port: 1 },
        SocketAddr::V6 { ip, port: _, flowinfo: _, scope_id: _ } => SocketAddr::V6 {
            ip,
            port: 1,
            flowinfo: 0,
            scope_id: 0,
        },
    };
    let mut send: Vec<ClientMessage> = Vec::new();
    send.push(connect_message(echo));
    send.push(connect_message(refused));
    assert(sent(send@) =~= seq![
        tcp(LayerOutgoingView::Connect(SocketAddress::Ip(echo))),
        tcp(LayerOutgoingView::Connect(SocketAddress::Ip(refused_address(echo)))),
    ]);
    (send, TcpLegacy::First)
}

/// Judges a message in the check on the order of legacy connects.
pub fn tcp_legacy_ordering(at: TcpLegacy, message: DaemonMessage) -> (r: Step<TcpLegacy>)
    ensures
        r@ == tcp_legacy_step(at, message@),
{
    match (at, message) {
        (
            TcpLegacy::First,
            DaemonMessage::TcpOutgoing(DaemonTcpOutgoing::Connect(Ok(connect))),
        ) => Step::Await {
            passed: None,
            send: nothing(),
            next: TcpLegacy::Second { first_id: connect.connection_id },
        },
        (TcpLegacy::First, other) => Step::Fail {
            check: "tcp legacy ordering",
            reason: Reason::Unexpected(other),
        },
        (
            TcpLegacy::Second { first_id },
            DaemonMessage::TcpOutgoing(DaemonTcpOutgoing::Connect(Err(_))),
        ) => Step::Done {
            passed: passed("tcp legacy connect ordering"),
            send: one(close_message(first_id)),
        },
        (TcpLegacy::Second { .. }, other) => Step::Fail {
            check: "tcp legacy connect ordering",
            reason: Reason::Unexpected(other),
        },
    }
}

// ---------------------------------------------------------------------------------
// Laws
// ---------------------------------------------------------------------------------

/// The echo check goes through exactly if the agent answers the connect without a UID, brings
/// back what was written to that connection, and closes that connection once there is no more
/// to write. Everything is said on the connection that the agent named, and a message that is
/// not the right one is told.
pub proof fn law_the_echo_is_what_was_written(
    connect: DaemonConnect,
    at: TcpEcho,
    message: DaemonMessageView,
    last: DaemonMessageView,
)
    ensures
        tcp_echo_step(TcpEcho::Connect, message) is Await <==> (message matches
            DaemonMessageView::TcpOutgoing(DaemonOutgoingView::Connect(None, Ok(_)))),
        ({
            let answer = DaemonMessageView::TcpOutgoing(
                DaemonOutgoingView::Connect(None, Ok(connect)),
            );
            let id = connect.connection_id;
            &&& tcp_echo_step(TcpEcho::Connect, answer) matches StepView::Await {
                send,
                next,
                passed,
            }
            &&& passed is Some
            &&& send.len() == 1
            &&& send[0] matches ClientMessageView::TcpOutgoing(LayerOutgoingView::Write(to, data))
            &&& to == id
            &&& tcp_echo_step(next, message) is Await <==> message
                == DaemonMessageView::TcpOutgoing(DaemonOutgoingView::Read(Ok((id, data))))
            &&& tcp_echo_step(next, message) matches StepView::Await {
                send: end,
                next: closing,
                ..
            } ==> end =~= seq![
                ClientMessageView::TcpOutgoing(LayerOutgoingView::Write(id, Seq::empty())),
            ] && (tcp_echo_step(closing, last) is Done <==> last == DaemonMessageView::TcpOutgoing(
                DaemonOutgoingView::Close(id),
            ))
        }),
        tcp_echo_step(at, message) matches StepView::Fail { reason, .. } ==> reason
            == ReasonView::Unexpected(message),
        tcp_echo_step(at, message) is Done ==> at is Close,
{
}

/// The check on connects with a UID goes on exactly if the answer has the UID of the request
/// and is a connection. It then closes that connection and no other, writes to it all the
/// same, and passes exactly if the next thing that the agent says is the answer to the ping
/// that came last. A connection that could not be made is told by its error.
pub proof fn law_the_answer_has_the_uid_of_the_request(
    uid: Uid,
    at: TcpV2,
    message: DaemonMessageView,
    last: DaemonMessageView,
)
    ensures
        tcp_v2_step(TcpV2::Connect { uid }, message) is Await <==> (message matches
            DaemonMessageView::TcpOutgoing(DaemonOutgoingView::Connect(Some(answered), Ok(_)))
            && answered == uid),
        tcp_v2_step(TcpV2::Connect { uid }, message) matches StepView::Await { send, next, .. } ==> {
            &&& message matches DaemonMessageView::TcpOutgoing(
                DaemonOutgoingView::Connect(_, Ok(connect)),
            )
            &&& send.len() == 3
            &&& send[0] == ClientMessageView::TcpOutgoing(
                LayerOutgoingView::Close(connect.connection_id),
            )
            &&& send[1] matches ClientMessageView::TcpOutgoing(LayerOutgoingView::Write(to, _))
            &&& to == connect.connection_id
            &&& send[2] == ClientMessageView::Ping
            &&& tcp_v2_step(next, last) is Done <==> last == DaemonMessageView::Pong
        },
        tcp_v2_step(at, message) matches StepView::Fail { reason, .. } ==> match (at, message) {
            (
                TcpV2::Connect { uid },
                DaemonMessageView::TcpOutgoing(
                    DaemonOutgoingView::Connect(Some(answered), Err(error)),
                ),
            ) if answered == uid => reason == ReasonView::Connect(error),
            _ => reason == ReasonView::Unexpected(message),
        },
        tcp_v2_step(at, message) is Done ==> at is Pong,
{
}

/// The check on the order of legacy connects passes exactly if the first answer is a
/// connection and the second one is not, both without a UID. The connection is closed in the
/// end.
pub proof fn law_legacy_answers_come_in_order(
    at: TcpLegacy,
    first: DaemonMessageView,
    second: DaemonMessageView,
)
    ensures
        tcp_legacy_step(TcpLegacy::First, first) is Await <==> (first matches
            DaemonMessageView::TcpOutgoing(DaemonOutgoingView::Connect(None, Ok(_)))),
        tcp_legacy_step(TcpLegacy::First, first) matches StepView::Await { send, next, .. } ==> {
            &&& send.len() == 0
            &&& tcp_legacy_step(next, second) is Done <==> (second matches
                DaemonMessageView::TcpOutgoing(DaemonOutgoingView::Connect(None, Err(_))))
            &&& tcp_legacy_step(next, second) matches StepView::Done { send: close, .. } ==> (
            first matches DaemonMessageView::TcpOutgoing(
                DaemonOutgoingView::Connect(_, Ok(connect)),
            ) && close =~= seq![
                ClientMessageView::TcpOutgoing(LayerOutgoingView::Close(connect.connection_id)),
            ])
        },
        tcp_legacy_step(at, first) matches StepView::Fail { reason, .. } ==> reason
            == ReasonView::Unexpected(first),
        tcp_legacy_step(at, first) is Done ==> at is Second,
{
}

/// The address where nobody listens is on the host of the other one.
pub proof fn law_the_refused_address_is_on_the_same_host(echo: SocketAddr)
    ensures
        match (echo, refused_address(echo)) {
            (SocketAddr::V4 { ip: a, .. }, SocketAddr::V4 { ip: b, port }) => a == b && port == 1,
            (SocketAddr::V6 { ip: a, .. }, SocketAddr::V6 { ip: b, port, flowinfo, scope_id }) => a
                == b && port == 1 && flowinfo == 0 && scope_id == 0,
            _ => false,
        },
{
}

/// The checks ask for connections at the echo server, the last one also at an address where
/// nobody listens, and wait for the answer to that.
pub proof fn law_checks_ask_for_the_echo_server(
    echo: SocketAddr,
    uid: Uid,
    plain: (Vec<ClientMessage>, TcpEcho),
    with_uid: (Vec<ClientMessage>, TcpV2),
    ordered: (Vec<ClientMessage>, TcpLegacy),
)
    requires
        call_ensures(start_tcp_echo, (echo,), plain),
        call_ensures(start_tcp_v2_and_client_close, (echo, uid), with_uid),
        call_ensures(start_tcp_legacy_ordering, (echo,), ordered),
    ensures
        plain.0@.len() == 1 && plain.0@[0]@ == ClientMessageView::TcpOutgoing(
            LayerOutgoingView::Connect(SocketAddress::Ip(echo)),
        ),
        plain.1 is Connect,
        with_uid.0@.len() == 1 && with_uid.0@[0]@ == ClientMessageView::TcpOutgoing(
            LayerOutgoingView::ConnectV2(uid, SocketAddress::Ip(echo)),
        ),
        with_uid.1 == (TcpV2::Connect { uid }),
        ordered.0@.len() == 2 && ordered.0@[0]@ == plain.0@[0]@,
        ordered.0@[1]@ matches ClientMessageView::TcpOutgoing(
            LayerOutgoingView::Connect(SocketAddress::Ip(refused)),
        ) && refused == refused_address(echo),
        ordered.1 is First,
{
    assert(sent(plain.0@).len() == plain.0@.len() && sent(with_uid.0@).len()
        == with_uid.0@.len() && sent(ordered.0@).len() == ordered.0@.len());
    assert(sent(plain.0@)[0] == plain.0@[0]@);
    assert(sent(with_uid.0@)[0] == with_uid.0@[0]@);
    assert(sent(ordered.0@)[0] == ordered.0@[0]@);
    assert(sent(ordered.0@)[1] == ordered.0@[1]@);
}

/// Each step of the checks is named in what is printed for it, connections with the ID that
/// the agent gave them, and a failure names the step that failed. A check that is over says no
/// more, but for the one that still has a connection to close.
pub proof fn law_steps_are_named(
    uid: Uid,
    first_id: ConnectionId,
    id: ConnectionId,
    message: DaemonMessageView,
)
    ensures
        tcp_echo_step(TcpEcho::Connect, message) matches StepView::Await { passed, .. } ==> (
        message matches DaemonMessageView::TcpOutgoing(DaemonOutgoingView::Connect(_, Ok(connect)))
            && passed == Some(connected_line("tcp legacy connect"@, connect.connection_id))),
        tcp_echo_step(TcpEcho::Connect, message) matches StepView::Fail { check, .. } ==> check
            == "tcp legacy connect"@,
        tcp_echo_step(TcpEcho::Echo { id }, message) matches StepView::Await { passed, .. }
            ==> passed == Some(pass_line("tcp echo roundtrip"@)),
        tcp_echo_step(TcpEcho::Echo { id }, message) matches StepView::Fail { check, .. } ==> check
            == "tcp echo roundtrip"@,
        tcp_echo_step(TcpEcho::Close { id }, message) matches StepView::Done { passed, send }
            ==> passed == pass_line("tcp shutdown -> close"@) && send.len() == 0,
        tcp_echo_step(TcpEcho::Close { id }, message) matches StepView::Fail { check, .. } ==> check
            == "tcp shutdown -> close"@,
        tcp_v2_step(TcpV2::Connect { uid }, message) matches StepView::Await { passed, .. } ==> (
        message matches DaemonMessageView::TcpOutgoing(DaemonOutgoingView::Connect(_, Ok(connect)))
            && passed == Some(connected_line("tcp v2 connect"@, connect.connection_id))),
        tcp_v2_step(TcpV2::Connect { uid }, message) matches StepView::Fail { check, .. } ==> check
            == "tcp v2 connect"@,
        tcp_v2_step(TcpV2::Pong, message) matches StepView::Done { passed, send } ==> passed
            == pass_line("tcp client close is silent"@) && send.len() == 0,
        tcp_v2_step(TcpV2::Pong, message) matches StepView::Fail { check, .. } ==> check
            == "tcp client close is silent"@,
        tcp_legacy_step(TcpLegacy::First, message) matches StepView::Await { passed, .. } ==> passed
            is None,
        tcp_legacy_step(TcpLegacy::First, message) matches StepView::Fail { check, .. } ==> check
            == "tcp legacy ordering"@,
        tcp_legacy_step(TcpLegacy::Second { first_id }, message) matches StepView::Done {
            passed,
            ..
        } ==> passed == pass_line("tcp legacy connect ordering"@),
        tcp_legacy_step(TcpLegacy::Second { first_id }, message) matches StepView::Fail {
            check,
            ..
        } ==> check == "tcp legacy connect ordering"@,
{
}

/// What is written in the checks is what it is said to be.
pub proof fn law_what_the_checks_write(connect: DaemonConnect, uid: Uid)
    ensures
        tcp_echo_step(
            TcpEcho::Connect,
            DaemonMessageView::TcpOutgoing(DaemonOutgoingView::Connect(None, Ok(connect))),
        ) matches StepView::Await { send, .. } && send[0] == ClientMessageView::TcpOutgoing(
            LayerOutgoingView::Write(connect.connection_id, encode_utf8("hello, echo"@)),
        ),
        tcp_v2_step(
            TcpV2::Connect { uid },
            DaemonMessageView::TcpOutgoing(DaemonOutgoingView::Connect(Some(uid), Ok(connect))),
        ) matches StepView::Await { send, .. } && send[1] == ClientMessageView::TcpOutgoing(
            LayerOutgoingView::Write(connect.connection_id, encode_utf8("into the void"@)),
        ),
{
}

} // verus!
