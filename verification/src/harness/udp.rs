//! The check on outgoing datagrams.

use crate::chunk::{bytes_of, chunk};
use crate::harness::tcp::same_bytes;
use crate::harness::{
    connected_line, one, pass_line, passed, passed_connect, sent, Reason, ReasonView, Step,
    StepView,
};
use crate::protocol::{
    ClientMessage, ClientMessageView, ConnectionId, DaemonMessage, DaemonMessageView,
    DaemonOutgoingView, DaemonUdpOutgoing, LayerClose, LayerConnectV2, LayerOutgoingView,
    LayerUdpOutgoing, LayerWrite, SocketAddr, SocketAddress, Uid,
};
use bytes::Bytes;
use vstd::prelude::*;
use vstd::utf8::encode_utf8;

verus! {

/// What the check on datagrams waits for.
#[derive(Debug, Clone, Copy, PartialEq, Eq)]
pub enum UdpEcho {
    /// The connection.
    Connect { uid: Uid },
    /// What was written.
    Echo { id: ConnectionId },
}

impl View for UdpEcho {
    type V = UdpEcho;

    open spec fn view(&self) -> UdpEcho {
        *self
    }
}

/// How the check on datagrams goes on after a message.
pub open spec fn udp_echo_step(at: UdpEcho, message: DaemonMessageView) -> StepView<UdpEcho> {
    match at {
        UdpEcho::Connect { uid } => match message {
            DaemonMessageView::UdpOutgoing(DaemonOutgoingView::Connect(Some(answered), outcome))
                if answered == uid => match outcome {
                Ok(connect) => StepView::Await {
                    passed: Some(connected_line("udp v2 connect"@, connect.connection_id)),
                    send: seq![
                        ClientMessageView::UdpOutgoing(
                            LayerOutgoingView::Write(
                                connect.connection_id,
                                encode_utf8("udp says hi"@),
                            ),
                        ),
                    ],
                    next: UdpEcho::Echo { id: connect.connection_id },
                },
                Err(error) => StepView::Fail {
                    check: "udp v2 connect"@,
                    reason: ReasonView::Connect(error),
                },
            },
            _ => StepView::Fail {
                check: "udp v2 connect"@,
                reason: ReasonView::Unexpected(message),
            },
        },
        UdpEcho::Echo { id } => if message == DaemonMessageView::UdpOutgoing(
            DaemonOutgoingView::Read(Ok((id, encode_utf8("udp says hi"@)))),
        ) {
            StepView::Done {
                passed: pass_line("udp echo roundtrip"@),
                send: seq![ClientMessageView::UdpOutgoing(LayerOutgoingView::Close(id))],
            }
        } else {
            StepView::Fail {
                check: "udp echo roundtrip"@,
                reason: ReasonView::Unexpected(message),
            }
        },
    }
}

/// Starts the check on datagrams, with a server that sends back what it gets.
pub fn start_udp_echo_check(echo: SocketAddr, uid: Uid) -> (r: (Vec<ClientMessage>, UdpEcho))
    ensures
        sent(r.0@) == seq![
            ClientMessageView::UdpOutgoing(
                LayerOutgoingView::ConnectV2(uid, SocketAddress::Ip(echo)),
            ),
        ],
        r.1 == (UdpEcho::Connect { uid }),
{
    let connect = LayerConnectV2 { uid, remote_address: SocketAddress::Ip(echo) };
    (
        one(ClientMessage::UdpOutgoing(LayerUdpOutgoing::ConnectV2(connect))),
        UdpEcho::Connect { uid },
    )
}

/// Judges a message in the check on datagrams.
pub fn udp_echo_check(at: UdpEcho, message: DaemonMessage) -> (r: Step<UdpEcho>)
    ensures
        r@ == udp_echo_step(at, message@),
{
    match (at, message) {
        (
            UdpEcho::Connect { uid },
            DaemonMessage::UdpOutgoing(DaemonUdpOutgoing::ConnectV2(connect)),
        ) => {
            if connect.uid.0 != uid.0 {
                return Step::Fail {
                    check: "udp v2 connect",
                    reason: Reason::Unexpected(
                        DaemonMessage::UdpOutgoing(DaemonUdpOutgoing::ConnectV2(connect)),
                    ),
                };
            }
            match connect.connect {
                Ok(connect) => {
                    let id: ConnectionId = connect.connection_id;
                    let bytes = Bytes::copy_from_slice("udp says hi".as_bytes());
                    let write = LayerWrite { connection_id: id, bytes };
                    Step::Await {
                        passed: Some(passed_connect("udp v2 connect", id)),
                        send: one(ClientMessage::UdpOutgoing(LayerUdpOutgoing::Write(write))),
                        next: UdpEcho::Echo { id },
                    }
                },
                Err(error) => Step::Fail {
                    check: "udp v2 connect",
                    reason: Reason::Connect(error),
                },
            }
        },
        (UdpEcho::Connect { .. }, other) => Step::Fail {
            check: "udp v2 connect",
            reason: Reason::Unexpected(other),
        },
        (UdpEcho::Echo { id }, DaemonMessage::UdpOutgoing(DaemonUdpOutgoing::Read(Ok(read)))) => {
            if read.connection_id == id && same_bytes(
                bytes_of(&read.bytes),
                "udp says hi".as_bytes(),
            ) {
                let close = LayerClose { connection_id: id };
                Step::Done {
                    passed: passed("udp echo roundtrip"),
                    send: one(ClientMessage::UdpOutgoing(LayerUdpOutgoing::Close(close))),
                }
            } else {
                Step::Fail {
                    check: "udp echo roundtrip",
                    reason: Reason::Unexpected(
                        DaemonMessage::UdpOutgoing(DaemonUdpOutgoing::Read(Ok(read))),
                    ),
                }
            }
        },
        (UdpEcho::Echo { .. }, other) => Step::Fail {
            check: "udp echo roundtrip",
            reason: Reason::Unexpected(other),
        },
    }
}

/// The check on datagrams goes on exactly if the answer has the UID of the request and is a
/// connection, and passes exactly if what was written to that connection comes back on it.
/// The connection is closed in the end.
pub proof fn law_the_datagram_comes_back(
    uid: Uid,
    at: UdpEcho,
    message: DaemonMessageView,
    last: DaemonMessageView,
)
    ensures
        udp_echo_step(UdpEcho::Connect { uid }, message) is Await <==> (message matches
            DaemonMessageView::UdpOutgoing(DaemonOutgoingView::Connect(Some(answered), Ok(_)))
            && answered == uid),
        udp_echo_step(UdpEcho::Connect { uid }, message) matches StepView::Await {
            send,
            next,
            ..
        } ==> {
            &&& message matches DaemonMessageView::UdpOutgoing(
                DaemonOutgoingView::Connect(_, Ok(connect)),
            )
            &&& send.len() == 1
            &&& send[0] matches ClientMessageView::UdpOutgoing(LayerOutgoingView::Write(to, data))
            &&& to == connect.connection_id
            &&& udp_echo_step(next, last) is Done <==> last == DaemonMessageView::UdpOutgoing(
                DaemonOutgoingView::Read(Ok((to, data))),
            )
            &&& udp_echo_step(next, last) matches StepView::Done { send: close, .. } ==> close
                =~= seq![ClientMessageView::UdpOutgoing(LayerOutgoingView::Close(to))]
        },
        udp_echo_step(at, message) matches StepView::Fail { reason, .. } ==> match (at, message) {
            (
                UdpEcho::Connect { uid },
                DaemonMessageView::UdpOutgoing(
                    DaemonOutgoingView::Connect(Some(answered), Err(error)),
                ),
            ) if answered == uid => reason == ReasonView::Connect(error),
            _ => reason == ReasonView::Unexpected(message),
        },
        udp_echo_step(at, message) is Done ==> at is Echo,
{
}

/// The check on datagrams asks for a connection to the echo server, under a UID that it then
/// waits for.
pub proof fn law_the_datagram_check_asks_for_the_echo_server(
    echo: SocketAddr,
    uid: Uid,
    start: (Vec<ClientMessage>, UdpEcho),
)
    requires
        call_ensures(start_udp_echo_check, (echo, uid), start),
    ensures
        start.0@.len() == 1,
        start.0@[0]@ == ClientMessageView::UdpOutgoing(
            LayerOutgoingView::ConnectV2(uid, SocketAddress::Ip(echo)),
        ),
        start.1 == (UdpEcho::Connect { uid }),
{
    assert(sent(start.0@).len() == start.0@.len());
    assert(sent(start.0@)[0] == start.0@[0]@);
}

/// Each step of the check is named in what is printed for it, the connection with the ID that
/// the agent gave it, and a failure names the step that failed.
pub proof fn law_datagram_steps_are_named(uid: Uid, id: ConnectionId, message: DaemonMessageView)
    ensures
        udp_echo_step(UdpEcho::Connect { uid }, message) matches StepView::Await { passed, .. } ==> (
        message matches DaemonMessageView::UdpOutgoing(DaemonOutgoingView::Connect(_, Ok(connect)))
            && passed == Some(connected_line("udp v2 connect"@, connect.connection_id))),
        udp_echo_step(UdpEcho::Connect { uid }, message) matches StepView::Fail { check, .. }
            ==> check == "udp v2 connect"@,
        udp_echo_step(UdpEcho::Echo { id }, message) matches StepView::Done { passed, .. } ==> passed
            == pass_line("udp echo roundtrip"@),
        udp_echo_step(UdpEcho::Echo { id }, message) matches StepView::Fail { check, .. } ==> check
            == "udp echo roundtrip"@,
        udp_echo_step(UdpEcho::Connect { uid }, message) matches StepView::Await { send, .. } ==> (
        send[0] matches ClientMessageView::UdpOutgoing(LayerOutgoingView::Write(_, data)) && data
            == encode_utf8("udp says hi"@)),
{
}

} // verus!
