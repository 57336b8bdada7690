//! Outgoing traffic: the agent makes connections on the client's behalf and relays
//! data in both directions.
//!
//! The protocol has one message family per transport, with identical shapes.
//! [`OutgoingFlavor`] captures what differs, so the router and the connections are
//! written once for all transports.

pub mod conn;
pub mod router;
pub mod tcp;
pub mod udp;

use crate::chunk::chunk;
use crate::protocol::{
    ConnectionId, DaemonConnect, DaemonMessage, DaemonMessageView, DaemonOutgoingView, IoError,
    LayerClose, LayerConnect, LayerConnectV2, LayerTcpOutgoing, LayerUdpOutgoing, LayerWrite,
    ResponseErrorView, SocketAddress, Uid,
};
use bytes::Bytes;
use vstd::prelude::*;

verus! {

/// The message family that a flavor speaks.
#[derive(Debug, Clone, Copy, PartialEq, Eq)]
pub enum Transport {
    /// TCP and UNIX streams.
    Tcp,
    Udp,
}

/// The agent message that says `event` in the family of `transport`.
pub open spec fn message_of(transport: Transport, event: DaemonOutgoingView) -> DaemonMessageView {
    match transport {
        Transport::Tcp => DaemonMessageView::TcpOutgoing(event),
        Transport::Udp => DaemonMessageView::UdpOutgoing(event),
    }
}

/// The name of a transport, used in the names of actors and process groups.
pub open spec fn transport_name(transport: Transport) -> Seq<char> {
    match transport {
        Transport::Tcp => "tcp-out"@,
        Transport::Udp => "udp-out"@,
    }
}

/// What differs between the transports of the outgoing feature.
pub trait OutgoingFlavor: Sized {
    spec fn transport() -> Transport;

    /// Used in actor names (`client-{N}.{name}`), process group names and logs.
    fn name() -> (r: &'static str)
        ensures
            r@ == transport_name(Self::transport()),
    ;

    /// Wraps an event into the flavor's message family.
    fn daemon_message(event: DaemonEvent) -> (r: DaemonMessage)
        ensures
            r@ == message_of(Self::transport(), event@),
    ;
}

/// Client requests of the outgoing feature, whatever the transport.
#[derive(Debug, PartialEq, Eq)]
pub enum LayerEvent {
    Connect {
        /// `None` for the legacy `Connect` request, `Some` for `ConnectV2`.
        request_uid: Option<Uid>,
        address: SocketAddress,
    },
    /// Data for an established connection. Empty bytes are the client's write-side
    /// shutdown signal.
    Write { id: ConnectionId, bytes: Bytes },
    Close { id: ConnectionId },
}

impl From<LayerTcpOutgoing> for LayerEvent {
    fn from(message: LayerTcpOutgoing) -> (r: LayerEvent) {
        match message {
            LayerTcpOutgoing::Connect(connect) => LayerEvent::Connect {
                request_uid: None,
                address: connect.remote_address,
            },
            LayerTcpOutgoing::ConnectV2(connect) => LayerEvent::Connect {
                request_uid: Some(connect.uid),
                address: connect.remote_address,
            },
            LayerTcpOutgoing::Write(write) => LayerEvent::Write {
                id: write.connection_id,
                bytes: write.bytes,
            },
            LayerTcpOutgoing::Close(close) => LayerEvent::Close { id: close.connection_id },
        }
    }
}

/// What a client request of the stream transports means, whatever the transport.
pub open spec fn tcp_event(message: LayerTcpOutgoing) -> LayerEvent {
    match message {
        LayerTcpOutgoing::Connect(c) => LayerEvent::Connect {
            request_uid: None,
            address: c.remote_address,
        },
        LayerTcpOutgoing::ConnectV2(c) => LayerEvent::Connect {
            request_uid: Some(c.uid),
            address: c.remote_address,
        },
        LayerTcpOutgoing::Write(w) => LayerEvent::Write {
            id: w.connection_id,
            bytes: w.bytes,
        },
        LayerTcpOutgoing::Close(c) => LayerEvent::Close { id: c.connection_id },
    }
}

impl vstd::std_specs::convert::FromSpecImpl<LayerTcpOutgoing> for LayerEvent {
    open spec fn obeys_from_spec() -> bool {
        true
    }

    open spec fn from_spec(message: LayerTcpOutgoing) -> LayerEvent {
        tcp_event(message)
    }
}

impl From<LayerUdpOutgoing> for LayerEvent {
    fn from(message: LayerUdpOutgoing) -> (r: LayerEvent) {
        match message {
            LayerUdpOutgoing::Connect(connect) => LayerEvent::Connect {
                request_uid: None,
                address: connect.remote_address,
            },
            LayerUdpOutgoing::ConnectV2(connect) => LayerEvent::Connect {
                request_uid: Some(connect.uid),
                address: connect.remote_address,
            },
            LayerUdpOutgoing::Write(write) => LayerEvent::Write {
                id: write.connection_id,
                bytes: write.bytes,
            },
            LayerUdpOutgoing::Close(close) => LayerEvent::Close { id: close.connection_id },
        }
    }
}

/// What a client request of the datagram transport means, whatever the transport.
pub open spec fn udp_event(message: LayerUdpOutgoing) -> LayerEvent {
    match message {
        LayerUdpOutgoing::Connect(c) => LayerEvent::Connect {
            request_uid: None,
            address: c.remote_address,
        },
        LayerUdpOutgoing::ConnectV2(c) => LayerEvent::Connect {
            request_uid: Some(c.uid),
            address: c.remote_address,
        },
        LayerUdpOutgoing::Write(w) => LayerEvent::Write {
            id: w.connection_id,
            bytes: w.bytes,
        },
        LayerUdpOutgoing::Close(c) => LayerEvent::Close { id: c.connection_id },
    }
}

impl vstd::std_specs::convert::FromSpecImpl<LayerUdpOutgoing> for LayerEvent {
    open spec fn obeys_from_spec() -> bool {
        true
    }

    open spec fn from_spec(message: LayerUdpOutgoing) -> LayerEvent {
        udp_event(message)
    }
}

/// Events of the outgoing feature that the client is told of, one-to-one with the
/// agent messages of each transport.
#[derive(PartialEq, Eq)]
pub enum DaemonEvent {
    ConnectOk {
        /// `None` for the legacy `Connect` request, `Some` for `ConnectV2`.
        uid: Option<Uid>,
        id: ConnectionId,
        local_address: SocketAddress,
        peer_address: SocketAddress,
    },
    ConnectErr { uid: Option<Uid>, error: IoError },
    /// Data read from the peer. Empty bytes mean the peer shut down its write side.
    Read(ConnectionId, Bytes),
    /// The connection is gone and the client should forget its ID.
    Close(ConnectionId),
}

impl View for DaemonEvent {
    type V = DaemonOutgoingView;

    open spec fn view(&self) -> DaemonOutgoingView {
        match self {
            DaemonEvent::ConnectOk { uid, id, local_address, peer_address } =>
                DaemonOutgoingView::Connect(
                *uid,
                Ok(
                    DaemonConnect {
                        connection_id: *id,
                        remote_address: *peer_address,
                        local_address: *local_address,
                    },
                ),
            ),
            DaemonEvent::ConnectErr { uid, error } => DaemonOutgoingView::Connect(
                *uid,
                Err(ResponseErrorView::RemoteIo(error@)),
            ),
            DaemonEvent::Read(id, bytes) => DaemonOutgoingView::Read(Ok((*id, chunk(*bytes)))),
            DaemonEvent::Close(id) => DaemonOutgoingView::Close(*id),
        }
    }
}

/// A request means what it says: which connection it is about or where it wants to be
/// connected, under which UID, and with which data. It means the same over both transports.
pub proof fn law_requests_mean_what_they_say(
    connect: LayerConnect,
    connect_v2: LayerConnectV2,
    write: LayerWrite,
    close: LayerClose,
)
    ensures
        tcp_event(LayerTcpOutgoing::Connect(connect)) matches LayerEvent::Connect {
            request_uid,
            address,
        } && request_uid is None && address == connect.remote_address,
        tcp_event(LayerTcpOutgoing::ConnectV2(connect_v2)) matches LayerEvent::Connect {
            request_uid,
            address,
        } && request_uid == Some(connect_v2.uid) && address == connect_v2.remote_address,
        tcp_event(LayerTcpOutgoing::Write(write)) matches LayerEvent::Write { id, bytes } && id
            == write.connection_id && bytes == write.bytes,
        tcp_event(LayerTcpOutgoing::Close(close)) matches LayerEvent::Close { id } && id
            == close.connection_id,
        udp_event(LayerUdpOutgoing::Connect(connect)) == tcp_event(
            LayerTcpOutgoing::Connect(connect),
        ),
        udp_event(LayerUdpOutgoing::ConnectV2(connect_v2)) == tcp_event(
            LayerTcpOutgoing::ConnectV2(connect_v2),
        ),
        udp_event(LayerUdpOutgoing::Write(write)) == tcp_event(LayerTcpOutgoing::Write(write)),
        udp_event(LayerUdpOutgoing::Close(close)) == tcp_event(LayerTcpOutgoing::Close(close)),
{
}

/// A message tells an event whole and names its transport: no two events, and no two
/// transports, make the same message.
pub proof fn law_messages_tell_events_apart(
    transport: Transport,
    event: DaemonOutgoingView,
    other_transport: Transport,
    other: DaemonOutgoingView,
)
    ensures
        message_of(transport, event) == message_of(other_transport, other) <==> transport
            == other_transport && event == other,
        message_of(transport, event) is TcpOutgoing <==> transport is Tcp,
        message_of(transport, event) is UdpOutgoing <==> transport is Udp,
        transport_name(transport) == if transport is Tcp {
            "tcp-out"@
        } else {
            "udp-out"@
        },
{
}

/// The client is told of an event what it is about: of a connection that was made its ID and
/// both of its ends, of data the data, and of a failure the error.
pub proof fn law_events_are_told_whole(
    uid: Option<Uid>,
    id: ConnectionId,
    local_address: SocketAddress,
    peer_address: SocketAddress,
    error: IoError,
    bytes: Bytes,
)
    ensures
        (DaemonEvent::ConnectOk { uid, id, local_address, peer_address })@ matches
            DaemonOutgoingView::Connect(answered, Ok(connect)) && answered == uid
            && connect.connection_id == id && connect.remote_address == peer_address
            && connect.local_address == local_address,
        (DaemonEvent::ConnectErr { uid, error })@ matches DaemonOutgoingView::Connect(
            answered,
            Err(ResponseErrorView::RemoteIo(told)),
        ) && answered == uid && told.message == error.message@ && told.kind == error.kind@,
        DaemonEvent::Read(id, bytes)@ matches DaemonOutgoingView::Read(Ok((of, data))) && of == id
            && data == chunk(bytes),
        DaemonEvent::Close(id)@ matches DaemonOutgoingView::Close(of) && of == id,
{
}

/// What is said of a transport is said as it is, in a message of that transport.
pub proof fn law_events_are_said_of_their_transport(event: DaemonOutgoingView)
    ensures
        message_of(Transport::Tcp, event) == DaemonMessageView::TcpOutgoing(event),
        message_of(Transport::Udp, event) == DaemonMessageView::UdpOutgoing(event),
{
}

} // verus!
