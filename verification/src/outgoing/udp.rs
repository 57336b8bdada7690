//! UDP flavor of the outgoing feature. The agent binds a fresh socket per "connection"
//! and connects it to the peer, so reads and writes map onto the same chunk-based
//! protocol as the stream transports.

use crate::chunk::chunk;
use crate::outgoing::{DaemonEvent, OutgoingFlavor, Transport};
use crate::protocol::{
    other_error, DaemonConnect, DaemonConnectV2, DaemonMessage, DaemonRead, DaemonUdpOutgoing,
    IoError, ResponseError, SocketAddr, SocketAddress,
};
use crate::text::joined;
use bytes::Bytes;
use vstd::prelude::*;
use vstd::slice::slice_subrange;

verus! {

/// Big enough for any datagram.
pub const RECV_BUFFER_SIZE: usize = 65535;

pub struct UdpFlavor;

/// Where to bind and what to connect to for a datagram "connection".
#[derive(Debug, PartialEq, Eq)]
pub struct DatagramTarget {
    pub bind: SocketAddr,
    pub peer: SocketAddr,
}

/// The address that a socket for talking to `peer` is bound to: any address of the
/// same family, any port.
pub open spec fn unspecified_like(peer: SocketAddr) -> SocketAddr {
    match peer {
        SocketAddr::V4 { .. } => SocketAddr::V4 { ip: 0, port: 0 },
        SocketAddr::V6 { .. } => SocketAddr::V6 { ip: 0, port: 0, flowinfo: 0, scope_id: 0 },
    }
}

impl UdpFlavor {
    /// Where to bind and connect for `address`, whose text is `address_text`. UNIX
    /// addresses take no datagrams.
    pub fn connect(address: SocketAddress, address_text: &str) -> (r: Result<
        DatagramTarget,
        IoError,
    >)
        ensures
            match address {
                SocketAddress::Ip(addr) => r == Ok::<DatagramTarget, IoError>(
                    DatagramTarget { bind: unspecified_like(addr), peer: addr },
                ),
                SocketAddress::Unix(..) => r matches Err(e) && e@ == other_error(
                    "unexpected UNIX address: "@ + address_text@,
                ),
            },
    {
        let addr = match address {
            SocketAddress::Ip(addr) => addr,
            SocketAddress::Unix(..) => {
                let text = joined("unexpected UNIX address: ", address_text, "");
                proof {
                    reveal_strlit("");
                    assert(text@ =~= "unexpected UNIX address: "@ + address_text@);
                }
                return Err(IoError::other(text));
            },
        };
        let bind = match addr {
            SocketAddr::V4 { .. } => SocketAddr::V4 { ip: 0, port: 0 },
            SocketAddr::V6 { .. } => SocketAddr::V6 { ip: 0, port: 0, flowinfo: 0, scope_id: 0 },
        };
        Ok(DatagramTarget { bind, peer: addr })
    }

    /// Whether sending a chunk went well, given that `sent` of its bytes went out.
    pub fn write(sent: usize, bytes: &Bytes) -> (r: Result<(), IoError>)
        ensures
            r is Ok <==> sent >= chunk(*bytes).len(),
            r matches Err(e) ==> e@ == other_error(
                "failed to send the whole datagram through the socket"@,
            ),
    {
        if sent < bytes.len() {
            Err(IoError::other("failed to send the whole datagram through the socket".to_owned()))
        } else {
            Ok(())
        }
    }

    /// The chunk that a datagram of `read` bytes left at the start of `buffer`. An empty
    /// datagram is treated as the end of the stream.
    pub fn read(read: usize, buffer: &[u8]) -> (r: Option<Bytes>)
        requires
            read <= buffer@.len(),
        ensures
            read == 0 ==> r is None,
            read > 0 ==> (r matches Some(b) && chunk(b) == buffer@.take(read as int)),
    {
        if read > 0 {
            let data = slice_subrange(buffer, 0, read);
            assert(data@ =~= buffer@.take(read as int));
            Some(Bytes::copy_from_slice(data))
        } else {
            None
        }
    }
}

impl OutgoingFlavor for UdpFlavor {
    open spec fn transport() -> Transport {
        Transport::Udp
    }

    fn name() -> (r: &'static str) {
        "udp-out"
    }

    fn daemon_message(event: DaemonEvent) -> (r: DaemonMessage) {
        let message = match event {
            DaemonEvent::ConnectOk { uid: None, id, local_address, peer_address } =>
                DaemonUdpOutgoing::Connect(
                Ok(
                    DaemonConnect {
                        connection_id: id,
                        remote_address: peer_address,
                        local_address,
                    },
                ),
            ),
            DaemonEvent::ConnectOk { uid: Some(uid), id, local_address, peer_address } =>
                DaemonUdpOutgoing::ConnectV2(
                DaemonConnectV2 {
                    uid,
                    connect: Ok(
                        DaemonConnect {
                            connection_id: id,
                            remote_address: peer_address,
                            local_address,
                        },
                    ),
                },
            ),
            DaemonEvent::ConnectErr { uid: None, error } => DaemonUdpOutgoing::Connect(
                Err(ResponseError::RemoteIo(error)),
            ),
            DaemonEvent::ConnectErr { uid: Some(uid), error } => DaemonUdpOutgoing::ConnectV2(
                DaemonConnectV2 { uid, connect: Err(ResponseError::RemoteIo(error)) },
            ),
            DaemonEvent::Read(id, bytes) => DaemonUdpOutgoing::Read(
                Ok(DaemonRead { connection_id: id, bytes }),
            ),
            DaemonEvent::Close(id) => DaemonUdpOutgoing::Close(id),
        };
        DaemonMessage::UdpOutgoing(message)
    }
}

/// The socket for talking to a peer is of the family of the peer, and takes any address and
/// any port.
pub proof fn law_sockets_are_bound_like_their_peer(peer: SocketAddr)
    ensures
        match unspecified_like(peer) {
            SocketAddr::V4 { ip, port } => peer is V4 && ip == 0 && port == 0,
            SocketAddr::V6 { ip, port, flowinfo, scope_id } => peer is V6 && ip == 0 && port == 0
                && flowinfo == 0 && scope_id == 0,
        },
{
}

/// Datagrams go to the very address of the request, from a socket of its family; a UNIX
/// address takes none, and its text is told.
pub proof fn law_datagrams_go_to_the_address(
    address: SocketAddress,
    text: &str,
    target: Result<DatagramTarget, IoError>,
)
    requires
        call_ensures(UdpFlavor::connect, (address, text), target),
    ensures
        target is Ok <==> address is Ip,
        target matches Ok(dialed) ==> address == SocketAddress::Ip(dialed.peer) && (dialed.bind
            is V4 <==> dialed.peer is V4),
        target matches Err(error) ==> error.message@ == "unexpected UNIX address: "@ + text@,
{
    if let Err(error) = target {
        assert(error@.message == error.message@);
    }
}

/// A datagram is sent exactly if all of its bytes are, and one that came is brought with all
/// of its bytes and no others. An empty one is the end of the peer's data.
pub proof fn law_datagrams_are_whole(
    sent: usize,
    bytes: Bytes,
    outcome: Result<(), IoError>,
    read: usize,
    buffer: &[u8],
    r: Option<Bytes>,
)
    requires
        read <= buffer@.len(),
        call_ensures(UdpFlavor::write, (sent, &bytes), outcome),
        call_ensures(UdpFlavor::read, (read, buffer), r),
    ensures
        outcome is Ok <==> sent >= chunk(bytes).len(),
        r is None <==> read == 0,
        r matches Some(brought) ==> chunk(brought).len() == read && forall|i: int|
            0 <= i < read ==> #[trigger] chunk(brought)[i] == buffer@[i],
{
}

} // verus!
