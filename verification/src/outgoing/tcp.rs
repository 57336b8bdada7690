//! TCP and UNIX stream flavor of the outgoing feature. Both transports share one
//! message family, the address decides which one is dialed.

use crate::chunk::{buffered, chunk};
use crate::outgoing::{DaemonEvent, OutgoingFlavor, Transport};
use crate::protocol::{
    other_error, DaemonConnect, DaemonConnectV2, DaemonMessage, DaemonRead, DaemonTcpOutgoing,
    IoError, ResponseError, SocketAddr, SocketAddress, UnixAddr,
};
use bytes::{Bytes, BytesMut};
use vstd::prelude::*;

verus! {

/// How many bytes are read from a peer at a time.
pub const READ_BUFFER_CAPACITY: usize = 64 * 1024;

pub struct TcpFlavor;

/// What to dial for a stream connection.
#[derive(Debug, PartialEq, Eq)]
pub enum StreamTarget {
    Tcp(SocketAddr),
    /// A UNIX socket at this path; the path of an abstract name starts with a NUL byte.
    Unix(Vec<u8>),
}

/// The kind of address that the UNIX socket address with this path and this abstract
/// name is. A path goes before a name, and an address with neither is unnamed.
pub fn convert_unix_addr(path: Option<Vec<u8>>, name: Option<Vec<u8>>) -> (r: UnixAddr)
    ensures
        r == (match (path, name) {
            (Some(path), _) => UnixAddr::Pathname(path),
            (None, Some(name)) => UnixAddr::Abstract(name),
            (None, None) => UnixAddr::Unnamed,
        }),
{
    match path {
        Some(path) => UnixAddr::Pathname(path),
        None => match name {
            Some(name) => UnixAddr::Abstract(name),
            None => UnixAddr::Unnamed,
        },
    }
}

impl TcpFlavor {
    /// What to dial for `address`. There is nothing to dial at an unnamed UNIX address.
    pub fn connect(address: SocketAddress) -> (r: Result<StreamTarget, IoError>)
        ensures
            match address {
                SocketAddress::Ip(addr) => r == Ok::<StreamTarget, IoError>(
                    StreamTarget::Tcp(addr),
                ),
                SocketAddress::Unix(UnixAddr::Pathname(path)) => r == Ok::<StreamTarget, IoError>(
                    StreamTarget::Unix(path),
                ),
                SocketAddress::Unix(UnixAddr::Abstract(name)) => r matches Ok(
                    StreamTarget::Unix(path),
                ) && path@ == seq![0u8] + name@,
                SocketAddress::Unix(UnixAddr::Unnamed) => r matches Err(e) && e@ == other_error(
                    "unexpected unnamed UNIX address"@,
                ),
            },
    {
        match address {
            SocketAddress::Ip(addr) => Ok(StreamTarget::Tcp(addr)),
            SocketAddress::Unix(UnixAddr::Pathname(path)) => Ok(StreamTarget::Unix(path)),
            SocketAddress::Unix(UnixAddr::Abstract(name)) => {
                // Abstract names are "paths" that start with a NUL byte.
                let mut path = name;
                path.insert(0, 0);
                assert(path@ =~= seq![0u8] + name@);
                Ok(StreamTarget::Unix(path))
            },
            SocketAddress::Unix(UnixAddr::Unnamed) => Err(
                IoError::other("unexpected unnamed UNIX address".to_owned()),
            ),
        }
    }

    /// The chunk that a read of `read` bytes left in `buffer`. Nothing read means that
    /// the peer closed its write side.
    pub fn read(read: usize, buffer: BytesMut) -> (r: Option<Bytes>)
        ensures
            read == 0 ==> r is None,
            read > 0 ==> (r matches Some(b) && chunk(b) == buffered(buffer)),
    {
        if read > 0 {
            Some(buffer.freeze())
        } else {
            None
        }
    }
}

impl OutgoingFlavor for TcpFlavor {
    open spec fn transport() -> Transport {
        Transport::Tcp
    }

    fn name() -> (r: &'static str) {
        "tcp-out"
    }

    fn daemon_message(event: DaemonEvent) -> (r: DaemonMessage) {
        let message = match event {
            DaemonEvent::ConnectOk { uid: None, id, local_address, peer_address } =>
                DaemonTcpOutgoing::Connect(
                Ok(
                    DaemonConnect {
                        connection_id: id,
                        remote_address: peer_address,
                        local_address,
                    },
                ),
            ),
            DaemonEvent::ConnectOk { uid: Some(uid), id, local_address, peer_address } =>
                DaemonTcpOutgoing::ConnectV2(
                DaemonConnectV2 {
                    uid,
                    connect: Ok(
                        DaemonConnect {
                            connection_id: id,
                            remote_address: peer_address,
                            local_address,
                        },
                    ),
                },
            ),
            DaemonEvent::ConnectErr { uid: None, error } => DaemonTcpOutgoing::Connect(
                Err(ResponseError::RemoteIo(error)),
            ),
            DaemonEvent::ConnectErr { uid: Some(uid), error } => DaemonTcpOutgoing::ConnectV2(
                DaemonConnectV2 { uid, connect: Err(ResponseError::RemoteIo(error)) },
            ),
            DaemonEvent::Read(id, bytes) => DaemonTcpOutgoing::Read(
                Ok(DaemonRead { connection_id: id, bytes }),
            ),
            DaemonEvent::Close(id) => DaemonTcpOutgoing::Close(id),
        };
        DaemonMessage::TcpOutgoing(message)
    }
}

/// What is dialed is the address of the request: an IP address as it is, and a UNIX socket by
/// its path, in which a leading NUL byte marks an abstract name. Two addresses are dialed
/// alike only if they mean the same socket, and only an unnamed one cannot be dialed.
pub proof fn law_the_address_decides_what_is_dialed(
    address: SocketAddress,
    target: Result<StreamTarget, IoError>,
)
    requires
        call_ensures(TcpFlavor::connect, (address,), target),
    ensures
        target is Err <==> address == SocketAddress::Unix(UnixAddr::Unnamed),
        address matches SocketAddress::Ip(ip) ==> (target matches Ok(StreamTarget::Tcp(dialed))
            && dialed == ip),
        address matches SocketAddress::Unix(UnixAddr::Pathname(path)) ==> (target matches Ok(
            StreamTarget::Unix(dialed),
        ) && dialed@ == path@),
        address matches SocketAddress::Unix(UnixAddr::Abstract(name)) ==> (target matches Ok(
            StreamTarget::Unix(dialed),
        ) && dialed@.len() == name@.len() + 1 && dialed@[0] == 0 && dialed@.skip(1) == name@),
{
    if let SocketAddress::Unix(UnixAddr::Abstract(name)) = address {
        if let Ok(StreamTarget::Unix(dialed)) = target {
            assert(dialed@.skip(1) =~= name@);
        }
    }
}

/// A read brings all that it left in the buffer, and the end of the peer's data exactly if
/// nothing was read.
pub proof fn law_a_read_brings_what_was_read(read: usize, buffer: BytesMut, r: Option<Bytes>)
    requires
        call_ensures(TcpFlavor::read, (read, buffer), r),
    ensures
        r is None <==> read == 0,
        r matches Some(bytes) ==> chunk(bytes) == buffered(buffer),
{
}

/// A UNIX address is told by its path, if it has one, and else by its abstract name; it is
/// unnamed only if it has neither.
pub proof fn law_unix_addresses_keep_their_names(
    path: Option<Vec<u8>>,
    name: Option<Vec<u8>>,
    address: UnixAddr,
)
    requires
        call_ensures(convert_unix_addr, (path, name), address),
    ensures
        path matches Some(p) ==> address == UnixAddr::Pathname(p),
        path is None ==> (name matches Some(n) ==> address == UnixAddr::Abstract(n)),
        address is Unnamed <==> path is None && name is None,
{
}

} // verus!
