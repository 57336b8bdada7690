//! The messages that an agent and its client exchange, as far as the agent reads them.

use crate::chunk::chunk;
use crate::version::{Version, VersionView};
use bytes::Bytes;
use vstd::prelude::*;

verus! {

pub type Port = u16;

pub type ConnectionId = u64;

/// A per-connection HTTP request ID.
pub type RequestId = u16;

/// Unique ID of a connect request.
#[derive(Debug, Clone, Copy, PartialEq, Eq)]
pub struct Uid(pub u128);

#[derive(Debug, Clone, Copy, PartialEq, Eq)]
pub enum IpAddr {
    V4(u32),
    V6(u128),
}

#[derive(Debug, Clone, Copy, PartialEq, Eq)]
#[allow(inconsistent_fields)]
pub enum SocketAddr {
    V4 { ip: u32, port: Port },
    V6 { ip: u128, port: Port, flowinfo: u32, scope_id: u32 },
}

#[derive(Debug, PartialEq, Eq)]
pub enum UnixAddr {
    Pathname(Vec<u8>),
    /// Abstract name, without the NUL byte that marks it as one.
    Abstract(Vec<u8>),
    Unnamed,
}

#[derive(Debug, PartialEq, Eq)]
pub enum SocketAddress {
    Ip(SocketAddr),
    Unix(UnixAddr),
}

// ---------------------------------------------------------------------------------
// Errors
// ---------------------------------------------------------------------------------

/// The kinds of IO errors that the agent tells apart.
#[derive(Debug, PartialEq, Eq)]
pub enum IoErrorKind {
    TimedOut,
    NotFound,
    PermissionDenied,
    /// Any other kind, by its text.
    Other(String),
}

pub enum IoErrorKindView {
    TimedOut,
    NotFound,
    PermissionDenied,
    Other(Seq<char>),
}

impl View for IoErrorKind {
    type V = IoErrorKindView;

    open spec fn view(&self) -> IoErrorKindView {
        match self {
            IoErrorKind::TimedOut => IoErrorKindView::TimedOut,
            IoErrorKind::NotFound => IoErrorKindView::NotFound,
            IoErrorKind::PermissionDenied => IoErrorKindView::PermissionDenied,
            IoErrorKind::Other(text) => IoErrorKindView::Other(text@),
        }
    }
}

/// An IO error: its kind and its text.
#[derive(Debug, PartialEq, Eq)]
pub struct IoError {
    pub kind: IoErrorKind,
    pub message: String,
}

pub struct IoErrorView {
    pub kind: IoErrorKindView,
    pub message: Seq<char>,
}

impl View for IoError {
    type V = IoErrorView;

    open spec fn view(&self) -> IoErrorView {
        IoErrorView { kind: self.kind@, message: self.message@ }
    }
}

/// The error of an operation that took too long.
pub open spec fn timed_out() -> IoErrorView {
    IoErrorView { kind: IoErrorKindView::TimedOut, message: "timed out"@ }
}

/// An error of no particular kind, with a text of its own.
pub open spec fn other_error(message: Seq<char>) -> IoErrorView {
    IoErrorView { kind: IoErrorKindView::Other("other error"@), message }
}

impl IoError {
    pub fn timed_out() -> (r: IoError)
        ensures
            r@ == timed_out(),
    {
        IoError { kind: IoErrorKind::TimedOut, message: "timed out".to_owned() }
    }

    pub fn other(message: String) -> (r: IoError)
        ensures
            r@ == other_error(message@),
    {
        IoError { kind: IoErrorKind::Other("other error".to_owned()), message }
    }
}

/// Why a DNS lookup failed, as told to the client.
#[derive(Debug, PartialEq, Eq)]
pub enum ResolveErrorKindInternal {
    Message(String),
    NoConnections,
    /// The server had no records; holds its response code.
    NoRecordsFound(u16),
    Timeout,
    NotFound,
    PermissionDenied,
    Unknown,
}

pub enum ResolveErrorView {
    Message(Seq<char>),
    NoConnections,
    NoRecordsFound(u16),
    Timeout,
    NotFound,
    PermissionDenied,
    Unknown,
}

impl View for ResolveErrorKindInternal {
    type V = ResolveErrorView;

    open spec fn view(&self) -> ResolveErrorView {
        match self {
            ResolveErrorKindInternal::Message(text) => ResolveErrorView::Message(text@),
            ResolveErrorKindInternal::NoConnections => ResolveErrorView::NoConnections,
            ResolveErrorKindInternal::NoRecordsFound(code) => ResolveErrorView::NoRecordsFound(
                *code,
            ),
            ResolveErrorKindInternal::Timeout => ResolveErrorView::Timeout,
            ResolveErrorKindInternal::NotFound => ResolveErrorView::NotFound,
            ResolveErrorKindInternal::PermissionDenied => ResolveErrorView::PermissionDenied,
            ResolveErrorKindInternal::Unknown => ResolveErrorView::Unknown,
        }
    }
}

/// Why the agent could not do what the client asked for.
#[derive(Debug, PartialEq, Eq)]
pub enum ResponseError {
    RemoteIo(IoError),
    DnsLookup(ResolveErrorKindInternal),
}

pub enum ResponseErrorView {
    RemoteIo(IoErrorView),
    DnsLookup(ResolveErrorView),
}

impl View for ResponseError {
    type V = ResponseErrorView;

    open spec fn view(&self) -> ResponseErrorView {
        match self {
            ResponseError::RemoteIo(error) => ResponseErrorView::RemoteIo(error@),
            ResponseError::DnsLookup(kind) => ResponseErrorView::DnsLookup(kind@),
        }
    }
}

// ---------------------------------------------------------------------------------
// DNS
// ---------------------------------------------------------------------------------

#[derive(Debug, PartialEq, Eq)]
pub struct LookupRecord {
    pub name: String,
    pub ip: IpAddr,
}

pub struct LookupRecordView {
    pub name: Seq<char>,
    pub ip: IpAddr,
}

impl View for LookupRecord {
    type V = LookupRecordView;

    open spec fn view(&self) -> LookupRecordView {
        LookupRecordView { name: self.name@, ip: self.ip }
    }
}

/// The records that a lookup found, in the order of the answer.
#[derive(Debug, PartialEq, Eq)]
pub struct DnsLookup(pub Vec<LookupRecord>);

impl View for DnsLookup {
    type V = Seq<LookupRecordView>;

    open spec fn view(&self) -> Seq<LookupRecordView> {
        self.0@.map_values(|r: LookupRecord| r@)
    }
}

#[derive(Debug, Clone, Copy, PartialEq, Eq)]
pub enum AddressFamily {
    Ipv4Only,
    Ipv6Only,
    Both,
    Any,
    UnknownAddressFamilyFromNewerClient,
}

#[derive(Debug, Clone, Copy, PartialEq, Eq)]
pub enum SockType {
    Stream,
    Dgram,
    Any,
}

#[derive(Debug, PartialEq, Eq)]
pub struct GetAddrInfoRequestV2 {
    pub node: String,
    pub service_port: Port,
    pub family: AddressFamily,
    pub socktype: SockType,
    pub flags: i32,
    pub protocol: i32,
}

pub struct GetAddrInfoRequestView {
    pub node: Seq<char>,
    pub service_port: Port,
    pub family: AddressFamily,
    pub socktype: SockType,
    pub flags: i32,
    pub protocol: i32,
}

impl View for GetAddrInfoRequestV2 {
    type V = GetAddrInfoRequestView;

    open spec fn view(&self) -> GetAddrInfoRequestView {
        GetAddrInfoRequestView {
            node: self.node@,
            service_port: self.service_port,
            family: self.family,
            socktype: self.socktype,
            flags: self.flags,
            protocol: self.protocol,
        }
    }
}

// ---------------------------------------------------------------------------------
// Outgoing traffic
// ---------------------------------------------------------------------------------

#[derive(Debug, PartialEq, Eq)]
pub struct LayerConnect {
    pub remote_address: SocketAddress,
}

#[derive(Debug, PartialEq, Eq)]
pub struct LayerConnectV2 {
    pub uid: Uid,
    pub remote_address: SocketAddress,
}

#[derive(Debug, PartialEq, Eq)]
pub struct LayerWrite {
    pub connection_id: ConnectionId,
    pub bytes: Bytes,
}

#[derive(Debug, PartialEq, Eq)]
pub struct LayerClose {
    pub connection_id: ConnectionId,
}

/// Client requests of the stream transports.
#[derive(Debug, PartialEq, Eq)]
pub enum LayerTcpOutgoing {
    Connect(LayerConnect),
    ConnectV2(LayerConnectV2),
    Write(LayerWrite),
    Close(LayerClose),
}

/// Client requests of the datagram transport.
#[derive(Debug, PartialEq, Eq)]
pub enum LayerUdpOutgoing {
    Connect(LayerConnect),
    ConnectV2(LayerConnectV2),
    Write(LayerWrite),
    Close(LayerClose),
}

/// What a client request for outgoing traffic says, whatever the transport.
pub enum LayerOutgoingView {
    Connect(SocketAddress),
    ConnectV2(Uid, SocketAddress),
    Write(ConnectionId, Seq<u8>),
    Close(ConnectionId),
}

impl View for LayerTcpOutgoing {
    type V = LayerOutgoingView;

    open spec fn view(&self) -> LayerOutgoingView {
        match self {
            LayerTcpOutgoing::Connect(c) => LayerOutgoingView::Connect(c.remote_address),
            LayerTcpOutgoing::ConnectV2(c) => LayerOutgoingView::ConnectV2(
                c.uid,
                c.remote_address,
            ),
            LayerTcpOutgoing::Write(w) => LayerOutgoingView::Write(
                w.connection_id,
                chunk(w.bytes),
            ),
            LayerTcpOutgoing::Close(c) => LayerOutgoingView::Close(c.connection_id),
        }
    }
}

impl View for LayerUdpOutgoing {
    type V = LayerOutgoingView;

    open spec fn view(&self) -> LayerOutgoingView {
        match self {
            LayerUdpOutgoing::Connect(c) => LayerOutgoingView::Connect(c.remote_address),
            LayerUdpOutgoing::ConnectV2(c) => LayerOutgoingView::ConnectV2(
                c.uid,
                c.remote_address,
            ),
            LayerUdpOutgoing::Write(w) => LayerOutgoingView::Write(
                w.connection_id,
                chunk(w.bytes),
            ),
            LayerUdpOutgoing::Close(c) => LayerOutgoingView::Close(c.connection_id),
        }
    }
}

#[derive(Debug, PartialEq, Eq)]
pub struct DaemonConnect {
    pub connection_id: ConnectionId,
    pub remote_address: SocketAddress,
    pub local_address: SocketAddress,
}

#[derive(Debug, PartialEq, Eq)]
pub struct DaemonConnectV2 {
    pub uid: Uid,
    pub connect: Result<DaemonConnect, ResponseError>,
}

#[derive(Debug, PartialEq, Eq)]
pub struct DaemonRead {
    pub connection_id: ConnectionId,
    pub bytes: Bytes,
}

/// Agent messages of the stream transports.
#[derive(Debug, PartialEq, Eq)]
pub enum DaemonTcpOutgoing {
    Connect(Result<DaemonConnect, ResponseError>),
    ConnectV2(DaemonConnectV2),
    Read(Result<DaemonRead, ResponseError>),
    Close(ConnectionId),
}

/// Agent messages of the datagram transport.
#[derive(Debug, PartialEq, Eq)]
pub enum DaemonUdpOutgoing {
    Connect(Result<DaemonConnect, ResponseError>),
    ConnectV2(DaemonConnectV2),
    Read(Result<DaemonRead, ResponseError>),
    Close(ConnectionId),
}

/// What an agent message for outgoing traffic says, whatever the transport.
pub enum DaemonOutgoingView {
    /// Answer to a connect request; the UID is the request's, if it had one.
    Connect(Option<Uid>, Result<DaemonConnect, ResponseErrorView>),
    Read(Result<(ConnectionId, Seq<u8>), ResponseErrorView>),
    Close(ConnectionId),
}

pub open spec fn connect_view(r: Result<DaemonConnect, ResponseError>) -> Result<
    DaemonConnect,
    ResponseErrorView,
> {
    match r {
        Ok(c) => Ok(c),
        Err(e) => Err(e@),
    }
}

pub open spec fn read_view(r: Result<DaemonRead, ResponseError>) -> Result<
    (ConnectionId, Seq<u8>),
    ResponseErrorView,
> {
    match r {
        Ok(read) => Ok((read.connection_id, chunk(read.bytes))),
        Err(e) => Err(e@),
    }
}

impl View for DaemonTcpOutgoing {
    type V = DaemonOutgoingView;

    open spec fn view(&self) -> DaemonOutgoingView {
        match self {
            DaemonTcpOutgoing::Connect(r) => DaemonOutgoingView::Connect(None, connect_view(*r)),
            DaemonTcpOutgoing::ConnectV2(c) => DaemonOutgoingView::Connect(
                Some(c.uid),
                connect_view(c.connect),
            ),
            DaemonTcpOutgoing::Read(r) => DaemonOutgoingView::Read(read_view(*r)),
            DaemonTcpOutgoing::Close(id) => DaemonOutgoingView::Close(*id),
        }
    }
}

impl View for DaemonUdpOutgoing {
    type V = DaemonOutgoingView;

    open spec fn view(&self) -> DaemonOutgoingView {
        match self {
            DaemonUdpOutgoing::Connect(r) => DaemonOutgoingView::Connect(None, connect_view(*r)),
            DaemonUdpOutgoing::ConnectV2(c) => DaemonOutgoingView::Connect(
                Some(c.uid),
                connect_view(c.connect),
            ),
            DaemonUdpOutgoing::Read(r) => DaemonOutgoingView::Read(read_view(*r)),
            DaemonUdpOutgoing::Close(id) => DaemonOutgoingView::Close(*id),
        }
    }
}

// ---------------------------------------------------------------------------------
// Messages
// ---------------------------------------------------------------------------------

#[derive(Debug, PartialEq, Eq)]
pub enum FileRequest {
    /// Open the file at this path, with the default options.
    Open { path: String },
    /// Any other request.
    Other,
}

/// A message of the client. What the agent never reads of a message is left out.
#[derive(Debug, PartialEq, Eq)]
pub enum ClientMessage {
    TcpOutgoing(LayerTcpOutgoing),
    UdpOutgoing(LayerUdpOutgoing),
    /// The first version of the request, widened to the second one.
    GetAddrInfoRequest(GetAddrInfoRequestV2),
    GetAddrInfoRequestV2(GetAddrInfoRequestV2),
    Ping,
    SwitchProtocolVersion(Version),
    ReadyForLogs,
    GetEnvVarsRequest,
    Close,
    OperatorPong,
    ShareLink,
    FileRequest(FileRequest),
    Tcp,
    TcpSteal,
    SeqpacketOutgoing,
    ReverseDnsLookup,
    Vpn,
    PauseTargetRequest,
}

/// What a client message says.
pub enum ClientMessageView {
    TcpOutgoing(LayerOutgoingView),
    UdpOutgoing(LayerOutgoingView),
    GetAddrInfoRequest(GetAddrInfoRequestView),
    GetAddrInfoRequestV2(GetAddrInfoRequestView),
    Ping,
    SwitchProtocolVersion(VersionView),
    ReadyForLogs,
    GetEnvVarsRequest,
    Close,
    OperatorPong,
    ShareLink,
    /// A request to open the file at this path.
    OpenFile(Seq<char>),
    OtherFileRequest,
    Tcp,
    TcpSteal,
    SeqpacketOutgoing,
    ReverseDnsLookup,
    Vpn,
    PauseTargetRequest,
}

impl View for ClientMessage {
    type V = ClientMessageView;

    open spec fn view(&self) -> ClientMessageView {
        match self {
            ClientMessage::TcpOutgoing(m) => ClientMessageView::TcpOutgoing(m@),
            ClientMessage::UdpOutgoing(m) => ClientMessageView::UdpOutgoing(m@),
            ClientMessage::GetAddrInfoRequest(r) => ClientMessageView::GetAddrInfoRequest(r@),
            ClientMessage::GetAddrInfoRequestV2(r) => ClientMessageView::GetAddrInfoRequestV2(r@),
            ClientMessage::Ping => ClientMessageView::Ping,
            ClientMessage::SwitchProtocolVersion(v) => ClientMessageView::SwitchProtocolVersion(v@),
            ClientMessage::ReadyForLogs => ClientMessageView::ReadyForLogs,
            ClientMessage::GetEnvVarsRequest => ClientMessageView::GetEnvVarsRequest,
            ClientMessage::Close => ClientMessageView::Close,
            ClientMessage::OperatorPong => ClientMessageView::OperatorPong,
            ClientMessage::ShareLink => ClientMessageView::ShareLink,
            ClientMessage::FileRequest(FileRequest::Open { path }) => ClientMessageView::OpenFile(
                path@,
            ),
            ClientMessage::FileRequest(FileRequest::Other) => ClientMessageView::OtherFileRequest,
            ClientMessage::Tcp => ClientMessageView::Tcp,
            ClientMessage::TcpSteal => ClientMessageView::TcpSteal,
            ClientMessage::SeqpacketOutgoing => ClientMessageView::SeqpacketOutgoing,
            ClientMessage::ReverseDnsLookup => ClientMessageView::ReverseDnsLookup,
            ClientMessage::Vpn => ClientMessageView::Vpn,
            ClientMessage::PauseTargetRequest => ClientMessageView::PauseTargetRequest,
        }
    }
}

#[derive(Debug, Clone, Copy, PartialEq, Eq)]
pub enum LogLevel {
    Error,
    Warn,
    Info,
}

#[derive(Debug, PartialEq, Eq)]
pub struct LogMessage {
    pub level: LogLevel,
    pub message: String,
}

impl LogMessage {
    pub fn warn(message: String) -> (r: LogMessage)
        ensures
            r.level == LogLevel::Warn,
            r.message == message,
    {
        LogMessage { level: LogLevel::Warn, message }
    }
}

/// A message of the agent.
#[derive(Debug, PartialEq, Eq)]
pub enum DaemonMessage {
    /// The agent ends the session, for this reason.
    Close(String),
    LogMessage(LogMessage),
    Pong,
    SwitchProtocolVersionResponse(Version),
    /// The environment of the target, as names and values.
    GetEnvVarsResponse(Vec<(String, String)>),
    GetAddrInfoResponse(Result<DnsLookup, ResponseError>),
    TcpOutgoing(DaemonTcpOutgoing),
    UdpOutgoing(DaemonUdpOutgoing),
}

/// What an agent message says.
pub enum DaemonMessageView {
    Close(Seq<char>),
    LogMessage(LogLevel, Seq<char>),
    Pong,
    SwitchProtocolVersionResponse(VersionView),
    GetEnvVarsResponse(Seq<(Seq<char>, Seq<char>)>),
    GetAddrInfoResponse(Result<Seq<LookupRecordView>, ResponseErrorView>),
    TcpOutgoing(DaemonOutgoingView),
    UdpOutgoing(DaemonOutgoingView),
}

pub open spec fn lookup_view(r: Result<DnsLookup, ResponseError>) -> Result<
    Seq<LookupRecordView>,
    ResponseErrorView,
> {
    match r {
        Ok(lookup) => Ok(lookup@),
        Err(e) => Err(e@),
    }
}

impl View for DaemonMessage {
    type V = DaemonMessageView;

    open spec fn view(&self) -> DaemonMessageView {
        match self {
            DaemonMessage::Close(reason) => DaemonMessageView::Close(reason@),
            DaemonMessage::LogMessage(log) => DaemonMessageView::LogMessage(
                log.level,
                log.message@,
            ),
            DaemonMessage::Pong => DaemonMessageView::Pong,
            DaemonMessage::SwitchProtocolVersionResponse(v) =>
                DaemonMessageView::SwitchProtocolVersionResponse(v@),
            DaemonMessage::GetEnvVarsResponse(vars) => DaemonMessageView::GetEnvVarsResponse(
                vars@.map_values(|v: (String, String)| (v.0@, v.1@)),
            ),
            DaemonMessage::GetAddrInfoResponse(r) => DaemonMessageView::GetAddrInfoResponse(
                lookup_view(*r),
            ),
            DaemonMessage::TcpOutgoing(m) => DaemonMessageView::TcpOutgoing(m@),
            DaemonMessage::UdpOutgoing(m) => DaemonMessageView::UdpOutgoing(m@),
        }
    }
}

// ---------------------------------------------------------------------------------
// Laws
// ---------------------------------------------------------------------------------

/// Agent messages for outgoing traffic that say the same are of the same kind, and about the
/// same request or the same connection. Nothing that one of them holds is left unsaid.
pub proof fn law_outgoing_messages_say_all(
    a: DaemonTcpOutgoing,
    b: DaemonTcpOutgoing,
    c: DaemonUdpOutgoing,
    d: DaemonUdpOutgoing,
)
    ensures
        a@ == b@ ==> match (a, b) {
            (DaemonTcpOutgoing::Connect(x), DaemonTcpOutgoing::Connect(y)) => same_connect(x, y),
            (DaemonTcpOutgoing::ConnectV2(x), DaemonTcpOutgoing::ConnectV2(y)) => x.uid == y.uid
                && same_connect(x.connect, y.connect),
            (DaemonTcpOutgoing::Read(x), DaemonTcpOutgoing::Read(y)) => same_read(x, y),
            (DaemonTcpOutgoing::Close(x), DaemonTcpOutgoing::Close(y)) => x == y,
            _ => false,
        },
        c@ == d@ ==> match (c, d) {
            (DaemonUdpOutgoing::Connect(x), DaemonUdpOutgoing::Connect(y)) => same_connect(x, y),
            (DaemonUdpOutgoing::ConnectV2(x), DaemonUdpOutgoing::ConnectV2(y)) => x.uid == y.uid
                && same_connect(x.connect, y.connect),
            (DaemonUdpOutgoing::Read(x), DaemonUdpOutgoing::Read(y)) => same_read(x, y),
            (DaemonUdpOutgoing::Close(x), DaemonUdpOutgoing::Close(y)) => x == y,
            _ => false,
        },
{
}

/// Whether two outcomes of a connect request are the same.
pub open spec fn same_connect(
    a: Result<DaemonConnect, ResponseError>,
    b: Result<DaemonConnect, ResponseError>,
) -> bool {
    match (a, b) {
        (Ok(a), Ok(b)) => a == b,
        (Err(a), Err(b)) => same_error(a, b),
        _ => false,
    }
}

/// Whether two reads brought the same bytes on the same connection, or failed alike.
pub open spec fn same_read(
    a: Result<DaemonRead, ResponseError>,
    b: Result<DaemonRead, ResponseError>,
) -> bool {
    match (a, b) {
        (Ok(a), Ok(b)) => a.connection_id == b.connection_id && chunk(a.bytes) == chunk(b.bytes),
        (Err(a), Err(b)) => same_error(a, b),
        _ => false,
    }
}

/// Whether two errors are of the same kind and have the same text.
pub open spec fn same_error(a: ResponseError, b: ResponseError) -> bool {
    match (a, b) {
        (ResponseError::RemoteIo(a), ResponseError::RemoteIo(b)) => a.message@ == b.message@
            && same_kind(a.kind, b.kind),
        (ResponseError::DnsLookup(a), ResponseError::DnsLookup(b)) => match (a, b) {
            (
                ResolveErrorKindInternal::Message(a),
                ResolveErrorKindInternal::Message(b),
            ) => a@ == b@,
            (
                ResolveErrorKindInternal::NoRecordsFound(a),
                ResolveErrorKindInternal::NoRecordsFound(b),
            ) => a == b,
            (
                ResolveErrorKindInternal::NoConnections,
                ResolveErrorKindInternal::NoConnections,
            ) => true,
            (ResolveErrorKindInternal::Timeout, ResolveErrorKindInternal::Timeout) => true,
            (ResolveErrorKindInternal::NotFound, ResolveErrorKindInternal::NotFound) => true,
            (
                ResolveErrorKindInternal::PermissionDenied,
                ResolveErrorKindInternal::PermissionDenied,
            ) => true,
            (ResolveErrorKindInternal::Unknown, ResolveErrorKindInternal::Unknown) => true,
            _ => false,
        },
        _ => false,
    }
}

/// Whether two kinds of IO errors are the same.
pub open spec fn same_kind(a: IoErrorKind, b: IoErrorKind) -> bool {
    match (a, b) {
        (IoErrorKind::TimedOut, IoErrorKind::TimedOut) => true,
        (IoErrorKind::NotFound, IoErrorKind::NotFound) => true,
        (IoErrorKind::PermissionDenied, IoErrorKind::PermissionDenied) => true,
        (IoErrorKind::Other(a), IoErrorKind::Other(b)) => a@ == b@,
        _ => false,
    }
}

/// Agent messages that say the same are of the same kind and hold the same: the same texts,
/// the same variables and records in the same order, and the same errors.
pub proof fn law_agent_messages_say_all(a: DaemonMessage, b: DaemonMessage, i: int)
    requires
        a@ == b@,
    ensures
        match (a, b) {
            (DaemonMessage::Close(x), DaemonMessage::Close(y)) => x@ == y@,
            (DaemonMessage::LogMessage(x), DaemonMessage::LogMessage(y)) => x.level == y.level
                && x.message@ == y.message@,
            (DaemonMessage::Pong, DaemonMessage::Pong) => true,
            (
                DaemonMessage::SwitchProtocolVersionResponse(x),
                DaemonMessage::SwitchProtocolVersionResponse(y),
            ) => x@ == y@,
            (DaemonMessage::GetEnvVarsResponse(x), DaemonMessage::GetEnvVarsResponse(y)) => {
                &&& x@.len() == y@.len()
                &&& 0 <= i < x@.len() ==> x@[i].0@ == y@[i].0@ && x@[i].1@ == y@[i].1@
            },
            (
                DaemonMessage::GetAddrInfoResponse(Ok(x)),
                DaemonMessage::GetAddrInfoResponse(Ok(y)),
            ) => {
                &&& x.0@.len() == y.0@.len()
                &&& 0 <= i < x.0@.len() ==> x.0@[i].name@ == y.0@[i].name@ && x.0@[i].ip
                    == y.0@[i].ip
            },
            (
                DaemonMessage::GetAddrInfoResponse(Err(x)),
                DaemonMessage::GetAddrInfoResponse(Err(y)),
            ) => same_error(x, y),
            (DaemonMessage::TcpOutgoing(x), DaemonMessage::TcpOutgoing(y)) => x@ == y@,
            (DaemonMessage::UdpOutgoing(x), DaemonMessage::UdpOutgoing(y)) => x@ == y@,
            _ => false,
        },
{
    match (a, b) {
        (DaemonMessage::GetEnvVarsResponse(x), DaemonMessage::GetEnvVarsResponse(y)) => {
            let f = |v: (String, String)| (v.0@, v.1@);
            assert(x@.map_values(f) == y@.map_values(f));
            assert(x@.map_values(f).len() == y@.map_values(f).len());
            if 0 <= i < x@.len() {
                assert(x@.map_values(f)[i] == y@.map_values(f)[i]);
            }
        },
        (
            DaemonMessage::GetAddrInfoResponse(Ok(x)),
            DaemonMessage::GetAddrInfoResponse(Ok(y)),
        ) => {
            assert(x@.len() == y@.len());
            if 0 <= i < x.0@.len() {
                assert(x@[i] == y@[i]);
                assert(x@[i] == x.0@[i]@ && y@[i] == y.0@[i]@);
            }
        },
        _ => {},
    }
}

/// Client messages that say the same are of the same kind and ask for the same: the same
/// address, connection and bytes, the same lookup, the same version, the same file.
pub proof fn law_client_messages_say_all(a: ClientMessage, b: ClientMessage)
    requires
        a@ == b@,
    ensures
        match (a, b) {
            (ClientMessage::TcpOutgoing(x), ClientMessage::TcpOutgoing(y)) => match (x, y) {
                (LayerTcpOutgoing::Connect(x), LayerTcpOutgoing::Connect(y)) => x == y,
                (LayerTcpOutgoing::ConnectV2(x), LayerTcpOutgoing::ConnectV2(y)) => x == y,
                (LayerTcpOutgoing::Write(x), LayerTcpOutgoing::Write(y)) => x.connection_id
                    == y.connection_id && chunk(x.bytes) == chunk(y.bytes),
                (LayerTcpOutgoing::Close(x), LayerTcpOutgoing::Close(y)) => x == y,
                _ => false,
            },
            (ClientMessage::UdpOutgoing(x), ClientMessage::UdpOutgoing(y)) => match (x, y) {
                (LayerUdpOutgoing::Connect(x), LayerUdpOutgoing::Connect(y)) => x == y,
                (LayerUdpOutgoing::ConnectV2(x), LayerUdpOutgoing::ConnectV2(y)) => x == y,
                (LayerUdpOutgoing::Write(x), LayerUdpOutgoing::Write(y)) => x.connection_id
                    == y.connection_id && chunk(x.bytes) == chunk(y.bytes),
                (LayerUdpOutgoing::Close(x), LayerUdpOutgoing::Close(y)) => x == y,
                _ => false,
            },
            (ClientMessage::GetAddrInfoRequest(x), ClientMessage::GetAddrInfoRequest(y)) =>
                same_request(x, y),
            (ClientMessage::GetAddrInfoRequestV2(x), ClientMessage::GetAddrInfoRequestV2(y)) =>
                same_request(x, y),
            (ClientMessage::SwitchProtocolVersion(x), ClientMessage::SwitchProtocolVersion(y)) => x@
                == y@,
            (
                ClientMessage::FileRequest(FileRequest::Open { path: x }),
                ClientMessage::FileRequest(FileRequest::Open { path: y }),
            ) => x@ == y@,
            _ => a == b,
        },
{
}

/// Whether two lookups ask for the same.
pub open spec fn same_request(a: GetAddrInfoRequestV2, b: GetAddrInfoRequestV2) -> bool {
    &&& a.node@ == b.node@
    &&& a.service_port == b.service_port
    &&& a.family == b.family
    &&& a.socktype == b.socktype
    &&& a.flags == b.flags
    &&& a.protocol == b.protocol
}

/// An operation that took too long has an error of its own, whatever text another error has;
/// and errors of no particular kind are told apart by their texts.
pub proof fn law_errors_are_told_apart(a: Seq<char>, b: Seq<char>)
    ensures
        timed_out().kind is TimedOut,
        timed_out().message == "timed out"@,
        other_error(a) != timed_out(),
        other_error(a) == other_error(b) <==> a == b,
        other_error(a).message == a,
        other_error(a).kind == IoErrorKindView::Other("other error"@),
{
}

} // verus!
