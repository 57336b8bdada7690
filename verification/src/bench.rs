//! A benchmark: pushes data through an agent to an echo server and drains what comes back.
//!
//! The client opens a number of outgoing connections through the agent, writes chunks of a
//! fixed size to all of them in turn until the requested volume is pushed, and then shuts
//! the write sides down. Bytes that are sent but not yet echoed are capped by a window.

pub mod args;
pub mod reader;
pub mod writer;

use crate::bench::args::BenchArgs;
use crate::protocol::{
    ClientMessage, ClientMessageView, ConnectionId, DaemonConnect, DaemonMessage,
    DaemonMessageView, DaemonOutgoingView, DaemonTcpOutgoing, LayerConnectV2, LayerOutgoingView,
    LayerTcpOutgoing, ResponseError, SocketAddr, SocketAddress, Uid,
};
use crate::version::Version;
use vstd::prelude::*;

verus! {

/// The byte that chunks are made of.
pub const FILLER: u8 = 0xAB;

/// How much is to be pushed, and how.
#[derive(Debug, Clone, Copy, PartialEq, Eq)]
pub struct Plan {
    /// The size of a chunk.
    pub chunk_len: usize,
    /// How many chunks each connection gets.
    pub per_conn_chunks: usize,
    /// How many bytes each connection gets.
    pub per_conn_bytes: usize,
    /// How many bytes may be sent but not yet echoed.
    pub window: usize,
}

/// Whether something can be pushed at all: there are connections and chunks, the window
/// holds a chunk, and all sizes can be told.
pub open spec fn plannable(args: BenchArgs) -> bool {
    &&& args.conns > 0
    &&& args.chunk_kib > 0
    &&& args.chunk_kib * 1024 <= usize::MAX
    &&& args.total_mib * 1024 * 1024 <= usize::MAX
    &&& args.window_kib * 1024 <= usize::MAX
    &&& args.window_kib >= args.chunk_kib
}

/// Plans a run: the volume is split evenly, in whole chunks.
pub fn plan(args: &BenchArgs) -> (r: Plan)
    requires
        plannable(*args),
    ensures
        r.chunk_len == args.chunk_kib * 1024,
        r.per_conn_chunks == (args.total_mib * 1024 * 1024) / (args.conns as int) / (
        r.chunk_len as int),
        r.per_conn_bytes == r.per_conn_chunks * r.chunk_len,
        r.window == args.window_kib * 1024,
        0 < r.chunk_len <= r.window,
        r.per_conn_bytes * args.conns <= args.total_mib * 1024 * 1024,
{
    let chunk_len: usize = args.chunk_kib * 1024;
    let total_bytes: usize = args.total_mib * 1024 * 1024;
    let per_conn: usize = total_bytes / args.conns;
    let per_conn_chunks: usize = per_conn / chunk_len;
    proof {
        lemma_share(total_bytes as int, args.conns as int);
        lemma_share(per_conn as int, chunk_len as int);
        assert(per_conn_chunks * chunk_len * args.conns <= per_conn * args.conns)
            by (nonlinear_arith)
            requires
                per_conn_chunks * chunk_len <= per_conn,
        ;
    }
    let per_conn_bytes: usize = per_conn_chunks * chunk_len;
    Plan { chunk_len, per_conn_chunks, per_conn_bytes, window: args.window_kib * 1024 }
}

proof fn lemma_share(whole: int, parts: int)
    requires
        whole >= 0,
        parts > 0,
    ensures
        0 <= whole / parts,
        (whole / parts) * parts <= whole,
{
    assert(0 <= whole / parts && (whole / parts) * parts <= whole) by (nonlinear_arith)
        requires
            whole >= 0,
            parts > 0,
    ;
}

/// Why a run could not start.
#[derive(Debug, PartialEq, Eq)]
pub enum SetupError {
    /// The agent did not answer the version as it should.
    BadNegotiation(DaemonMessage),
    /// The agent did not answer a connect as it should.
    BadConnect(DaemonMessage),
    /// A connection could not be made.
    ConnectFailed(ResponseError),
}

/// Takes the answer to this side's version: the version that is spoken.
pub fn negotiated(message: DaemonMessage) -> (r: Result<Version, SetupError>)
    ensures
        match message {
            DaemonMessage::SwitchProtocolVersionResponse(version) => r == Ok::<
                Version,
                SetupError,
            >(version),
            other => r == Err::<Version, SetupError>(SetupError::BadNegotiation(other)),
        },
{
    match message {
        DaemonMessage::SwitchProtocolVersionResponse(version) => Ok(version),
        other => Err(SetupError::BadNegotiation(other)),
    }
}

/// The request for a connection.
pub fn open_request(uid: Uid, target: SocketAddr) -> (r: ClientMessage)
    ensures
        r@ == ClientMessageView::TcpOutgoing(
            LayerOutgoingView::ConnectV2(uid, SocketAddress::Ip(target)),
        ),
{
    ClientMessage::TcpOutgoing(
        LayerTcpOutgoing::ConnectV2(
            LayerConnectV2 { uid, remote_address: SocketAddress::Ip(target) },
        ),
    )
}

/// Takes the answer to the request for a connection: the connection's ID.
pub fn opened(uid: Uid, message: DaemonMessage) -> (r: Result<ConnectionId, SetupError>)
    ensures
        match message {
            DaemonMessage::TcpOutgoing(DaemonTcpOutgoing::ConnectV2(answer)) if answer.uid == uid
                => r == match answer.connect {
                Ok(connect) => Ok(connect.connection_id),
                Err(error) => Err(SetupError::ConnectFailed(error)),
            },
            other => r == Err::<ConnectionId, SetupError>(SetupError::BadConnect(other)),
        },
{
    match message {
        DaemonMessage::TcpOutgoing(DaemonTcpOutgoing::ConnectV2(answer)) => {
            if answer.uid.0 != uid.0 {
                return Err(
                    SetupError::BadConnect(
                        DaemonMessage::TcpOutgoing(DaemonTcpOutgoing::ConnectV2(answer)),
                    ),
                );
            }
            match answer.connect {
                Ok(connect) => Ok(connect.connection_id),
                Err(error) => Err(SetupError::ConnectFailed(error)),
            }
        },
        other => Err(SetupError::BadConnect(other)),
    }
}

/// What is planned is what was asked for: chunks and a window of the sizes that were asked
/// for, and as much data as fits into whole chunks that are the same for all connections.
/// Less than one chunk per connection is left out of the volume, and rounding takes less than
/// one byte more of each.
pub proof fn law_the_plan_is_what_was_asked_for(args: BenchArgs, r: Plan)
    requires
        plannable(args),
        call_ensures(plan, (&args,), r),
    ensures
        r.chunk_len == args.chunk_kib * 1024,
        r.window == args.window_kib * 1024,
        r.per_conn_bytes == r.per_conn_chunks * r.chunk_len,
        r.per_conn_bytes * args.conns <= args.total_mib * 1024 * 1024,
        args.total_mib * 1024 * 1024 < (r.per_conn_bytes + r.chunk_len) * args.conns,
{
    let total = args.total_mib * 1024 * 1024;
    let conns = args.conns as int;
    let len = r.chunk_len as int;
    let share = total / conns;
    assert(total < (share + 1) * conns) by (nonlinear_arith)
        requires
            share == total / conns,
            conns > 0,
            total >= 0,
    ;
    assert(share + 1 <= (share / len) * len + len) by (nonlinear_arith)
        requires
            len > 0,
            share >= 0,
    ;
    assert((share + 1) * conns <= ((share / len) * len + len) * conns) by (nonlinear_arith)
        requires
            share + 1 <= (share / len) * len + len,
            conns > 0,
    ;
}

/// The version that is spoken is the one that the agent answered with, and a connection counts
/// as opened exactly if the answer is for the very request and is a connection; its ID is the
/// one that the agent gave it. What else the agent says is told as it is.
pub proof fn law_answers_are_taken_as_they_are(
    first: DaemonMessage,
    spoken: Result<Version, SetupError>,
    uid: Uid,
    second: DaemonMessage,
    id: Result<ConnectionId, SetupError>,
)
    requires
        call_ensures(negotiated, (first,), spoken),
        call_ensures(opened, (uid, second), id),
    ensures
        spoken is Ok <==> first is SwitchProtocolVersionResponse,
        spoken matches Ok(version) ==> first == DaemonMessage::SwitchProtocolVersionResponse(
            version,
        ),
        spoken matches Err(error) ==> error == SetupError::BadNegotiation(first),
        id matches Ok(given) ==> (second matches DaemonMessage::TcpOutgoing(
            DaemonTcpOutgoing::ConnectV2(answer),
        ) && answer.uid == uid && (answer.connect matches Ok(connect) && connect.connection_id
            == given)),
        second matches DaemonMessage::TcpOutgoing(DaemonTcpOutgoing::ConnectV2(answer))
            ==> answer.uid == uid ==> (id is Ok <==> answer.connect is Ok),
        id matches Err(SetupError::ConnectFailed(error)) ==> (second matches
            DaemonMessage::TcpOutgoing(DaemonTcpOutgoing::ConnectV2(answer)) && answer.connect
            == Err::<DaemonConnect, ResponseError>(error)),
        id matches Err(SetupError::BadConnect(told)) ==> told == second,
        !(id matches Err(SetupError::BadNegotiation(_))),
{
}

/// A connection is asked for at the very target, under the very UID.
pub proof fn law_connections_are_asked_for_at_the_target(
    uid: Uid,
    target: SocketAddr,
    request: ClientMessage,
)
    requires
        call_ensures(open_request, (uid, target), request),
    ensures
        request matches ClientMessage::TcpOutgoing(LayerTcpOutgoing::ConnectV2(connect))
            && connect.uid == uid && connect.remote_address == SocketAddress::Ip(target),
{
}

} // verus!
