//! Outgoing connections and their routing.

use bytes::{Bytes, BytesMut};
use mirrord_core::budget::{BudgetPermit, MemoryBudget};
use mirrord_core::outgoing::conn::{
    ConnAction, ConnArgs, ConnMsg, ConnState, Established, OutgoingConnActor, ReaderAction,
};
use mirrord_core::outgoing::router::{
    ActorEnd, AfterEnd, OutgoingRouterActor, RouterAction, RouterError, RouterMsg,
};
use mirrord_core::outgoing::tcp::{convert_unix_addr, StreamTarget, TcpFlavor};
use mirrord_core::outgoing::udp::{DatagramTarget, UdpFlavor};
use mirrord_core::outgoing::{DaemonEvent, LayerEvent, OutgoingFlavor};
use mirrord_core::protocol::{
    DaemonConnect, DaemonConnectV2, DaemonMessage, DaemonRead, DaemonTcpOutgoing,
    DaemonUdpOutgoing, IoError, IoErrorKind, LayerClose, LayerConnect, LayerConnectV2,
    LayerTcpOutgoing, LayerUdpOutgoing, LayerWrite, LogLevel, LogMessage, ResponseError,
    SocketAddr, SocketAddress, Uid, UnixAddr,
};

/// What reserving `bytes` from a budget gives.
fn reserve(budget: &MemoryBudget, bytes: usize) -> BudgetPermit {
    let reservation = budget.reserve(bytes);
    let step = reservation.next_step(0);
    let permit = reservation.semaphore.clone().try_acquire_many_owned(step).unwrap();
    reservation.granted(vec![permit]).unwrap()
}

fn free(budget: &MemoryBudget) -> usize {
    budget.reserve(0).semaphore.available_permits()
}

type TcpConn = OutgoingConnActor<TcpFlavor>;
type UdpConn = OutgoingConnActor<UdpFlavor>;
type TcpRouter = OutgoingRouterActor<TcpFlavor>;
type UdpRouter = OutgoingRouterActor<UdpFlavor>;

fn v4(ip: u32, port: u16) -> SocketAddress {
    SocketAddress::Ip(SocketAddr::V4 { ip, port })
}

fn io_error(text: &str) -> IoError {
    IoError { kind: IoErrorKind::Other("connection reset".to_owned()), message: text.to_owned() }
}

fn args(id: u64, request_uid: Option<Uid>) -> ConnArgs {
    ConnArgs { id, request_uid, address: v4(1, 2) }
}

fn connected(id: u64) -> ConnState {
    let mut state = TcpConn::pre_start(args(id, None));
    assert_eq!(TcpConn::dial(&mut state), v4(1, 2));
    let established = Established { local_address: v4(10, 11), peer_address: v4(1, 2) };
    TcpConn::post_start(&mut state, Some(Ok(established)));
    state
}

fn tcp_close(id: u64) -> DaemonMessage {
    DaemonMessage::TcpOutgoing(DaemonTcpOutgoing::Close(id))
}

fn tcp_read(id: u64, bytes: &[u8]) -> DaemonMessage {
    DaemonMessage::TcpOutgoing(DaemonTcpOutgoing::Read(Ok(DaemonRead {
        connection_id: id,
        bytes: Bytes::copy_from_slice(bytes),
    })))
}

fn log(text: &str) -> DaemonMessage {
    DaemonMessage::LogMessage(LogMessage { level: LogLevel::Warn, message: text.to_owned() })
}

#[test]
fn a_successful_dial_is_answered_before_the_reader_starts() {
    let uid = Some(Uid(77));
    let mut state = TcpConn::pre_start(args(5, uid));
    TcpConn::dial(&mut state);
    let established = Established { local_address: v4(10, 11), peer_address: v4(1, 2) };
    let actions = TcpConn::post_start(&mut state, Some(Ok(established)));
    assert_eq!(
        actions,
        vec![
            ConnAction::Send(DaemonMessage::TcpOutgoing(DaemonTcpOutgoing::ConnectV2(
                DaemonConnectV2 {
                    uid: Uid(77),
                    connect: Ok(DaemonConnect {
                        connection_id: 5,
                        remote_address: v4(1, 2),
                        local_address: v4(10, 11),
                    }),
                }
            ))),
            ConnAction::NotifyRouter { id: 5, request_uid: uid, connected: true },
            ConnAction::StartReader,
        ]
    );
    assert!(state.writable && state.reading);
}

#[test]
fn a_failed_dial_is_answered_with_the_error() {
    let mut state = UdpConn::pre_start(args(5, None));
    let actions = UdpConn::post_start(&mut state, Some(Err(io_error("refused"))));
    assert_eq!(
        actions,
        vec![
            ConnAction::Send(DaemonMessage::UdpOutgoing(DaemonUdpOutgoing::Connect(Err(
                ResponseError::RemoteIo(io_error("refused"))
            )))),
            ConnAction::NotifyRouter { id: 5, request_uid: None, connected: false },
            ConnAction::Stop("connect failed"),
        ]
    );
}

#[test]
fn a_dial_that_takes_too_long_is_an_error() {
    let mut state = TcpConn::pre_start(args(0, Some(Uid(1))));
    let actions = TcpConn::post_start(&mut state, None);
    let error = IoError { kind: IoErrorKind::TimedOut, message: "timed out".to_owned() };
    assert_eq!(
        actions[0],
        ConnAction::Send(DaemonMessage::TcpOutgoing(DaemonTcpOutgoing::ConnectV2(
            DaemonConnectV2 { uid: Uid(1), connect: Err(ResponseError::RemoteIo(error)) }
        )))
    );
}

#[test]
fn client_shuts_down_first() {
    let mut state = connected(3);
    assert_eq!(
        TcpConn::handle(&mut state, ConnMsg::ShutdownWrite),
        vec![ConnAction::ShutdownPeer]
    );
    assert_eq!(TcpConn::write_shut_down(&mut state, Ok(())), vec![]);
    // A write that races with the shutdown is dropped, and so is a second shutdown.
    let budget = MemoryBudget::new(100);
    let late = ConnMsg::Write { bytes: Bytes::from_static(b"late"), budget: reserve(&budget, 4) };
    let actions = TcpConn::handle(&mut state, late);
    assert_eq!(free(&budget), 96);
    assert_eq!(actions, vec![ConnAction::Release(reserve(&budget, 4))]);
    drop(actions);
    assert_eq!(free(&budget), 100);
    assert_eq!(TcpConn::handle(&mut state, ConnMsg::ShutdownWrite), vec![]);
    assert_eq!(
        TcpConn::handle(&mut state, ConnMsg::PeerClosed),
        vec![
            ConnAction::AbortReader,
            ConnAction::TrySend(tcp_close(3)),
            ConnAction::Stop("connection closed"),
        ]
    );
}

#[test]
fn peer_closes_first() {
    let mut state = connected(3);
    assert_eq!(
        TcpConn::handle(&mut state, ConnMsg::PeerClosed),
        vec![ConnAction::AbortReader, ConnAction::Send(tcp_read(3, b""))]
    );
    let budget = MemoryBudget::new(100);
    let write = ConnMsg::Write {
        bytes: Bytes::from_static(b"still open"),
        budget: reserve(&budget, 10),
    };
    let mut actions = TcpConn::handle(&mut state, write);
    assert_eq!(
        actions,
        vec![
            ConnAction::WritePeer(Bytes::from_static(b"still open")),
            ConnAction::Release(reserve(&budget, 10)),
        ]
    );
    // The write alone gives nothing back.
    drop(actions.remove(0));
    assert_eq!(free(&budget), 90);
    drop(actions);
    assert_eq!(free(&budget), 100);
    assert_eq!(TcpConn::written(&mut state, Some(Ok(()))), vec![]);
    assert_eq!(
        TcpConn::handle(&mut state, ConnMsg::ShutdownWrite),
        vec![ConnAction::ShutdownPeer]
    );
    assert_eq!(
        TcpConn::write_shut_down(&mut state, Ok(())),
        vec![ConnAction::TrySend(tcp_close(3)), ConnAction::Stop("connection closed")]
    );
}

#[test]
fn failures_close_the_connection_and_are_logged() {
    let expected = |text: &str| {
        vec![
            ConnAction::AbortReader,
            ConnAction::DropWriter,
            ConnAction::TrySend(log(text)),
            ConnAction::TrySend(tcp_close(9)),
            ConnAction::Stop("connection closed"),
        ]
    };
    let mut state = connected(9);
    assert_eq!(
        TcpConn::handle(&mut state, ConnMsg::PeerFailed(io_error("reset"))),
        expected("outgoing connection 9 failed: reset (tcp-out)")
    );
    let mut state = connected(9);
    assert_eq!(
        TcpConn::written(&mut state, None),
        expected("outgoing connection 9 failed: timed out (tcp-out)")
    );
    let mut state = connected(9);
    assert_eq!(
        TcpConn::write_shut_down(&mut state, Err(io_error("gone"))),
        expected("outgoing connection 9 failed: gone (tcp-out)")
    );
    assert!(!state.writable && !state.reading);
}

#[test]
fn a_close_by_the_client_is_silent() {
    let mut state = connected(9);
    assert_eq!(
        TcpConn::handle(&mut state, ConnMsg::Close),
        vec![ConnAction::Stop("closed by the client")]
    );
}

#[test]
fn the_reader_reserves_what_it_relays() {
    assert_eq!(
        TcpConn::reader_task(4, Ok(Some(Bytes::from_static(b"hello")))),
        ReaderAction::Relay { reserve: 5, message: tcp_read(4, b"hello") }
    );
    assert_eq!(
        TcpConn::reader_task(4, Ok(None)),
        ReaderAction::Report(ConnMsg::PeerClosed)
    );
    assert_eq!(
        TcpConn::reader_task(4, Err(io_error("x"))),
        ReaderAction::Report(ConnMsg::PeerFailed(io_error("x")))
    );
}

fn connect(uid: Option<u128>, port: u16) -> RouterMsg {
    RouterMsg::Connect { request_uid: uid.map(Uid), address: v4(1, port) }
}

fn finished(id: u64, uid: Option<u128>) -> RouterMsg {
    RouterMsg::ConnectFinished { id, request_uid: uid.map(Uid), connected: true }
}

fn after(messages: Vec<DaemonMessage>, next: Result<RouterAction, RouterError>) -> AfterEnd {
    AfterEnd { messages, next }
}

fn spawn(id: u64, uid: Option<u128>, port: u16) -> Result<RouterAction, RouterError> {
    Ok(RouterAction::Spawn {
        name: format!("client-7.tcp-out.conn-{id}"),
        group: "tcp-out-conns".to_owned(),
        id,
        request_uid: uid.map(Uid),
        address: v4(1, port),
    })
}

#[test]
fn legacy_connects_are_dialed_one_at_a_time_in_order() {
    let mut state = TcpRouter::pre_start(7);
    assert_eq!(TcpRouter::handle(&mut state, connect(None, 1)), spawn(0, None, 1));
    assert_eq!(TcpRouter::handle(&mut state, connect(None, 2)), Ok(RouterAction::Nothing));
    assert_eq!(TcpRouter::handle(&mut state, connect(None, 3)), Ok(RouterAction::Nothing));
    // A connect with a UID does not wait.
    assert_eq!(TcpRouter::handle(&mut state, connect(Some(9), 4)), spawn(1, Some(9), 4));
    assert_eq!(TcpRouter::handle(&mut state, finished(1, Some(9))), Ok(RouterAction::Nothing));
    assert_eq!(TcpRouter::handle(&mut state, finished(0, None)), spawn(2, None, 2));
    assert_eq!(TcpRouter::handle(&mut state, finished(2, None)), spawn(3, None, 3));
    assert_eq!(TcpRouter::handle(&mut state, finished(3, None)), Ok(RouterAction::Nothing));
    assert_eq!(state.legacy_in_flight, None);
    assert_eq!(TcpRouter::handle(&mut state, connect(None, 5)), spawn(4, None, 5));
}

#[test]
fn connection_ids_run_out() {
    let mut state = TcpRouter::pre_start(7);
    state.next_conn_id = u64::MAX;
    assert_eq!(
        TcpRouter::handle(&mut state, connect(Some(1), 1)),
        Err(RouterError::ExhaustedConnectionIds)
    );
    assert_eq!(
        RouterError::ExhaustedConnectionIds.message(),
        "exhausted u64 connection IDs"
    );
}

#[test]
fn messages_go_to_live_connections_only() {
    let mut state = UdpRouter::pre_start(7);
    let budget = MemoryBudget::new(100);
    let write = || RouterMsg::Write {
        id: 0,
        bytes: Bytes::from_static(b"data"),
        budget: reserve(&budget, 4),
    };
    assert_eq!(
        UdpRouter::handle(&mut state, write()),
        Ok(RouterAction::Release(reserve(&budget, 4)))
    );
    assert_eq!(free(&budget), 100);
    UdpRouter::spawned(&mut state, 0, 100);
    let forwarded = UdpRouter::handle(&mut state, write());
    assert_eq!(free(&budget), 96);
    assert_eq!(
        forwarded,
        Ok(RouterAction::Forward {
            actor: 100,
            message: ConnMsg::Write {
                bytes: Bytes::from_static(b"data"),
                budget: reserve(&budget, 4),
            }
        })
    );
    assert_eq!(
        UdpRouter::handle(&mut state, RouterMsg::ShutdownWrite { id: 0 }),
        Ok(RouterAction::Forward { actor: 100, message: ConnMsg::ShutdownWrite })
    );
    assert_eq!(
        UdpRouter::handle(&mut state, RouterMsg::Close { id: 0 }),
        Ok(RouterAction::Forward { actor: 100, message: ConnMsg::Close })
    );
    assert_eq!(
        UdpRouter::handle_supervisor_evt(&mut state, ActorEnd::Terminated(100)),
        after(vec![], Ok(RouterAction::Nothing))
    );
    assert_eq!(
        UdpRouter::handle(&mut state, write()),
        Ok(RouterAction::Release(reserve(&budget, 4)))
    );
    assert!(state.conns.is_empty() && state.conn_ids.is_empty());
}

#[test]
fn a_failed_connection_actor_is_reported_to_the_client() {
    let mut state = UdpRouter::pre_start(7);
    UdpRouter::spawned(&mut state, 4, 100);
    let failed = ActorEnd::Failed(100, "panicked".to_owned());
    assert_eq!(
        UdpRouter::handle_supervisor_evt(&mut state, failed),
        after(
            vec![
                log("outgoing connection 4 failed: panicked (udp-out)"),
                DaemonMessage::UdpOutgoing(DaemonUdpOutgoing::Close(4)),
            ],
            Ok(RouterAction::Nothing)
        )
    );
    let nothing = || after(vec![], Ok(RouterAction::Nothing));
    let unknown = ActorEnd::Failed(100, "again".to_owned());
    assert_eq!(UdpRouter::handle_supervisor_evt(&mut state, unknown), nothing());
    assert_eq!(UdpRouter::handle_supervisor_evt(&mut state, ActorEnd::Other), nothing());
}

#[test]
fn a_legacy_dial_that_dies_gives_up_its_turn() {
    let mut state = TcpRouter::pre_start(7);
    assert_eq!(TcpRouter::handle(&mut state, connect(None, 1)), spawn(0, None, 1));
    TcpRouter::spawned(&mut state, 0, 100);
    assert_eq!(state.legacy_in_flight, Some(0));
    for port in 2..5 {
        assert_eq!(TcpRouter::handle(&mut state, connect(None, port)), Ok(RouterAction::Nothing));
    }

    // The connection fails before it reports its dial.
    let failed = ActorEnd::Failed(100, "panicked".to_owned());
    assert_eq!(
        TcpRouter::handle_supervisor_evt(&mut state, failed),
        after(
            vec![
                log("outgoing connection 0 failed: panicked (tcp-out)"),
                DaemonMessage::TcpOutgoing(DaemonTcpOutgoing::Close(0)),
            ],
            spawn(1, None, 2)
        )
    );
    TcpRouter::spawned(&mut state, 1, 101);

    // A report that is read late is not that of the dial in flight.
    assert_eq!(TcpRouter::handle(&mut state, finished(0, None)), Ok(RouterAction::Nothing));
    assert_eq!(state.legacy_in_flight, Some(1));

    // Stopping has the same effect.
    assert_eq!(
        TcpRouter::handle_supervisor_evt(&mut state, ActorEnd::Terminated(101)),
        after(vec![], spawn(2, None, 3))
    );
    TcpRouter::spawned(&mut state, 2, 102);

    // Once the dial is reported, the end of the connection takes no turn.
    assert_eq!(TcpRouter::handle(&mut state, finished(2, None)), spawn(3, None, 4));
    TcpRouter::spawned(&mut state, 3, 103);
    assert_eq!(
        TcpRouter::handle_supervisor_evt(&mut state, ActorEnd::Terminated(102)),
        after(vec![], Ok(RouterAction::Nothing))
    );
    assert_eq!(state.legacy_in_flight, Some(3));
    assert_eq!(
        TcpRouter::handle_supervisor_evt(&mut state, ActorEnd::Terminated(103)),
        after(vec![], Ok(RouterAction::Nothing))
    );
    assert_eq!(state.legacy_in_flight, None);
    assert_eq!(TcpRouter::handle(&mut state, connect(None, 9)), spawn(4, None, 9));
}

#[test]
fn a_dead_legacy_dial_without_ids_left_fails_the_router() {
    let mut state = TcpRouter::pre_start(7);
    assert_eq!(TcpRouter::handle(&mut state, connect(None, 1)), spawn(0, None, 1));
    TcpRouter::spawned(&mut state, 0, 100);
    assert_eq!(TcpRouter::handle(&mut state, connect(None, 2)), Ok(RouterAction::Nothing));
    state.next_conn_id = u64::MAX;
    assert_eq!(
        TcpRouter::handle_supervisor_evt(&mut state, ActorEnd::Terminated(100)),
        after(vec![], Err(RouterError::ExhaustedConnectionIds))
    );
}

#[test]
fn groups_are_named_after_the_flavor() {
    assert_eq!(TcpRouter::conns_group(), "tcp-out-conns");
    assert_eq!(UdpRouter::conns_group(), "udp-out-conns");
}

#[test]
fn requests_of_both_transports_mean_the_same() {
    let write = || LayerWrite { connection_id: 8, bytes: Bytes::from_static(b"abc") };
    assert_eq!(
        LayerEvent::from(LayerTcpOutgoing::Write(write())),
        LayerEvent::from(LayerUdpOutgoing::Write(write()))
    );
    assert_eq!(
        LayerEvent::from(LayerTcpOutgoing::Connect(LayerConnect { remote_address: v4(1, 2) })),
        LayerEvent::Connect { request_uid: None, address: v4(1, 2) }
    );
    assert_eq!(
        LayerEvent::from(LayerUdpOutgoing::ConnectV2(LayerConnectV2 {
            uid: Uid(3),
            remote_address: v4(1, 2)
        })),
        LayerEvent::Connect { request_uid: Some(Uid(3)), address: v4(1, 2) }
    );
    assert_eq!(
        LayerEvent::from(LayerTcpOutgoing::Close(LayerClose { connection_id: 5 })),
        LayerEvent::Close { id: 5 }
    );
}

#[test]
fn stream_targets() {
    assert_eq!(
        TcpFlavor::connect(v4(1, 2)).unwrap(),
        StreamTarget::Tcp(SocketAddr::V4 { ip: 1, port: 2 })
    );
    assert_eq!(
        TcpFlavor::connect(SocketAddress::Unix(UnixAddr::Pathname(b"/run/x".to_vec()))).unwrap(),
        StreamTarget::Unix(b"/run/x".to_vec())
    );
    assert_eq!(
        TcpFlavor::connect(SocketAddress::Unix(UnixAddr::Abstract(b"x".to_vec()))).unwrap(),
        StreamTarget::Unix(b"\0x".to_vec())
    );
    assert_eq!(
        TcpFlavor::connect(SocketAddress::Unix(UnixAddr::Unnamed)).unwrap_err().message,
        "unexpected unnamed UNIX address"
    );
    assert_eq!(
        convert_unix_addr(Some(b"/a".to_vec()), Some(b"b".to_vec())),
        UnixAddr::Pathname(b"/a".to_vec())
    );
    assert_eq!(convert_unix_addr(None, Some(b"b".to_vec())), UnixAddr::Abstract(b"b".to_vec()));
    assert_eq!(convert_unix_addr(None, None), UnixAddr::Unnamed);
}

#[test]
fn stream_reads() {
    let mut buffer = BytesMut::new();
    buffer.extend_from_slice(b"chunk");
    assert_eq!(TcpFlavor::read(5, buffer), Some(Bytes::from_static(b"chunk")));
    assert_eq!(TcpFlavor::read(0, BytesMut::new()), None);
}

#[test]
fn datagram_targets() {
    assert_eq!(
        UdpFlavor::connect(v4(1, 2), "0.0.0.1:2").unwrap(),
        DatagramTarget {
            bind: SocketAddr::V4 { ip: 0, port: 0 },
            peer: SocketAddr::V4 { ip: 1, port: 2 },
        }
    );
    let v6 = || SocketAddr::V6 { ip: 1, port: 2, flowinfo: 3, scope_id: 4 };
    assert_eq!(
        UdpFlavor::connect(SocketAddress::Ip(v6()), "[::1]:2").unwrap(),
        DatagramTarget {
            bind: SocketAddr::V6 { ip: 0, port: 0, flowinfo: 0, scope_id: 0 },
            peer: v6(),
        }
    );
    let unix = SocketAddress::Unix(UnixAddr::Unnamed);
    assert_eq!(
        UdpFlavor::connect(unix, "unnamed").unwrap_err().message,
        "unexpected UNIX address: unnamed"
    );
}

#[test]
fn datagrams() {
    let bytes = Bytes::from_static(b"0123");
    assert_eq!(UdpFlavor::write(4, &bytes), Ok(()));
    assert_eq!(
        UdpFlavor::write(3, &bytes).unwrap_err().message,
        "failed to send the whole datagram through the socket"
    );
    assert_eq!(UdpFlavor::read(2, b"abcd"), Some(Bytes::from_static(b"ab")));
    assert_eq!(UdpFlavor::read(0, b"abcd"), None);
}

#[test]
fn events_are_wrapped_per_transport() {
    assert_eq!(TcpFlavor::daemon_message(DaemonEvent::Close(1)), tcp_close(1));
    assert_eq!(
        UdpFlavor::daemon_message(DaemonEvent::Close(1)),
        DaemonMessage::UdpOutgoing(DaemonUdpOutgoing::Close(1))
    );
    assert_eq!(TcpFlavor::name(), "tcp-out");
    assert_eq!(UdpFlavor::name(), "udp-out");
}
