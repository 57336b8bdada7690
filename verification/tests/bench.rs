//! The benchmark client.

use bytes::Bytes;
use mirrord_core::bench::args::{parse_args, ArgsError, BenchArgs};
use mirrord_core::bench::reader::{Reader, ReaderError, ReaderStep};
use mirrord_core::bench::writer::{Writer, WriterStep};
use mirrord_core::bench::{negotiated, open_request, opened, plan, Plan, SetupError};
use mirrord_core::protocol::{
    ClientMessage, DaemonConnect, DaemonConnectV2, DaemonMessage, DaemonRead, DaemonTcpOutgoing,
    IoError, LayerConnectV2, LayerTcpOutgoing, LogLevel, LogMessage, ResponseError, SocketAddr,
    SocketAddress, Uid,
};
use mirrord_core::version::Version;

fn parse(args: &[&str]) -> Result<BenchArgs, ArgsError> {
    // Only words with a colon are addresses here.
    parse_args(
        &args.iter().map(|arg| arg.to_string()).collect(),
        &args.iter().map(|arg| arg.contains(':')).collect(),
    )
}

fn defaults() -> BenchArgs {
    BenchArgs {
        agent: "127.0.0.1:61337".to_owned(),
        target: "127.0.0.1:7777".to_owned(),
        total_mib: 1024,
        chunk_kib: 64,
        conns: 4,
        window_kib: 256,
    }
}

#[test]
fn the_command_line_is_read() {
    assert_eq!(parse(&[]), Ok(defaults()));
    assert_eq!(
        parse(&[
            "--agent", "a:1", "--target", "b:2", "--total-mib", "1", "--chunk-kib", "2", "--conns",
            "3", "--window-kib", "4", "--conns", "5",
        ]),
        Ok(BenchArgs {
            agent: "a:1".to_owned(),
            target: "b:2".to_owned(),
            total_mib: 1,
            chunk_kib: 2,
            conns: 5,
            window_kib: 4,
        })
    );
}

#[test]
fn bad_command_lines_are_rejected() {
    for (line, expected) in [
        (["--conns"].as_slice(), "missing value for argument"),
        (["--agent", "nowhere", "--what"].as_slice(), "bad agent address"),
        (["--target", "nowhere", "--conns"].as_slice(), "bad target address"),
        (["--total-mib", "x"].as_slice(), "bad total"),
        (["--chunk-kib", "-1"].as_slice(), "bad chunk size"),
        (["--conns", ""].as_slice(), "bad connection count"),
        (["--window-kib", "1.5"].as_slice(), "bad window size"),
        (["--what"].as_slice(), "unknown argument: --what"),
    ] {
        assert_eq!(parse(line).unwrap_err().message(), expected);
    }
}

#[test]
fn a_run_is_planned() {
    assert_eq!(
        plan(&defaults()),
        Plan {
            chunk_len: 65536,
            per_conn_chunks: 4096,
            per_conn_bytes: 268435456,
            window: 262144,
        }
    );
    let mut uneven = defaults();
    uneven.total_mib = 1;
    uneven.conns = 3;
    let planned = plan(&uneven);
    assert_eq!(planned.per_conn_chunks, 5);
    assert_eq!(planned.per_conn_bytes, 5 * 65536);
}

#[test]
fn a_run_is_set_up() {
    let version = || Version::parse("1.0.0").unwrap();
    assert_eq!(
        negotiated(DaemonMessage::SwitchProtocolVersionResponse(version())),
        Ok(version())
    );
    assert_eq!(
        negotiated(DaemonMessage::Pong),
        Err(SetupError::BadNegotiation(DaemonMessage::Pong))
    );
    let target = SocketAddr::V4 { ip: 1, port: 2 };
    assert_eq!(
        open_request(Uid(3), target),
        ClientMessage::TcpOutgoing(LayerTcpOutgoing::ConnectV2(LayerConnectV2 {
            uid: Uid(3),
            remote_address: SocketAddress::Ip(target),
        }))
    );
    let connect = || DaemonConnect {
        connection_id: 8,
        remote_address: SocketAddress::Ip(target),
        local_address: SocketAddress::Ip(target),
    };
    let answer = |uid, connect| {
        DaemonMessage::TcpOutgoing(DaemonTcpOutgoing::ConnectV2(DaemonConnectV2 { uid, connect }))
    };
    let refused = || ResponseError::RemoteIo(IoError::timed_out());
    assert_eq!(opened(Uid(3), answer(Uid(3), Ok(connect()))), Ok(8));
    assert_eq!(
        opened(Uid(3), answer(Uid(3), Err(refused()))),
        Err(SetupError::ConnectFailed(refused()))
    );
    assert_eq!(
        opened(Uid(3), answer(Uid(4), Ok(connect()))),
        Err(SetupError::BadConnect(answer(Uid(4), Ok(connect()))))
    );
    assert_eq!(
        opened(Uid(3), DaemonMessage::Pong),
        Err(SetupError::BadConnect(DaemonMessage::Pong))
    );
}

#[test]
fn chunks_go_round_within_the_window() {
    let planned = Plan { chunk_len: 10, per_conn_chunks: 2, per_conn_bytes: 20, window: 25 };
    let mut writer = Writer::new(vec![7, 8], planned);
    assert_eq!(writer.step(0), WriterStep::Send(7));
    assert_eq!(writer.step(0), WriterStep::Send(8));
    assert_eq!(writer.step(0), WriterStep::Wait);
    assert_eq!(writer.step(4), WriterStep::Wait);
    assert_eq!(writer.step(5), WriterStep::Send(7));
    assert_eq!(writer.sent, 30);
    assert_eq!(writer.step(40), WriterStep::Send(8));
    assert_eq!(writer.step(40), WriterStep::ShutDown(7));
    assert_eq!(writer.step(40), WriterStep::ShutDown(8));
    assert_eq!(writer.step(40), WriterStep::Done);
    assert_eq!(writer.sent, 40);
    assert_eq!(Writer::new(vec![], planned).step(0), WriterStep::Done);
}

#[test]
fn the_window_is_never_exceeded() {
    let planned = Plan { chunk_len: 3, per_conn_chunks: 5, per_conn_bytes: 15, window: 7 };
    let mut writer = Writer::new(vec![1, 2, 3], planned);
    let mut received: u64 = 0;
    loop {
        let step = writer.step(received);
        assert!(writer.sent - received <= 7);
        if step == WriterStep::Done {
            break;
        }
        if step == WriterStep::Wait {
            received += 2;
        }
    }
    assert_eq!(writer.sent, 45);
}

fn read(id: u64, len: usize) -> DaemonMessage {
    DaemonMessage::TcpOutgoing(DaemonTcpOutgoing::Read(Ok(DaemonRead {
        connection_id: id,
        bytes: Bytes::from(vec![0xAB; len]),
    })))
}

fn close(id: u64) -> DaemonMessage {
    DaemonMessage::TcpOutgoing(DaemonTcpOutgoing::Close(id))
}

#[test]
fn everything_has_to_come_back() {
    let mut reader = Reader::new(&vec![7, 8, 7], 20);
    assert_eq!(reader.received.len(), 2);
    assert_eq!(reader.step(read(7, 15)), ReaderStep::Progress(15));
    assert_eq!(reader.step(read(8, 20)), ReaderStep::Progress(35));
    assert_eq!(reader.step(close(7)), ReaderStep::Fail(ReaderError::ClosedEarly(7)));
    assert_eq!(reader.step(read(7, 5)), ReaderStep::Progress(40));
    assert_eq!(reader.step(close(7)), ReaderStep::Closed);
    let log = || LogMessage { level: LogLevel::Error, message: "x".to_owned() };
    assert_eq!(reader.step(DaemonMessage::LogMessage(log())), ReaderStep::Log(log()));
    assert_eq!(reader.step(read(9, 1)), ReaderStep::Fail(ReaderError::UnknownConn(9)));
    assert_eq!(
        reader.step(DaemonMessage::Pong),
        ReaderStep::Fail(ReaderError::Unexpected(DaemonMessage::Pong))
    );
    assert_eq!(reader.step(close(8)), ReaderStep::Finished(40));
}

#[test]
fn an_unknown_connection_can_close() {
    let mut reader = Reader::new(&vec![7], 20);
    assert_eq!(reader.step(close(9)), ReaderStep::Finished(0));
    let mut reader = Reader::new(&vec![7], 20);
    reader.received[0].bytes = u64::MAX;
    reader.total = u64::MAX;
    assert_eq!(reader.step(read(7, 1)), ReaderStep::Fail(ReaderError::TooMuch));
}
