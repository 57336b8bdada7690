//! The verification harness.

use bytes::Bytes;
use mirrord_core::harness::dns::{dns, dns_request, start_dns, DnsCheck};
use mirrord_core::harness::tcp::{
    start_tcp_echo, start_tcp_legacy_ordering, start_tcp_v2_and_client_close, tcp_echo,
    tcp_legacy_ordering, tcp_v2_and_client_close, TcpEcho, TcpLegacy, TcpV2,
};
use mirrord_core::harness::udp::{start_udp_echo_check, udp_echo_check, UdpEcho};
use mirrord_core::harness::{
    negotiation, next_check, options, start_negotiation, start_unsupported_feature,
    unsupported_feature, Check, Negotiation, NextCheck, Options, Reason, Step,
};
use mirrord_core::protocol::{
    AddressFamily, ClientMessage, DaemonConnect, DaemonConnectV2, DaemonMessage, DaemonRead,
    DaemonTcpOutgoing, DaemonUdpOutgoing, DnsLookup, FileRequest, GetAddrInfoRequestV2, IoError,
    IpAddr, LayerClose, LayerConnect, LayerConnectV2, LayerTcpOutgoing, LayerUdpOutgoing,
    LayerWrite, LookupRecord, ResolveErrorKindInternal, ResponseError, SockType, SocketAddr,
    SocketAddress, Uid,
};
use mirrord_core::version::Version;

const ECHO: SocketAddr = SocketAddr::V4 { ip: 0x7f00_0001, port: 7777 };

fn connect(id: u64) -> DaemonConnect {
    DaemonConnect {
        connection_id: id,
        remote_address: SocketAddress::Ip(ECHO),
        local_address: SocketAddress::Ip(ECHO),
    }
}

fn tcp(message: LayerTcpOutgoing) -> ClientMessage {
    ClientMessage::TcpOutgoing(message)
}

fn tcp_write(id: u64, bytes: &'static [u8]) -> ClientMessage {
    tcp(LayerTcpOutgoing::Write(LayerWrite {
        connection_id: id,
        bytes: Bytes::from_static(bytes),
    }))
}

fn daemon(message: DaemonTcpOutgoing) -> DaemonMessage {
    DaemonMessage::TcpOutgoing(message)
}

fn refused() -> ResponseError {
    ResponseError::RemoteIo(IoError::timed_out())
}

fn answer(ips: &[u32]) -> DaemonMessage {
    let records =
        ips.iter().map(|ip| LookupRecord { name: "n".to_owned(), ip: IpAddr::V4(*ip) }).collect();
    DaemonMessage::GetAddrInfoResponse(Ok(DnsLookup(records)))
}

#[test]
fn negotiation_is_checked() {
    let version = || Version::parse("1.2.3").unwrap();
    let (sent, at) = start_negotiation(&version());
    assert_eq!(sent, vec![ClientMessage::SwitchProtocolVersion(version())]);
    assert_eq!(
        negotiation(at, DaemonMessage::SwitchProtocolVersionResponse(version())),
        Step::Await {
            passed: Some("PASS protocol version negotiation".to_owned()),
            send: vec![ClientMessage::Ping],
            next: Negotiation::Pong,
        }
    );
    assert_eq!(
        negotiation(Negotiation::Pong, DaemonMessage::Pong),
        Step::Done { passed: "PASS ping/pong".to_owned(), send: vec![] }
    );
    assert_eq!(
        negotiation(Negotiation::Version, DaemonMessage::Pong),
        Step::Fail {
            check: "protocol version negotiation",
            reason: Reason::Unexpected(DaemonMessage::Pong),
        }
    );
    assert_eq!(
        negotiation(Negotiation::Pong, answer(&[])),
        Step::Fail { check: "ping/pong", reason: Reason::Unexpected(answer(&[])) }
    );
}

#[test]
fn unsupported_features_are_checked() {
    assert_eq!(
        start_unsupported_feature(),
        vec![ClientMessage::FileRequest(FileRequest::Open { path: "/etc/hostname".to_owned() })]
    );
    assert_eq!(
        unsupported_feature(DaemonMessage::Close("no".to_owned())),
        Step::Done { passed: "PASS unsupported feature -> Close".to_owned(), send: vec![] }
    );
    assert_eq!(
        unsupported_feature(DaemonMessage::Pong),
        Step::Fail {
            check: "unsupported feature -> Close",
            reason: Reason::Unexpected(DaemonMessage::Pong),
        }
    );
}

#[test]
fn localhost_is_checked() {
    let (sent, at) = start_dns();
    assert_eq!(
        sent,
        vec![ClientMessage::GetAddrInfoRequestV2(GetAddrInfoRequestV2 {
            node: "localhost".to_owned(),
            service_port: 0,
            family: AddressFamily::Ipv4Only,
            socktype: SockType::Any,
            flags: 0,
            protocol: 0,
        })]
    );
    assert_eq!(
        dns(false, at, answer(&[1, 0x7fff_ffff])),
        Step::Done { passed: "PASS dns localhost".to_owned(), send: vec![] }
    );
    assert_eq!(
        dns(true, DnsCheck::Localhost, answer(&[0x8000_0000, 0x7eff_ffff])),
        Step::Fail {
            check: "dns localhost",
            reason: Reason::NoLoopback(vec![IpAddr::V4(0x8000_0000), IpAddr::V4(0x7eff_ffff)]),
        }
    );
    let lookup_error = || ResponseError::DnsLookup(ResolveErrorKindInternal::NotFound);
    assert_eq!(
        dns(true, DnsCheck::Localhost, DaemonMessage::GetAddrInfoResponse(Err(lookup_error()))),
        Step::Fail { check: "dns localhost", reason: Reason::Lookup(lookup_error()) }
    );
    assert_eq!(
        dns(true, DnsCheck::Localhost, DaemonMessage::Pong),
        Step::Fail { check: "dns localhost", reason: Reason::Unexpected(DaemonMessage::Pong) }
    );
}

#[test]
fn the_order_of_lookups_is_checked() {
    let first = match dns(true, DnsCheck::Localhost, answer(&[0x7f00_0001])) {
        Step::Await { passed, send, next } => {
            assert_eq!(passed, Some("PASS dns localhost".to_owned()));
            let names = ["ractor-test-one", "ractor-test-two", "ractor-test-one"];
            assert_eq!(send, names.map(|name| dns_request(name)).into_iter().collect::<Vec<_>>());
            next
        }
        other => panic!("{other:?}"),
    };
    let run = |ips: [u32; 3]| {
        let mut at = DnsCheck::Answers { got: vec![] };
        for (i, ip) in ips.into_iter().enumerate() {
            match dns(true, at, answer(&[ip, 99])) {
                Step::Await { passed: None, next, .. } if i < 2 => at = next,
                last => return last,
            }
        }
        unreachable!()
    };
    assert_eq!(first, DnsCheck::Answers { got: vec![] });
    assert_eq!(
        run([0x7f00_000b, 0x7f00_000c, 0x7f00_000b]),
        Step::Done { passed: "PASS dns response ordering".to_owned(), send: vec![] }
    );
    let got = [0x7f00_000c, 0x7f00_000b, 0x7f00_000b];
    assert_eq!(
        run(got),
        Step::Fail {
            check: "dns response ordering",
            reason: Reason::Order(got.map(|ip| Some(IpAddr::V4(ip))).to_vec()),
        }
    );
    assert_eq!(
        dns(true, DnsCheck::Answers { got: vec![] }, DaemonMessage::Pong),
        Step::Fail { check: "dns ordering", reason: Reason::Unexpected(DaemonMessage::Pong) }
    );
}

#[test]
fn echoes_are_checked() {
    let (sent, at) = start_tcp_echo(ECHO);
    let legacy = LayerConnect { remote_address: SocketAddress::Ip(ECHO) };
    assert_eq!(sent, vec![tcp(LayerTcpOutgoing::Connect(legacy))]);
    assert_eq!(
        tcp_echo(at, daemon(DaemonTcpOutgoing::Connect(Ok(connect(5))))),
        Step::Await {
            passed: Some("PASS tcp legacy connect (id 5)".to_owned()),
            send: vec![tcp_write(5, b"hello, echo")],
            next: TcpEcho::Echo { id: 5 },
        }
    );
    let read = |id, bytes: &'static [u8]| {
        daemon(DaemonTcpOutgoing::Read(Ok(DaemonRead {
            connection_id: id,
            bytes: Bytes::from_static(bytes),
        })))
    };
    assert_eq!(
        tcp_echo(TcpEcho::Echo { id: 5 }, read(5, b"hello, echo")),
        Step::Await {
            passed: Some("PASS tcp echo roundtrip".to_owned()),
            send: vec![tcp_write(5, b"")],
            next: TcpEcho::Close { id: 5 },
        }
    );
    for wrong in [(5, b"hello, ech!".as_slice()), (6, b"hello, echo".as_slice()), (5, b"hello".as_slice())] {
        assert_eq!(
            tcp_echo(TcpEcho::Echo { id: 5 }, read(wrong.0, wrong.1)),
            Step::Fail {
                check: "tcp echo roundtrip",
                reason: Reason::Unexpected(read(wrong.0, wrong.1)),
            }
        );
    }
    assert_eq!(
        tcp_echo(TcpEcho::Close { id: 5 }, daemon(DaemonTcpOutgoing::Close(5))),
        Step::Done { passed: "PASS tcp shutdown -> close".to_owned(), send: vec![] }
    );
    assert_eq!(
        tcp_echo(TcpEcho::Close { id: 5 }, daemon(DaemonTcpOutgoing::Close(6))),
        Step::Fail {
            check: "tcp shutdown -> close",
            reason: Reason::Unexpected(daemon(DaemonTcpOutgoing::Close(6))),
        }
    );
    assert_eq!(
        tcp_echo(TcpEcho::Connect, daemon(DaemonTcpOutgoing::Connect(Err(refused())))),
        Step::Fail {
            check: "tcp legacy connect",
            reason: Reason::Unexpected(daemon(DaemonTcpOutgoing::Connect(Err(refused())))),
        }
    );
}

#[test]
fn closes_by_the_client_are_checked() {
    let uid = Uid(9);
    let (sent, at) = start_tcp_v2_and_client_close(ECHO, uid);
    let request = LayerConnectV2 { uid, remote_address: SocketAddress::Ip(ECHO) };
    assert_eq!(sent, vec![tcp(LayerTcpOutgoing::ConnectV2(request))]);
    let answer = |uid, connect| daemon(DaemonTcpOutgoing::ConnectV2(DaemonConnectV2 { uid, connect }));
    assert_eq!(
        tcp_v2_and_client_close(at, answer(uid, Ok(connect(5)))),
        Step::Await {
            passed: Some("PASS tcp v2 connect (id 5)".to_owned()),
            send: vec![
                tcp(LayerTcpOutgoing::Close(LayerClose { connection_id: 5 })),
                tcp_write(5, b"into the void"),
                ClientMessage::Ping,
            ],
            next: TcpV2::Pong,
        }
    );
    assert_eq!(
        tcp_v2_and_client_close(at, answer(uid, Err(refused()))),
        Step::Fail { check: "tcp v2 connect", reason: Reason::Connect(refused()) }
    );
    assert_eq!(
        tcp_v2_and_client_close(at, answer(Uid(8), Ok(connect(5)))),
        Step::Fail {
            check: "tcp v2 connect",
            reason: Reason::Unexpected(answer(Uid(8), Ok(connect(5)))),
        }
    );
    assert_eq!(
        tcp_v2_and_client_close(TcpV2::Pong, DaemonMessage::Pong),
        Step::Done { passed: "PASS tcp client close is silent".to_owned(), send: vec![] }
    );
    assert_eq!(
        tcp_v2_and_client_close(TcpV2::Pong, daemon(DaemonTcpOutgoing::Close(5))),
        Step::Fail {
            check: "tcp client close is silent",
            reason: Reason::Unexpected(daemon(DaemonTcpOutgoing::Close(5))),
        }
    );
}

#[test]
fn the_order_of_legacy_connects_is_checked() {
    let (sent, at) = start_tcp_legacy_ordering(ECHO);
    let legacy = |port| {
        tcp(LayerTcpOutgoing::Connect(LayerConnect {
            remote_address: SocketAddress::Ip(SocketAddr::V4 { ip: 0x7f00_0001, port }),
        }))
    };
    assert_eq!(sent, vec![legacy(7777), legacy(1)]);
    assert_eq!(
        tcp_legacy_ordering(at, daemon(DaemonTcpOutgoing::Connect(Ok(connect(3))))),
        Step::Await { passed: None, send: vec![], next: TcpLegacy::Second { first_id: 3 } }
    );
    assert_eq!(
        tcp_legacy_ordering(
            TcpLegacy::Second { first_id: 3 },
            daemon(DaemonTcpOutgoing::Connect(Err(refused())))
        ),
        Step::Done {
            passed: "PASS tcp legacy connect ordering".to_owned(),
            send: vec![tcp(LayerTcpOutgoing::Close(LayerClose { connection_id: 3 }))],
        }
    );
    assert_eq!(
        tcp_legacy_ordering(at, daemon(DaemonTcpOutgoing::Connect(Err(refused())))),
        Step::Fail {
            check: "tcp legacy ordering",
            reason: Reason::Unexpected(daemon(DaemonTcpOutgoing::Connect(Err(refused())))),
        }
    );
    assert_eq!(
        tcp_legacy_ordering(TcpLegacy::Second { first_id: 3 }, DaemonMessage::Pong),
        Step::Fail {
            check: "tcp legacy connect ordering",
            reason: Reason::Unexpected(DaemonMessage::Pong),
        }
    );
}

#[test]
fn datagrams_are_checked() {
    let uid = Uid(9);
    let (sent, at) = start_udp_echo_check(ECHO, uid);
    let udp = ClientMessage::UdpOutgoing;
    let request = LayerConnectV2 { uid, remote_address: SocketAddress::Ip(ECHO) };
    assert_eq!(sent, vec![udp(LayerUdpOutgoing::ConnectV2(request))]);
    let answer = |uid, connect| {
        DaemonMessage::UdpOutgoing(DaemonUdpOutgoing::ConnectV2(DaemonConnectV2 { uid, connect }))
    };
    let write = LayerWrite { connection_id: 5, bytes: Bytes::from_static(b"udp says hi") };
    assert_eq!(
        udp_echo_check(at, answer(uid, Ok(connect(5)))),
        Step::Await {
            passed: Some("PASS udp v2 connect (id 5)".to_owned()),
            send: vec![udp(LayerUdpOutgoing::Write(write))],
            next: UdpEcho::Echo { id: 5 },
        }
    );
    assert_eq!(
        udp_echo_check(at, answer(uid, Err(refused()))),
        Step::Fail { check: "udp v2 connect", reason: Reason::Connect(refused()) }
    );
    let read = |bytes: &'static [u8]| {
        DaemonMessage::UdpOutgoing(DaemonUdpOutgoing::Read(Ok(DaemonRead {
            connection_id: 5,
            bytes: Bytes::from_static(bytes),
        })))
    };
    assert_eq!(
        udp_echo_check(UdpEcho::Echo { id: 5 }, read(b"udp says hi")),
        Step::Done {
            passed: "PASS udp echo roundtrip".to_owned(),
            send: vec![udp(LayerUdpOutgoing::Close(LayerClose { connection_id: 5 }))],
        }
    );
    assert_eq!(
        udp_echo_check(UdpEcho::Echo { id: 5 }, read(b"udp says no")),
        Step::Fail {
            check: "udp echo roundtrip",
            reason: Reason::Unexpected(read(b"udp says no")),
        }
    );
}

#[test]
fn all_checks_are_run_in_order() {
    let flags = |flags: &[&str]| options(&flags.iter().map(|flag| flag.to_string()).collect());
    let all = Options { ordered_names: true, check_unsupported: true };
    assert_eq!(flags(&[]), all);
    assert_eq!(flags(&["--unknown"]), all);
    let some = Options { ordered_names: false, check_unsupported: false };
    assert_eq!(flags(&["--full-agent", "--unordered-dns"]), some);
    let mut check = Check::Negotiation;
    let mut seen = vec![check];
    while let NextCheck::SameSession(next) = next_check(check, all) {
        check = next;
        seen.push(check);
    }
    assert_eq!(
        seen,
        vec![
            Check::Negotiation,
            Check::Dns,
            Check::TcpEcho,
            Check::TcpV2AndClientClose,
            Check::TcpLegacyOrdering,
            Check::UdpEcho,
        ]
    );
    assert_eq!(
        next_check(Check::UdpEcho, all),
        NextCheck::NewSession(Check::UnsupportedFeature)
    );
    assert_eq!(next_check(Check::UnsupportedFeature, all), NextCheck::Finish);
    assert_eq!(next_check(Check::UdpEcho, some), NextCheck::CloseAndFinish);
}
