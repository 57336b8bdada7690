//! The agent, its clients and their lookups.

use bytes::Bytes;
use mirrord_core::agent::{
    accept_task, bind_listener, json_log, AcceptEvent, AcceptStep, AgentAction, AgentActor,
    AgentMsg, BindEvent, BindStep, EndedSession, Stack,
};
use mirrord_core::budget::{BudgetPermit, MemoryBudget};
use mirrord_core::client::{
    dispatch, dispatch_outgoing, reader_task, ClientAction, ClientActor, ClientMsg, FeatureEnd,
    OutgoingRoute, OutgoingWrite, ReaderEvent, ReaderStep, Route,
};
use mirrord_core::dns::resolve::{
    build_resolver, do_lookup, family_to_strategy, known_hosts, lookup_error_to_protocol, lookup_target,
    plan_resolver, resolver_hosts,
    AnswerRecord, LookupError, LookupIpStrategy, LookupTarget, NetError,
};
use mirrord_core::dns::{DnsAction, DnsActor, DnsMsg};
use mirrord_core::outgoing::router::{ActorEnd, RouterMsg};
use mirrord_core::outgoing::{LayerEvent, Transport};
use mirrord_core::protocol::{
    AddressFamily, ClientMessage, DaemonMessage, DaemonRead, DaemonTcpOutgoing, DnsLookup, FileRequest, GetAddrInfoRequestV2,
    IoError, IoErrorKind, IpAddr, LayerTcpOutgoing, LayerUdpOutgoing, LayerWrite, LogLevel,
    LogMessage, LookupRecord, ResolveErrorKindInternal, ResponseError, SockType,
};
use mirrord_core::version::{Precedence, Version};

/// What reserving `bytes` from a budget gives.
fn reserve(budget: &MemoryBudget, bytes: usize) -> BudgetPermit {
    let reservation = budget.reserve(bytes);
    let step = reservation.next_step(0);
    let permit = reservation.semaphore.clone().try_acquire_many_owned(step).unwrap();
    reservation.granted(vec![permit]).unwrap()
}

fn free(budget: &MemoryBudget) -> usize {
    budget.reserve(0).semaphore.available_permits()
}

fn version(text: &str) -> Version {
    Version::parse(text).unwrap()
}

fn io_error(text: &str) -> IoError {
    IoError { kind: IoErrorKind::Other("other".to_owned()), message: text.to_owned() }
}

fn log() -> ClientMsg {
    ClientMsg::Send {
        message: DaemonMessage::LogMessage(LogMessage {
            level: LogLevel::Info,
            message: "hello".to_owned(),
        }),
        budget: None,
    }
}

fn request(node: &str) -> GetAddrInfoRequestV2 {
    GetAddrInfoRequestV2 {
        node: node.to_owned(),
        service_port: 0,
        family: AddressFamily::Any,
        socktype: SockType::Any,
        flags: 0,
        protocol: 0,
    }
}

#[test]
fn the_listener_falls_back_to_ipv4() {
    assert_eq!(bind_listener(BindEvent::Start), BindStep::Try(Stack::DualStack));
    assert_eq!(bind_listener(BindEvent::Bound(Stack::DualStack)), BindStep::Done);
    assert_eq!(bind_listener(BindEvent::Failed(Stack::DualStack)), BindStep::Try(Stack::Ipv4));
    assert_eq!(bind_listener(BindEvent::Bound(Stack::Ipv4)), BindStep::Done);
    assert_eq!(bind_listener(BindEvent::Failed(Stack::Ipv4)), BindStep::Fail);
}

#[test]
fn a_session_is_named_after_its_client() {
    let session = ClientActor::pre_start(12);
    assert_eq!(session.names.dns, "client-12.dns");
    assert_eq!(session.names.tcp_outgoing, "client-12.tcp-out");
    assert_eq!(session.names.udp_outgoing, "client-12.udp-out");
    assert!(!session.state.ready_for_logs);
    let whole = session.to_client_budget.reserve(usize::MAX);
    assert_eq!(whole.permits, 512 * 1024);
    assert_eq!(whole.semaphore.available_permits(), 512 * 1024);

    // The directions do not share their budgets.
    let held = whole.semaphore.clone().try_acquire_many_owned(512 * 1024).unwrap();
    assert_eq!(whole.semaphore.available_permits(), 0);
    let other = session.from_client_budget.reserve(usize::MAX);
    assert_eq!(other.permits, 512 * 1024);
    assert_eq!(other.semaphore.available_permits(), 512 * 1024);
    drop(held);
}

#[test]
fn logs_wait_for_the_client() {
    let own = version("1.2.3");
    let mut state = ClientActor::pre_start(0).state;
    assert_eq!(ClientActor::handle(&own, &mut state, log()), vec![]);
    assert_eq!(
        ClientActor::handle(&own, &mut state, ClientMsg::ReadyForLogs),
        vec![]
    );
    let mut actions = ClientActor::handle(&own, &mut state, log());
    match actions.pop() {
        Some(ClientAction::Send(DaemonMessage::LogMessage(log))) => {
            assert_eq!(log.message, "hello");
        }
        other => panic!("{other:?}"),
    }
    assert!(actions.is_empty());
}

#[test]
fn reservations_are_given_back_after_the_message() {
    let own = version("1.2.3");
    let mut state = ClientActor::pre_start(0).state;
    let budget = MemoryBudget::new(100);
    let read = || {
        DaemonMessage::TcpOutgoing(DaemonTcpOutgoing::Read(Ok(DaemonRead {
            connection_id: 1,
            bytes: Bytes::from_static(b"data"),
        })))
    };
    let data = ClientMsg::Send { message: read(), budget: Some(reserve(&budget, 4)) };
    let mut actions = ClientActor::handle(&own, &mut state, data);
    assert_eq!(
        actions,
        vec![ClientAction::Send(read()), ClientAction::Release(reserve(&budget, 4))]
    );
    drop(actions.remove(0));
    assert_eq!(free(&budget), 96);
    drop(actions);
    assert_eq!(free(&budget), 100);

    // A log message that is held back keeps nothing.
    let held_back = match log() {
        ClientMsg::Send { message, .. } => {
            ClientMsg::Send { message, budget: Some(reserve(&budget, 5)) }
        }
        other => other,
    };
    assert_eq!(
        ClientActor::handle(&own, &mut state, held_back),
        vec![ClientAction::Release(reserve(&budget, 5))]
    );
    assert_eq!(free(&budget), 100);
}

#[test]
fn session_requests_are_answered() {
    let own = version("1.2.3");
    let mut state = ClientActor::pre_start(0).state;
    assert_eq!(
        ClientActor::handle(&own, &mut state, ClientMsg::Ping),
        vec![ClientAction::Send(DaemonMessage::Pong)]
    );
    assert_eq!(
        ClientActor::handle(&own, &mut state, ClientMsg::GetEnvVars),
        vec![ClientAction::Send(DaemonMessage::GetEnvVarsResponse(vec![]))]
    );
    assert_eq!(
        ClientActor::handle(&own, &mut state, ClientMsg::NotSupported { feature: "vpn" }),
        vec![ClientAction::Send(DaemonMessage::Close(
            "vpn is not supported by mirrord-agent-ractor".to_owned()
        ))]
    );
    assert_eq!(
        ClientActor::handle(&own, &mut state, ClientMsg::CloseRequested),
        vec![ClientAction::Stop("client sent Close")]
    );
    assert_eq!(
        ClientActor::handle(&own, &mut state, ClientMsg::ReaderFinished(None)),
        vec![ClientAction::Stop("client disconnected")]
    );
    assert_eq!(
        ClientActor::handle(&own, &mut state, ClientMsg::ReaderFinished(Some(io_error("eof")))),
        vec![ClientAction::Fail("client connection failed: eof".to_owned())]
    );
}

#[test]
fn the_older_version_is_spoken() {
    let own = version("1.10.0");
    let mut state = ClientActor::pre_start(0).state;
    for (client, spoken) in [
        ("1.9.9", "1.9.9"),
        ("1.10.0", "1.10.0"),
        ("2.0.0", "1.10.0"),
        ("1.10.0-alpha.2", "1.10.0-alpha.2"),
        ("1.10.1-rc", "1.10.0"),
    ] {
        let message = ClientMsg::SwitchProtocolVersion(version(client));
        assert_eq!(
            ClientActor::handle(&own, &mut state, message),
            vec![ClientAction::Send(DaemonMessage::SwitchProtocolVersionResponse(version(spoken)))]
        );
        assert_eq!(state.protocol_version, Some(version(client)));
    }
}

#[test]
fn versions_are_read() {
    let read = version("1.22.333-alpha.1+build.5");
    assert_eq!((read.major, read.minor, read.patch), (1, 22, 333));
    assert_eq!(read.pre, "alpha.1");
    assert_eq!(read.build, "build.5");
    assert!(Version::parse("1.2").is_none());
    assert!(Version::parse("1.2.3-01").is_none());
}

#[test]
fn tags_decide_between_equal_numbers() {
    let settled = |own: &str, client: &str| version(own).settle(&version(client));
    assert_eq!(settled("1.0.0-alpha.10", "1.0.0-alpha.9"), version("1.0.0-alpha.9"));
    assert_eq!(settled("1.0.0-alpha", "1.0.0"), version("1.0.0-alpha"));
    assert_eq!(settled("1.0.0+b", "1.0.0+a"), version("1.0.0+a"));
    let by = |precedence| version("1.0.0").settle_by(&version("2.0.0"), precedence);
    assert_eq!(by(Precedence::Older), version("1.0.0"));
    assert_eq!(by(Precedence::Same), version("1.0.0"));
    assert_eq!(by(Precedence::Newer), version("2.0.0"));
}

#[test]
fn a_feature_that_ends_breaks_the_session() {
    let failed = FeatureEnd::Failed {
        name: Some("client-1.dns".to_owned()),
        error: "boom".to_owned(),
    };
    let end = ClientActor::handle_supervisor_evt(failed).unwrap();
    assert_eq!(
        end.farewell,
        DaemonMessage::Close("agent failed serving this session: boom".to_owned())
    );
    assert_eq!(end.error, "feature actor client-1.dns failed: boom");

    let stopped = FeatureEnd::Terminated { name: None, reason: "None".to_owned() };
    let end = ClientActor::handle_supervisor_evt(stopped).unwrap();
    assert_eq!(end.error, "feature actor  stopped unexpectedly (reason: None)");
    assert_eq!(
        end.farewell,
        DaemonMessage::Close(
            "agent failed serving this session: feature actor  stopped unexpectedly (reason: None)"
                .to_owned()
        )
    );
    assert!(ClientActor::handle_supervisor_evt(FeatureEnd::Other).is_none());
}

#[test]
fn unsupported_features_are_named() {
    for (message, expected) in [
        (ClientMessage::FileRequest(FileRequest::Other), "file operations"),
        (ClientMessage::Tcp, "incoming traffic mirroring"),
        (ClientMessage::TcpSteal, "incoming traffic stealing"),
        (ClientMessage::SeqpacketOutgoing, "seqpacket outgoing traffic"),
        (ClientMessage::ReverseDnsLookup, "reverse DNS lookup"),
        (ClientMessage::Vpn, "vpn"),
        (ClientMessage::PauseTargetRequest, "target pause"),
    ] {
        assert_eq!(
            dispatch(message),
            Route::Client(ClientMsg::NotSupported { feature: expected })
        );
    }
}

#[test]
fn messages_are_routed() {
    assert_eq!(dispatch(ClientMessage::Ping), Route::Client(ClientMsg::Ping));
    assert_eq!(dispatch(ClientMessage::Close), Route::Client(ClientMsg::CloseRequested));
    assert_eq!(dispatch(ClientMessage::ReadyForLogs), Route::Client(ClientMsg::ReadyForLogs));
    assert_eq!(dispatch(ClientMessage::GetEnvVarsRequest), Route::Client(ClientMsg::GetEnvVars));
    assert_eq!(
        dispatch(ClientMessage::SwitchProtocolVersion(version("1.0.0"))),
        Route::Client(ClientMsg::SwitchProtocolVersion(version("1.0.0")))
    );
    assert_eq!(dispatch(ClientMessage::OperatorPong), Route::Ignore);
    assert_eq!(dispatch(ClientMessage::ShareLink), Route::Ignore);
    assert_eq!(
        dispatch(ClientMessage::GetAddrInfoRequest(request("a"))),
        Route::Dns(request("a"))
    );
    assert_eq!(
        dispatch(ClientMessage::GetAddrInfoRequestV2(request("a"))),
        Route::Dns(request("a"))
    );
}

#[test]
fn data_reserves_memory_before_it_is_routed() {
    let layer_write = |bytes: &'static [u8]| LayerWrite {
        connection_id: 3,
        bytes: Bytes::from_static(bytes),
    };
    assert_eq!(
        dispatch(ClientMessage::TcpOutgoing(LayerTcpOutgoing::Write(layer_write(b"12345")))),
        Route::Outgoing(
            Transport::Tcp,
            OutgoingRoute::ReserveAndCast {
                bytes: 5,
                write: OutgoingWrite { id: 3, bytes: Bytes::from_static(b"12345") },
            }
        )
    );
    let budget = MemoryBudget::new(10);
    let write = OutgoingWrite { id: 3, bytes: Bytes::from_static(b"12345") };
    let message = write.with(reserve(&budget, 5));
    assert_eq!(free(&budget), 5);
    assert_eq!(
        message,
        RouterMsg::Write {
            id: 3,
            bytes: Bytes::from_static(b"12345"),
            budget: reserve(&budget, 5),
        }
    );
    assert_eq!(
        dispatch(ClientMessage::UdpOutgoing(LayerUdpOutgoing::Write(layer_write(b"")))),
        Route::Outgoing(
            Transport::Udp,
            OutgoingRoute::Cast(RouterMsg::ShutdownWrite { id: 3 })
        )
    );
    assert_eq!(
        dispatch_outgoing(LayerEvent::Close { id: 4 }),
        OutgoingRoute::Cast(RouterMsg::Close { id: 4 })
    );
}

#[test]
fn the_reader_ends_with_its_connection() {
    assert_eq!(
        reader_task(ReaderEvent::Received(ClientMessage::Ping)),
        ReaderStep::Route(Route::Client(ClientMsg::Ping))
    );
    assert_eq!(
        reader_task(ReaderEvent::Ended),
        ReaderStep::Finish(ClientMsg::ReaderFinished(None))
    );
    assert_eq!(
        reader_task(ReaderEvent::Failed(io_error("x"))),
        ReaderStep::Finish(ClientMsg::ReaderFinished(Some(io_error("x"))))
    );
    assert_eq!(reader_task(ReaderEvent::SessionClosed), ReaderStep::Quit);
}

#[test]
fn clients_are_numbered_and_remembered() {
    let mut state = AgentActor::pre_start();
    assert_eq!(
        AgentActor::handle(&mut state, AgentMsg::ClientConnected),
        AgentAction::StartSession { id: 0, name: "client-0".to_owned() }
    );
    assert_eq!(AgentActor::started(&mut state, 0, Ok(100)), AgentAction::Nothing);
    assert_eq!(
        AgentActor::handle(&mut state, AgentMsg::ClientConnected),
        AgentAction::StartSession { id: 1, name: "client-1".to_owned() }
    );
    assert_eq!(AgentActor::started(&mut state, 1, Ok(101)), AgentAction::Nothing);
    assert_eq!(
        AgentActor::handle_supervisor_evt(&mut state, ActorEnd::Terminated(100)),
        Some(EndedSession { id: 0, error: None })
    );
    assert_eq!(
        AgentActor::handle_supervisor_evt(&mut state, ActorEnd::Failed(101, "x".to_owned())),
        Some(EndedSession { id: 1, error: Some("x".to_owned()) })
    );
    assert_eq!(AgentActor::handle_supervisor_evt(&mut state, ActorEnd::Terminated(101)), None);
    assert_eq!(AgentActor::handle_supervisor_evt(&mut state, ActorEnd::Other), None);
    assert!(state.clients.is_empty());
    // The agent lives on.
    assert_eq!(
        AgentActor::handle(&mut state, AgentMsg::FirstClientTimeout),
        AgentAction::Nothing
    );
}

#[test]
fn an_agent_without_clients_stops() {
    let mut state = AgentActor::pre_start();
    assert_eq!(
        AgentActor::handle(&mut state, AgentMsg::FirstClientTimeout),
        AgentAction::Stop("first client timeout")
    );
    assert_eq!(
        AgentActor::handle(&mut state, AgentMsg::AcceptFailed(io_error("emfile"))),
        AgentAction::Fail("client listener failed: emfile".to_owned())
    );
    assert_eq!(
        AgentActor::started(&mut state, 0, Err("no".to_owned())),
        AgentAction::Fail("no".to_owned())
    );
    assert_eq!(
        AgentActor::handle(&mut state, AgentMsg::ReportStatus),
        AgentAction::ReportStatus
    );
}

#[test]
fn the_accept_loop_ends_with_the_listener_or_the_agent() {
    assert_eq!(
        accept_task(AcceptEvent::Accepted),
        AcceptStep::TellAndContinue(AgentMsg::ClientConnected)
    );
    assert_eq!(
        accept_task(AcceptEvent::Failed(io_error("x"))),
        AcceptStep::TellAndStop(AgentMsg::AcceptFailed(io_error("x")))
    );
    assert_eq!(accept_task(AcceptEvent::AgentGone), AcceptStep::Stop);
}

#[test]
fn json_logs_are_asked_for() {
    assert!(json_log(Some("true")));
    assert!(!json_log(Some("1")));
    assert!(!json_log(Some("false")));
    assert!(!json_log(None));
}

fn record(name: &str, ip: u32) -> LookupRecord {
    LookupRecord { name: name.to_owned(), ip: IpAddr::V4(ip) }
}

fn found(name: &str, ip: u32) -> Result<DnsLookup, ResolveErrorKindInternal> {
    Ok(DnsLookup(vec![record(name, ip)]))
}

#[test]
fn lookups_are_answered_in_request_order() {
    let mut state = DnsActor::pre_start();
    for (i, node) in ["a", "b", "c"].into_iter().enumerate() {
        assert_eq!(
            DnsActor::handle(&mut state, DnsMsg::Lookup(request(node))),
            DnsAction::Start { seq: i as u64, request: request(node) }
        );
    }
    let answer = |name: &str, ip: u32| {
        DaemonMessage::GetAddrInfoResponse(Ok(DnsLookup(vec![record(name, ip)])))
    };
    let resolved = |seq: u64, result| DnsMsg::Resolved { seq, result };
    assert_eq!(
        DnsActor::handle(&mut state, resolved(1, found("b", 2))),
        DnsAction::Answer(vec![])
    );
    assert_eq!(
        DnsActor::handle(&mut state, resolved(9, found("nobody", 9))),
        DnsAction::Answer(vec![])
    );
    assert_eq!(
        DnsActor::handle(&mut state, resolved(0, found("a", 1))),
        DnsAction::Answer(vec![answer("a", 1), answer("b", 2)])
    );
    assert_eq!(
        DnsActor::handle(&mut state, resolved(2, Err(ResolveErrorKindInternal::Timeout))),
        DnsAction::Answer(vec![DaemonMessage::GetAddrInfoResponse(Err(
            ResponseError::DnsLookup(ResolveErrorKindInternal::Timeout)
        ))])
    );
    assert!(state.pending.is_empty());
}

#[test]
fn addresses_are_kept() {
    let answers = vec![
        AnswerRecord { name: "x.".to_owned(), ip: Some(IpAddr::V4(1)) },
        AnswerRecord { name: "cname.".to_owned(), ip: None },
        AnswerRecord { name: "y.".to_owned(), ip: Some(IpAddr::V6(2)) },
    ];
    assert_eq!(
        do_lookup(Some(Ok(answers))),
        Ok(DnsLookup(vec![
            record("x.", 1),
            LookupRecord { name: "y.".to_owned(), ip: IpAddr::V6(2) }
        ]))
    );
    assert_eq!(do_lookup(None), Err(ResolveErrorKindInternal::Timeout));
    assert_eq!(
        do_lookup(Some(Err(LookupError::Resolve(NetError::NoConnections)))),
        Err(ResolveErrorKindInternal::NoConnections)
    );
}

#[test]
fn errors_are_told_in_the_terms_of_the_protocol() {
    let message = |text: &str| ResolveErrorKindInternal::Message(text.to_owned());
    let text = || "text".to_owned();
    for (error, expected) in [
        (LookupError::ReadConfiguration(IoErrorKind::NotFound), ResolveErrorKindInternal::NotFound),
        (
            LookupError::ReadConfiguration(IoErrorKind::PermissionDenied),
            ResolveErrorKindInternal::PermissionDenied,
        ),
        (LookupError::ReadConfiguration(IoErrorKind::Other(text())), message("io error: text")),
        (LookupError::Resolve(NetError::Message(text())), message("text")),
        (LookupError::Resolve(NetError::Msg(text())), message("text")),
        (
            LookupError::Resolve(NetError::NoRecordsFound(3)),
            ResolveErrorKindInternal::NoRecordsFound(3),
        ),
        (
            LookupError::Resolve(NetError::ResponseCode(text())),
            message("DNS server error response: text"),
        ),
        (LookupError::Resolve(NetError::Proto(text())), message("proto error: text")),
        (LookupError::Resolve(NetError::Timeout), ResolveErrorKindInternal::Timeout),
        (
            LookupError::Resolve(NetError::Io(IoErrorKind::TimedOut)),
            ResolveErrorKindInternal::Timeout,
        ),
        (LookupError::Resolve(NetError::Other), ResolveErrorKindInternal::Unknown),
    ] {
        assert_eq!(lookup_error_to_protocol(error), expected);
    }
}

#[test]
fn families_ask_for_addresses() {
    for (family, expected) in [
        (AddressFamily::Ipv4Only, LookupIpStrategy::Ipv4Only),
        (AddressFamily::Ipv6Only, LookupIpStrategy::Ipv6Only),
        (AddressFamily::Both, LookupIpStrategy::Ipv4AndIpv6),
        (AddressFamily::Any, LookupIpStrategy::Ipv4thenIpv6),
        (
            AddressFamily::UnknownAddressFamilyFromNewerClient,
            LookupIpStrategy::Ipv4AndIpv6,
        ),
    ] {
        assert_eq!(family_to_strategy(family), expected);
    }
}

#[test]
fn addresses_are_not_made_names() {
    for node in ["127.0.0.1", "::1"] {
        match lookup_target(node.to_owned()) {
            Ok(LookupTarget::Address(address)) => assert_eq!(address, node),
            _ => panic!("{node} is an address"),
        }
    }
    // Underscores are fine in relaxed names.
    match lookup_target("my_host.example.".to_owned()) {
        Ok(LookupTarget::Name(name)) => {
            assert_eq!(name.to_string(), "my_host.example.");
            assert!(name.is_fqdn());
        }
        _ => panic!("a name"),
    }
    match lookup_target("a..b".to_owned()) {
        Err(NetError::Msg(text)) => assert!(text.starts_with("node name rejected by hickory: ")),
        _ => panic!("not a name"),
    }
}

#[test]
fn the_resolver_configuration_is_read() {
    let conf = b"nameserver 127.0.0.53\nnameserver ::1\noptions ndots:3 timeout:7 attempts:4\nsearch a.example b.example\n";
    let hosts = b"127.0.0.11 ractor-test-one\n".to_vec();
    let plan = match build_resolver(AddressFamily::Ipv6Only, Ok(conf.to_vec()), Ok(hosts.clone())) {
        Ok(plan) => plan,
        Err(error) => panic!("{error:?}"),
    };
    let servers: Vec<String> =
        plan.config.name_servers().iter().map(|server| server.ip.to_string()).collect();
    assert_eq!(servers, ["127.0.0.53", "::1"]);
    let search: Vec<String> = plan.config.search.iter().map(|name| name.to_string()).collect();
    assert_eq!(search, ["a.example", "b.example"]);
    assert_eq!(plan.options.ndots, 3);
    assert_eq!(plan.options.timeout.as_secs(), 7);
    assert_eq!(plan.options.attempts, 4);
    assert_eq!(
        plan.options.ip_strategy,
        hickory_resolver::config::LookupIpStrategy::Ipv6Only
    );
    assert_eq!(
        plan.options.server_ordering_strategy,
        hickory_resolver::config::ServerOrderingStrategy::UserProvidedOrder
    );
    assert_eq!(plan.hosts_conf, hosts);
}

#[test]
fn the_hosts_file_is_read() {
    let conf = b"# comment\n127.0.0.11 ractor-test-one\n".to_vec();
    let hosts = match resolver_hosts(Ok(()), &conf) {
        Ok(hosts) => hosts,
        Err(error) => panic!("{error:?}"),
    };
    let name = match lookup_target("ractor-test-one".to_owned()) {
        Ok(LookupTarget::Name(name)) => name,
        _ => panic!("a name"),
    };
    let query = hickory_resolver::proto::op::Query::query(
        name,
        hickory_resolver::proto::rr::RecordType::A,
    );
    let found = hosts.lookup_static_host(&query).unwrap();
    let ip = found.answers()[0].data.ip_addr().unwrap();
    assert_eq!(ip.to_string(), "127.0.0.11");
}

#[test]
fn the_first_failed_step_of_a_resolver_decides() {
    let plan = |resolv_conf, hosts_conf| {
        build_resolver(AddressFamily::Any, resolv_conf, hosts_conf).err()
    };
    assert_eq!(
        plan(Err(IoErrorKind::NotFound), Err(IoErrorKind::TimedOut)),
        Some(LookupError::ReadConfiguration(IoErrorKind::NotFound))
    );
    assert_eq!(
        plan(Ok(vec![]), Err(IoErrorKind::TimedOut)),
        Some(LookupError::ReadConfiguration(IoErrorKind::TimedOut))
    );
    // There is no server in an empty file.
    assert_eq!(
        plan(Ok(vec![]), Ok(vec![])),
        Some(LookupError::Resolve(NetError::Io(IoErrorKind::Other("other error".to_owned()))))
    );
    assert_eq!(
        resolver_hosts(Err(NetError::Other), &vec![0xff, 0xfe, b'\n']).err(),
        Some(LookupError::Resolve(NetError::Other))
    );
    assert_eq!(
        resolver_hosts(Ok(()), &vec![0xff, 0xfe, b'\n']).err(),
        Some(LookupError::ReadConfiguration(IoErrorKind::Other("invalid data".to_owned())))
    );
    assert_eq!(
        known_hosts(Err(IoErrorKind::TimedOut)).err(),
        Some(LookupError::ReadConfiguration(IoErrorKind::TimedOut))
    );
    assert_eq!(
        plan_resolver(AddressFamily::Any, Err(IoErrorKind::NotFound), vec![]).err(),
        Some(LookupError::Resolve(NetError::Io(IoErrorKind::NotFound)))
    );
}
