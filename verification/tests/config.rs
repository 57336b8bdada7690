//! Configuration, texts and small tools.

use mirrord_core::budget::MemoryBudget;
use mirrord_core::cpu_sample::{cpu_ticks, cpu_times, sample_line, sampling_period, ENV};
use mirrord_core::echo::{
    echo_port, echo_tcp, echo_udp, listening_line, DatagramEvent, DatagramStep, EchoEvent, EchoStep,
};
use mirrord_core::env_vars::EnvVars;
use mirrord_core::internal_proxy::{
    first_stage, port_text, proxy, ProxyConfig, ProxyNext, ProxyStage,
};
use mirrord_core::s3::{
    BranchBaseConfig, ConfigError, ConnectionParamsConfig, ConnectionParamsVars, ParamSource,
    S3BranchConfig, S3BranchCopyConfig, S3Provider, SourceType,
};
use mirrord_core::text::{
    chars_of, decimal_text, joined, numbered, parse_unsigned, same_text, split_words, text_of,
};

fn source() -> ParamSource {
    ParamSource::Variable("MY_BUCKET_ENV_VAR".to_owned())
}

fn branch(extra: &[&str]) -> S3BranchConfig {
    S3BranchConfig {
        base: BranchBaseConfig { conflict: None },
        provider: S3Provider::default(),
        source: ConnectionParamsConfig {
            source_type: Some(SourceType::EnvFrom),
            params: ConnectionParamsVars {
                host: None,
                port: None,
                user: None,
                password: None,
                database: None,
                extra: extra.iter().map(|name| (name.to_string(), source())).collect(),
            },
        },
        copy: S3BranchCopyConfig::default(),
    }
}

fn conflict(text: &str) -> Result<(), ConfigError> {
    Err(ConfigError::Conflict(text.to_owned()))
}

#[test]
fn a_bucket_alone_is_accepted() {
    assert_eq!(branch(&["bucket"]).verify(), Ok(()));
    assert_eq!(S3Provider::default(), S3Provider::Aws);
    assert_eq!(S3BranchCopyConfig::default(), S3BranchCopyConfig::Empty);
}

#[test]
fn a_bucket_is_required() {
    let expected = conflict(
        "`feature.db_branches[].source.params.bucket` is required when `feature.db_branches[].type` is `s3`.",
    );
    assert_eq!(branch(&[]).verify(), expected);
    assert_eq!(branch(&["region"]).verify(), expected);
}

#[test]
fn other_params_are_rejected() {
    assert_eq!(
        branch(&["bucket", "region", "zone"]).verify(),
        conflict(
            "`region` is not a valid `feature.db_branches[].source.params` entry for an s3 branch; the only accepted param is `bucket`.",
        )
    );
}

#[test]
fn fixed_slots_are_rejected() {
    let slots: [(&str, fn(&mut ConnectionParamsVars)); 5] = [
        ("host", |p| p.host = Some(source())),
        ("port", |p| p.port = Some(source())),
        ("user", |p| p.user = Some(source())),
        ("password", |p| p.password = Some(source())),
        ("database", |p| p.database = Some(source())),
    ];
    for (name, set) in slots {
        let mut config = branch(&["bucket"]);
        set(&mut config.source.params);
        assert_eq!(
            config.verify(),
            conflict(&format!(
                "`feature.db_branches[].source.params.{name}` is not a valid param for an s3 branch; the only accepted param is `bucket`."
            ))
        );
        // The first slot counts.
        config.source.params.host = Some(source());
        assert_eq!(
            config.verify(),
            conflict(
                "`feature.db_branches[].source.params.host` is not a valid param for an s3 branch; the only accepted param is `bucket`."
            )
        );
    }
}

#[test]
fn the_general_options_come_first() {
    let mut config = branch(&[]);
    config.base.conflict = Some("both ttls".to_owned());
    assert_eq!(config.verify(), conflict("both ttls"));
}

#[test]
fn names_of_variables_are_split() {
    let set = |text: &str| EnvVars(text.to_owned()).into_set();
    let names = set("A;B;A");
    assert_eq!(names.len(), 2);
    assert!(names.contains("A") && names.contains("B"));
    assert_eq!(set("").len(), 0);
    let names = set("A;B;");
    assert_eq!(names.len(), 2);
    assert!(!names.contains(""));
    let names = set(";A;;");
    assert_eq!(names.len(), 2);
    assert!(names.contains("") && names.contains("A"));
    assert_eq!(*EnvVars("x;y".to_owned()), "x;y");
}

const STAT: &str = "42 (weird) name (x)) S 1 42 42 0 -1 4194560 1 0 0 0 17 25 0 0 20 0 1 0 5 6 7\n";

#[test]
fn cpu_time_is_read() {
    assert_eq!(cpu_times(STAT), Some((17, 25)));
    assert_eq!(cpu_ticks(STAT), Some(42));
    assert_eq!(cpu_ticks("no name here 1 2 3"), None);
    for name in ["", "a b", "(x) 1 2", ")"] {
        let stat = format!("1 ({name}) S 1 2 3 4 5 6 7 8 9 10 11 12");
        assert_eq!(cpu_times(&stat), Some((11, 12)));
    }
    assert_eq!(cpu_ticks("1 (a) S 1 2 3 4 5 6 7 8 9 10 11"), None);
    assert_eq!(cpu_ticks("1 (a) S 1 2 3 4 5 6 7 8 9 10 x 12 13"), None);
    assert_eq!(cpu_ticks("1 (a) S 1 2 3 4 5 6 7 8 9 10 11 x"), None);
}

#[test]
fn sampling_is_configured() {
    assert_eq!(ENV, "MIRRORD_AGENT_CPU_SAMPLE_MS");
    assert_eq!(sampling_period(Some("100")), Some(100));
    assert_eq!(sampling_period(Some("0")), None);
    assert_eq!(sampling_period(Some("-1")), None);
    assert_eq!(sampling_period(Some("")), None);
    assert_eq!(sampling_period(None), None);
    assert_eq!(sample_line(1234567890123, 42), "CPUSAMPLE 1234567890123 42");
}

#[test]
fn budgets_are_reserved() {
    let budget = MemoryBudget::new(10);
    assert_eq!(budget.reserve(3).permits, 3);
    assert_eq!(budget.reserve(0).permits, 0);
    assert_eq!(budget.reserve(11).permits, 10);
    let twin = budget.clone();
    let held = budget.reserve(4);
    let permit = held.semaphore.clone().try_acquire_many_owned(held.next_step(0)).unwrap();
    assert_eq!(twin.reserve(1).semaphore.available_permits(), 6);
    drop(permit);
    assert_eq!(twin.reserve(1).semaphore.available_permits(), 10);
}

#[test]
fn a_reservation_is_granted_by_as_many_permits() {
    let budget = MemoryBudget::new(10);
    let reservation = budget.reserve(7);
    let take = |n| reservation.semaphore.clone().try_acquire_many_owned(n).unwrap();
    assert!(reservation.granted(vec![take(6)]).is_none());
    assert!(reservation.granted(vec![take(4), take(4)]).is_none());
    assert_eq!(reservation.semaphore.available_permits(), 10);
    let permit = reservation.granted(vec![take(4), take(3)]).unwrap();
    assert_eq!(reservation.semaphore.available_permits(), 3);
    let small = budget.reserve(3);
    let other = small.granted(vec![take(3)]).unwrap();
    assert_ne!(permit, other);
    drop(other);
    drop(permit);
    assert_eq!(reservation.semaphore.available_permits(), 10);
    assert!(budget.reserve(0).granted(vec![]).is_some());
}

#[test]
fn only_reservations_larger_than_the_budget_are_clamped() {
    let max: usize = 1 << 34;
    let budget = MemoryBudget::new(max);
    let large = budget.reserve((1 << 33) + 5);
    assert_eq!(large.permits, (1 << 33) + 5);
    assert_eq!(budget.reserve(max).permits, max);
    assert_eq!(budget.reserve(max + 1).permits, max);

    let mut held: usize = 0;
    let mut permits = Vec::new();
    let mut steps = Vec::new();
    while large.next_step(held) > 0 {
        let step = large.next_step(held);
        permits.push(large.semaphore.clone().try_acquire_many_owned(step).unwrap());
        held += step as usize;
        steps.push(step);
    }
    assert_eq!(steps, [u32::MAX, u32::MAX, 7]);
    assert_eq!(large.semaphore.available_permits(), max - (1 << 33) - 5);
    drop(permits);
    assert_eq!(large.semaphore.available_permits(), max);
}

#[test]
fn budgets_that_are_apart_share_nothing() {
    let budget = MemoryBudget::new(10);
    let other = budget.new_apart(20);
    let held = budget.reserve(10).semaphore.try_acquire_many_owned(10).unwrap();
    assert_eq!(other.reserve(30).permits, 20);
    assert_eq!(other.reserve(30).semaphore.available_permits(), 20);
    assert_eq!(budget.reserve(1).semaphore.available_permits(), 0);
    drop(held);
    assert_eq!(budget.reserve(1).semaphore.available_permits(), 10);
}

#[test]
fn the_echo_server_listens() {
    assert_eq!(echo_port(None), 7777);
    assert_eq!(echo_port(Some("80")), 80);
    assert_eq!(echo_port(Some("65536")), 7777);
    assert_eq!(echo_port(Some("x")), 7777);
    assert_eq!(listening_line(80), "echo server listening on TCP+UDP port 80");
    assert_eq!(echo_tcp(EchoEvent::Read(5)), EchoStep::Write(5));
    assert_eq!(echo_tcp(EchoEvent::Written), EchoStep::Read);
    for end in [EchoEvent::Read(0), EchoEvent::ReadFailed, EchoEvent::WriteFailed] {
        assert_eq!(echo_tcp(end), EchoStep::Close);
    }
    assert_eq!(echo_udp(DatagramEvent::Received(0)), DatagramStep::Reply(0));
    assert_eq!(echo_udp(DatagramEvent::Received(9)), DatagramStep::Reply(9));
    assert_eq!(echo_udp(DatagramEvent::Replied), DatagramStep::Receive);
    assert_eq!(echo_udp(DatagramEvent::ReceiveFailed), DatagramStep::Report);
    assert_eq!(echo_udp(DatagramEvent::Reported), DatagramStep::Receive);
}

#[test]
fn the_proxy_starts_up_in_order() {
    let mut config = ProxyConfig {
        log_destination: Some("/tmp/log".to_owned()),
        log_level: None,
        start_idle_timeout: 60,
        idle_timeout: 5,
    };
    assert_eq!(first_stage(&config), ProxyStage::OpenLogs);
    config.log_destination = None;
    let mut stage = first_stage(&config);
    let mut seen = vec![stage];
    while let ProxyNext::Go(next) = proxy(stage, true) {
        stage = next;
        seen.push(stage);
    }
    assert_eq!(
        seen,
        vec![
            ProxyStage::RaiseFdLimit,
            ProxyStage::LoadConnectInfo,
            ProxyStage::Listen,
            ProxyStage::Connect,
            ProxyStage::PrintPort,
            ProxyStage::DetachIo,
            ProxyStage::Serve,
        ]
    );
    assert_eq!(proxy(ProxyStage::Serve, true), ProxyNext::Done);
    assert_eq!(
        proxy(ProxyStage::RaiseFdLimit, false),
        ProxyNext::Warn(ProxyStage::LoadConnectInfo)
    );
    assert_eq!(proxy(ProxyStage::Connect, false), ProxyNext::Fail);
    assert_eq!(port_text(1234), "1234\n\n");
}

#[test]
fn texts() {
    assert_eq!(decimal_text(0), "0");
    assert_eq!(decimal_text(u128::MAX), u128::MAX.to_string());
    assert_eq!(numbered("a", 10, "b"), "a10b");
    assert_eq!(joined("a", "b", "c"), "abc");
    assert!(same_text("é", "é") && !same_text("a", "ab"));
    assert_eq!(text_of(&chars_of("héllo")), "héllo");
    let number = |text: &str, max| parse_unsigned(&chars_of(text), max);
    assert_eq!(number("+7", 10), Some(7));
    assert_eq!(number("007", 10), Some(7));
    assert_eq!(number("11", 10), None);
    assert_eq!(number("+", 10), None);
    assert_eq!(number("1_0", 10), None);
    assert_eq!(number("18446744073709551615", u64::MAX), Some(u64::MAX));
    assert_eq!(number("18446744073709551616", u64::MAX), None);
    let words: Vec<String> =
        split_words(&chars_of(" a\tbc \n d")).iter().map(|word| text_of(word)).collect();
    assert_eq!(words, ["a", "bc", "d"]);
}
