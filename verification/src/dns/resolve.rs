//! The resolution of one name: what to look up, how, and what its outcome is called in
//! the protocol.

use crate::dns::{result_view, LookupResult, LookupResultView};
use crate::protocol::{
    AddressFamily, DnsLookup, IoErrorKind, IoErrorKindView, IpAddr, LookupRecord,
    LookupRecordView, ResolveErrorKindInternal, ResolveErrorView,
};
use crate::text::joined;
use hickory_resolver::config::{ResolverConfig, ResolverOpts};
use hickory_resolver::proto::rr::Name;
use hickory_resolver::Hosts;
use vstd::prelude::*;

verus! {

/// `hickory_resolver::proto::rr::Name`, a domain name.
#[verifier::external_type_specification]
#[verifier::external_body]
pub struct ExName(hickory_resolver::proto::rr::Name);

/// `hickory_resolver::Hosts`, the contents of a hosts file.
#[verifier::external_type_specification]
#[verifier::external_body]
pub struct ExHosts(hickory_resolver::Hosts);

/// `hickory_resolver::config::ResolverConfig`, the servers and domains of a resolver.
#[verifier::external_type_specification]
#[verifier::external_body]
pub struct ExResolverConfig(hickory_resolver::config::ResolverConfig);

/// `hickory_resolver::config::ResolverOpts`, the options of a resolver.
#[verifier::external_type_specification]
#[verifier::external_body]
pub struct ExResolverOpts(hickory_resolver::config::ResolverOpts);

/// What a domain name is: its labels, and whether it is fully qualified.
pub uninterp spec fn name_parts(name: Name) -> (Seq<Seq<u8>>, bool);

/// The addresses that a hosts table holds for each name.
pub uninterp spec fn hosts_table(hosts: Hosts) -> Map<Seq<char>, Seq<IpAddr>>;

/// Whether a text is an IP address, going by `IntoName::to_ip`.
pub uninterp spec fn is_ip_text(node: Seq<char>) -> bool;

/// What `Name::from_str_relaxed` makes of a text: the labels of the name and whether it is
/// fully qualified, or the debug text of the error.
pub uninterp spec fn relaxed_name(node: Seq<char>) -> Result<(Seq<Seq<u8>>, bool), Seq<char>>;

/// What `Hosts::read_hosts_conf` reads a hosts file as, or the text of the kind of error.
pub uninterp spec fn parsed_hosts(conf: Seq<u8>) -> Result<
    Map<Seq<char>, Seq<IpAddr>>,
    Seq<char>,
>;

/// The addresses of the servers that a resolver asks, in order.
pub uninterp spec fn server_ips(config: ResolverConfig) -> Seq<IpAddr>;

/// The domains that a resolver searches for names, in order, each as in [`name_parts`].
pub uninterp spec fn search_domains(config: ResolverConfig) -> Seq<(Seq<Seq<u8>>, bool)>;

/// What the options of a resolver are set to.
pub uninterp spec fn options_of(options: ResolverOpts) -> OptionsView;

/// What `parse_resolv_conf` reads a resolver configuration as: the servers, the domains to
/// search and the options, or the text of the kind of error.
pub uninterp spec fn parsed_resolv_conf(conf: Seq<u8>) -> Result<
    (Seq<IpAddr>, Seq<(Seq<Seq<u8>>, bool)>, OptionsView),
    Seq<char>,
>;

/// Asks `IntoName::to_ip` whether a text is an IP address.
#[verifier::external_body]
fn is_ip(node: &str) -> (r: bool)
    ensures
        r == is_ip_text(node@),
{
    hickory_resolver::proto::rr::IntoName::to_ip(&node).is_some()
}

/// Reads a domain name with `Name::from_str_relaxed`.
#[verifier::external_body]
fn parse_relaxed(node: &str) -> (r: Result<Name, String>)
    ensures
        match r {
            Ok(name) => relaxed_name(node@) == Ok::<(Seq<Seq<u8>>, bool), Seq<char>>(
                name_parts(name),
            ),
            Err(text) => relaxed_name(node@) == Err::<(Seq<Seq<u8>>, bool), Seq<char>>(text@),
        },
{
    Name::from_str_relaxed(node).map_err(|error| format!("{error:?}"))
}

/// Reads a hosts file with `Hosts::read_hosts_conf`. The only way for it to fail on bytes
/// in memory is a line that is not text, so the kind of error is none of the kinds told
/// apart here.
#[verifier::external_body]
fn read_hosts(conf: &[u8]) -> (r: Result<Hosts, IoErrorKind>)
    ensures
        match r {
            Ok(hosts) => parsed_hosts(conf@) == Ok::<Map<Seq<char>, Seq<IpAddr>>, Seq<char>>(
                hosts_table(hosts),
            ),
            Err(kind) => kind matches IoErrorKind::Other(text) && parsed_hosts(conf@) == Err::<
                Map<Seq<char>, Seq<IpAddr>>,
                Seq<char>,
            >(text@),
        },
{
    let mut hosts = Hosts::default();
    match hosts.read_hosts_conf(conf) {
        Ok(()) => Ok(hosts),
        Err(error) => Err(IoErrorKind::Other(error.kind().to_string())),
    }
}

/// Reads a resolver configuration with `parse_resolv_conf`. It fails on configurations
/// without a server and with search domains that are not names, with an IO error of no kind
/// in particular. The domain of the host itself is left unsaid: where none is configured, the
/// name of the host gives one.
#[verifier::external_body]
fn parse_servers(conf: &[u8]) -> (r: Result<(ResolverConfig, ResolverOpts), IoErrorKind>)
    ensures
        match r {
            Ok((config, options)) => parsed_resolv_conf(conf@) == Ok::<
                (Seq<IpAddr>, Seq<(Seq<Seq<u8>>, bool)>, OptionsView),
                Seq<char>,
            >((server_ips(config), search_domains(config), options_of(options))),
            Err(kind) => kind matches IoErrorKind::Other(text) && parsed_resolv_conf(conf@)
                == Err::<(Seq<IpAddr>, Seq<(Seq<Seq<u8>>, bool)>, OptionsView), Seq<char>>(text@),
        },
{
    match hickory_resolver::system_conf::parse_resolv_conf(conf) {
        Ok(parsed) => Ok(parsed),
        Err(hickory_resolver::net::NetError::Io(error)) => Err(
            IoErrorKind::Other(error.kind().to_string()),
        ),
        Err(error) => Err(IoErrorKind::Other(error.to_string())),
    }
}

/// Sets `ResolverOpts::ip_strategy`, and nothing else.
#[verifier::external_body]
fn set_ip_strategy(options: ResolverOpts, strategy: LookupIpStrategy) -> (r: ResolverOpts)
    ensures
        options_of(r) == (OptionsView { ip_strategy: strategy, ..options_of(options) }),
{
    let mut options = options;
    options.ip_strategy = match strategy {
        LookupIpStrategy::Ipv4Only => hickory_resolver::config::LookupIpStrategy::Ipv4Only,
        LookupIpStrategy::Ipv6Only => hickory_resolver::config::LookupIpStrategy::Ipv6Only,
        LookupIpStrategy::Ipv4AndIpv6 => hickory_resolver::config::LookupIpStrategy::Ipv4AndIpv6,
        LookupIpStrategy::Ipv6AndIpv4 => hickory_resolver::config::LookupIpStrategy::Ipv6AndIpv4,
        LookupIpStrategy::Ipv6thenIpv4 => hickory_resolver::config::LookupIpStrategy::Ipv6thenIpv4,
        LookupIpStrategy::Ipv4thenIpv6 => hickory_resolver::config::LookupIpStrategy::Ipv4thenIpv6,
    };
    options
}

/// Sets `ResolverOpts::server_ordering_strategy`, and nothing else.
#[verifier::external_body]
fn set_server_order(options: ResolverOpts, order: ServerOrder) -> (r: ResolverOpts)
    ensures
        options_of(r) == (OptionsView { server_order: order, ..options_of(options) }),
{
    let mut options = options;
    options.server_ordering_strategy = match order {
        ServerOrder::ByStatistics => {
            hickory_resolver::config::ServerOrderingStrategy::QueryStatistics
        },
        ServerOrder::AsGiven => {
            hickory_resolver::config::ServerOrderingStrategy::UserProvidedOrder
        },
        ServerOrder::RoundRobin => hickory_resolver::config::ServerOrderingStrategy::RoundRobin,
    };
    options
}

/// How a lookup failed inside the resolver.
#[derive(Debug, PartialEq, Eq)]
pub enum NetError {
    /// An error with a fixed message.
    Message(String),
    /// An error with a message made for the occasion.
    Msg(String),
    NoConnections,
    /// The server had no records; holds its response code.
    NoRecordsFound(u16),
    /// The server answered with an error; holds the text of the code.
    ResponseCode(String),
    /// The answer could not be understood; holds the text of the error.
    Proto(String),
    Timeout,
    Io(IoErrorKind),
    /// Any other error.
    Other,
}

/// How a lookup failed.
#[derive(Debug, PartialEq, Eq)]
pub enum LookupError {
    /// The configuration could not be read.
    ReadConfiguration(IoErrorKind),
    Resolve(NetError),
}

pub open spec fn io_failure(kind: IoErrorKindView) -> ResolveErrorView {
    match kind {
        IoErrorKindView::TimedOut => ResolveErrorView::Timeout,
        IoErrorKindView::NotFound => ResolveErrorView::NotFound,
        IoErrorKindView::PermissionDenied => ResolveErrorView::PermissionDenied,
        IoErrorKindView::Other(text) => ResolveErrorView::Message("io error: "@ + text),
    }
}

pub open spec fn net_failure(error: NetError) -> ResolveErrorView {
    match error {
        NetError::Message(message) => ResolveErrorView::Message(message@),
        NetError::Msg(message) => ResolveErrorView::Message(message@),
        NetError::NoConnections => ResolveErrorView::NoConnections,
        NetError::NoRecordsFound(code) => ResolveErrorView::NoRecordsFound(code),
        NetError::ResponseCode(code) => ResolveErrorView::Message(
            "DNS server error response: "@ + code@,
        ),
        NetError::Proto(text) => ResolveErrorView::Message("proto error: "@ + text@),
        NetError::Timeout => ResolveErrorView::Timeout,
        NetError::Io(kind) => io_failure(kind@),
        NetError::Other => ResolveErrorView::Unknown,
    }
}

pub open spec fn lookup_failure(error: LookupError) -> ResolveErrorView {
    match error {
        LookupError::ReadConfiguration(kind) => io_failure(kind@),
        LookupError::Resolve(error) => net_failure(error),
    }
}

fn prefixed(prefix: &str, text: &str) -> (r: String)
    ensures
        r@ == prefix@ + text@,
{
    let out = joined(prefix, text, "");
    proof {
        reveal_strlit("");
        assert(out@ =~= prefix@ + text@);
    }
    out
}

pub fn lookup_error_to_protocol(error: LookupError) -> (r: ResolveErrorKindInternal)
    ensures
        r@ == lookup_failure(error),
{
    match error {
        LookupError::ReadConfiguration(kind) => io_error_to_protocol(kind),
        LookupError::Resolve(error) => net_error_to_protocol(error),
    }
}

pub fn io_error_to_protocol(kind: IoErrorKind) -> (r: ResolveErrorKindInternal)
    ensures
        r@ == io_failure(kind@),
{
    match kind {
        IoErrorKind::TimedOut => ResolveErrorKindInternal::Timeout,
        IoErrorKind::NotFound => ResolveErrorKindInternal::NotFound,
        IoErrorKind::PermissionDenied => ResolveErrorKindInternal::PermissionDenied,
        IoErrorKind::Other(text) => ResolveErrorKindInternal::Message(
            prefixed("io error: ", text.as_str()),
        ),
    }
}

pub fn net_error_to_protocol(error: NetError) -> (r: ResolveErrorKindInternal)
    ensures
        r@ == net_failure(error),
{
    match error {
        NetError::Message(message) => ResolveErrorKindInternal::Message(message),
        NetError::Msg(message) => ResolveErrorKindInternal::Message(message),
        NetError::NoConnections => ResolveErrorKindInternal::NoConnections,
        NetError::NoRecordsFound(code) => ResolveErrorKindInternal::NoRecordsFound(code),
        NetError::ResponseCode(code) => ResolveErrorKindInternal::Message(
            prefixed("DNS server error response: ", code.as_str()),
        ),
        NetError::Proto(text) => ResolveErrorKindInternal::Message(
            prefixed("proto error: ", text.as_str()),
        ),
        NetError::Timeout => ResolveErrorKindInternal::Timeout,
        NetError::Io(kind) => io_error_to_protocol(kind),
        NetError::Other => ResolveErrorKindInternal::Unknown,
    }
}

/// Which addresses a lookup asks for, and in which order.
#[derive(Debug, Clone, Copy, PartialEq, Eq)]
pub enum LookupIpStrategy {
    Ipv4Only,
    Ipv6Only,
    Ipv4AndIpv6,
    Ipv6AndIpv4,
    Ipv6thenIpv4,
    Ipv4thenIpv6,
}

/// In which order a resolver asks its servers.
#[derive(Debug, Clone, Copy, PartialEq, Eq)]
pub enum ServerOrder {
    /// The order varies with what is known of the servers.
    ByStatistics,
    /// The order in which the servers are given.
    AsGiven,
    /// The order rotates.
    RoundRobin,
}

/// The options of a resolver that its configuration or the agent decide on.
pub struct OptionsView {
    /// How many dots a name has that is tried as it is first.
    pub ndots: nat,
    pub timeout_secs: nat,
    pub attempts: nat,
    pub edns0: bool,
    pub ip_strategy: LookupIpStrategy,
    pub server_order: ServerOrder,
}

/// The strategy for a family. A family that is not known asks for both.
pub open spec fn strategy_of(family: AddressFamily) -> LookupIpStrategy {
    match family {
        AddressFamily::Ipv4Only => LookupIpStrategy::Ipv4Only,
        AddressFamily::Ipv6Only => LookupIpStrategy::Ipv6Only,
        AddressFamily::Any => LookupIpStrategy::Ipv4thenIpv6,
        _ => LookupIpStrategy::Ipv4AndIpv6,
    }
}

pub fn family_to_strategy(family: AddressFamily) -> (r: LookupIpStrategy)
    ensures
        r == strategy_of(family),
{
    match family {
        AddressFamily::Ipv4Only => LookupIpStrategy::Ipv4Only,
        AddressFamily::Ipv6Only => LookupIpStrategy::Ipv6Only,
        AddressFamily::Both => LookupIpStrategy::Ipv4AndIpv6,
        AddressFamily::Any => LookupIpStrategy::Ipv4thenIpv6,
        AddressFamily::UnknownAddressFamilyFromNewerClient => LookupIpStrategy::Ipv4AndIpv6,
    }
}

/// What a resolver is to be built with.
pub struct ResolverPlan {
    pub config: ResolverConfig,
    pub options: ResolverOpts,
    /// The hosts file, to be read once the resolver is built.
    pub hosts_conf: Vec<u8>,
}

/// The options of a resolver for `family`: servers are asked in the configured order.
pub open spec fn planned_options(options: OptionsView, family: AddressFamily) -> OptionsView {
    OptionsView { ip_strategy: strategy_of(family), server_order: ServerOrder::AsGiven, ..options }
}

/// Plans a resolver for `family`, given how its configuration was read.
pub fn plan_resolver(
    family: AddressFamily,
    parsed: Result<(ResolverConfig, ResolverOpts), IoErrorKind>,
    hosts_conf: Vec<u8>,
) -> (r: Result<ResolverPlan, LookupError>)
    ensures
        match parsed {
            Ok((config, options)) => r matches Ok(plan) && plan.config == config && options_of(
                plan.options,
            ) == planned_options(options_of(options), family) && plan.hosts_conf == hosts_conf,
            Err(kind) => r == Err::<ResolverPlan, LookupError>(
                LookupError::Resolve(NetError::Io(kind)),
            ),
        },
{
    match parsed {
        Ok((config, options)) => {
            let options = set_server_order(options, ServerOrder::AsGiven);
            let options = set_ip_strategy(options, family_to_strategy(family));
            Ok(ResolverPlan { config, options, hosts_conf })
        },
        Err(kind) => Err(LookupError::Resolve(NetError::Io(kind))),
    }
}

/// Plans a resolver for `family`, given what was read of the two configuration files. The
/// first of them that could not be read decides the error.
pub fn build_resolver(
    family: AddressFamily,
    resolv_conf: Result<Vec<u8>, IoErrorKind>,
    hosts_conf: Result<Vec<u8>, IoErrorKind>,
) -> (r: Result<ResolverPlan, LookupError>)
    ensures
        match (resolv_conf, hosts_conf) {
            (Err(kind), _) => r == Err::<ResolverPlan, LookupError>(
                LookupError::ReadConfiguration(kind),
            ),
            (Ok(_), Err(kind)) => r == Err::<ResolverPlan, LookupError>(
                LookupError::ReadConfiguration(kind),
            ),
            (Ok(conf), Ok(hosts)) => match parsed_resolv_conf(conf@) {
                Ok((servers, search, options)) => r matches Ok(plan) && server_ips(plan.config)
                    == servers && search_domains(plan.config) == search && options_of(plan.options)
                    == planned_options(options, family) && plan.hosts_conf == hosts,
                Err(text) => r matches Err(
                    LookupError::Resolve(NetError::Io(IoErrorKind::Other(kind))),
                ) && kind@ == text,
            },
        },
{
    let resolv_conf = match resolv_conf {
        Ok(conf) => conf,
        Err(kind) => {
            return Err(LookupError::ReadConfiguration(kind));
        },
    };
    let hosts_conf = match hosts_conf {
        Ok(conf) => conf,
        Err(kind) => {
            return Err(LookupError::ReadConfiguration(kind));
        },
    };
    plan_resolver(family, parse_servers(resolv_conf.as_slice()), hosts_conf)
}

/// The hosts of a resolver, given how its hosts file was read.
pub fn known_hosts(read: Result<Hosts, IoErrorKind>) -> (r: Result<Hosts, LookupError>)
    ensures
        r == match read {
            Ok(hosts) => Ok(hosts),
            Err(kind) => Err(LookupError::ReadConfiguration(kind)),
        },
{
    match read {
        Ok(hosts) => Ok(hosts),
        Err(kind) => Err(LookupError::ReadConfiguration(kind)),
    }
}

/// The hosts of a resolver, given whether it could be built.
pub fn resolver_hosts(built: Result<(), NetError>, hosts_conf: &Vec<u8>) -> (r: Result<
    Hosts,
    LookupError,
>)
    ensures
        match built {
            Err(error) => r == Err::<Hosts, LookupError>(LookupError::Resolve(error)),
            Ok(_) => match parsed_hosts(hosts_conf@) {
                Ok(table) => r matches Ok(hosts) && hosts_table(hosts) == table,
                Err(text) => r matches Err(LookupError::ReadConfiguration(IoErrorKind::Other(kind)))
                    && kind@ == text,
            },
        },
{
    match built {
        Ok(_) => known_hosts(read_hosts(hosts_conf.as_slice())),
        Err(error) => Err(LookupError::Resolve(error)),
    }
}

/// What to hand to the resolver.
pub enum LookupTarget {
    /// The text of an IP address. Addresses must not be made names first, because the
    /// resolver does not take a name for an address.
    Address(String),
    Name(Name),
}

/// What to hand to the resolver for a node that is not an IP address, given how it parses
/// as a name.
pub fn name_target(parsed: Result<Name, String>) -> (r: Result<LookupTarget, NetError>)
    ensures
        match parsed {
            Ok(name) => r == Ok::<LookupTarget, NetError>(LookupTarget::Name(name)),
            Err(text) => r matches Err(NetError::Msg(message)) && message@
                == "node name rejected by hickory: "@ + text@,
        },
{
    match parsed {
        Ok(name) => Ok(LookupTarget::Name(name)),
        Err(text) => Err(
            NetError::Msg(prefixed("node name rejected by hickory: ", text.as_str())),
        ),
    }
}

/// What to hand to the resolver for a node: its address, if it is one, or else the name
/// that it is, by relaxed parsing.
pub fn lookup_target(node: String) -> (r: Result<LookupTarget, NetError>)
    ensures
        is_ip_text(node@) ==> r == Ok::<LookupTarget, NetError>(LookupTarget::Address(node)),
        !is_ip_text(node@) ==> match relaxed_name(node@) {
            Ok(parts) => r matches Ok(LookupTarget::Name(name)) && name_parts(name) == parts,
            Err(text) => r matches Err(NetError::Msg(message)) && message@
                == "node name rejected by hickory: "@ + text,
        },
{
    if is_ip(node.as_str()) {
        Ok(LookupTarget::Address(node))
    } else {
        name_target(parse_relaxed(node.as_str()))
    }
}

/// A record of an answer: the name that it is for, and the address that it holds, if it
/// holds one.
#[derive(Debug, PartialEq, Eq)]
pub struct AnswerRecord {
    pub name: String,
    pub ip: Option<IpAddr>,
}

/// The records of an answer that hold an address.
pub open spec fn address_records(answers: Seq<AnswerRecord>) -> Seq<LookupRecordView>
    decreases answers.len(),
{
    if answers.len() == 0 {
        Seq::empty()
    } else {
        let before = address_records(answers.drop_last());
        match answers.last().ip {
            Some(ip) => before.push(LookupRecordView { name: answers.last().name@, ip }),
            None => before,
        }
    }
}

/// Keeps the records that hold an address, in order.
pub fn convert_lookup(answers: Vec<AnswerRecord>) -> (r: DnsLookup)
    ensures
        r@ == address_records(answers@),
{
    let mut records: Vec<LookupRecord> = Vec::new();
    let mut i: usize = 0;
    assert(records@.map_values(|r: LookupRecord| r@) =~= address_records(answers@.take(0)));
    while i < answers.len()
        invariant
            i <= answers@.len(),
            records@.map_values(|r: LookupRecord| r@) == address_records(answers@.take(i as int)),
        decreases answers@.len() - i,
    {
        let ghost before = records@.map_values(|r: LookupRecord| r@);
        assert(answers@.take(i + 1).drop_last() =~= answers@.take(i as int));
        if let Some(ip) = answers[i].ip {
            records.push(LookupRecord { name: answers[i].name.clone(), ip });
            assert(records@.map_values(|r: LookupRecord| r@) =~= before.push(
                LookupRecordView { name: answers@[i as int].name@, ip },
            ));
        }
        i = i + 1;
    }
    assert(answers@.take(answers@.len() as int) =~= answers@);
    DnsLookup(records)
}

/// The outcome of a lookup in the terms of the protocol. `None` is a lookup that took too
/// long.
pub fn do_lookup(outcome: Option<Result<Vec<AnswerRecord>, LookupError>>) -> (r: LookupResult)
    ensures
        result_view(r) == (match outcome {
            Some(Ok(answers)) => LookupResultView::Ok(address_records(answers@)),
            Some(Err(error)) => LookupResultView::Err(lookup_failure(error)),
            None => LookupResultView::Err(ResolveErrorView::Timeout),
        }),
{
    match outcome {
        Some(Ok(answers)) => Ok(convert_lookup(answers)),
        Some(Err(error)) => Err(lookup_error_to_protocol(error)),
        None => Err(ResolveErrorKindInternal::Timeout),
    }
}

/// Every record of the answer that holds an address is told to the client, and nothing
/// else is.
pub proof fn law_addresses_are_kept(answers: Seq<AnswerRecord>, record: LookupRecordView)
    ensures
        address_records(answers).contains(record) <==> exists|i: int|
            0 <= i < answers.len() && (#[trigger] answers[i]).name@ == record.name && answers[i].ip
                == Some(record.ip),
    decreases answers.len(),
{
    if answers.len() > 0 {
        let earlier = answers.drop_last();
        law_addresses_are_kept(earlier, record);
        let before = address_records(earlier);
        let all = address_records(answers);
        if before.contains(record) {
            let j = before.index_of(record);
            assert(all[j] == record);
            let i = choose|i: int|
                0 <= i < earlier.len() && (#[trigger] earlier[i]).name@ == record.name
                    && earlier[i].ip == Some(record.ip);
            assert(answers[i] == earlier[i]);
        } else {
            if all.contains(record) {
                let j = all.index_of(record);
                assert(j == before.len()) by {
                    if j < before.len() {
                        assert(before[j] == record);
                    }
                }
                assert(answers[answers.len() - 1].name@ == record.name);
            }
            if exists|i: int|
                0 <= i < answers.len() && (#[trigger] answers[i]).name@ == record.name
                    && answers[i].ip == Some(record.ip) {
                let i = choose|i: int|
                    0 <= i < answers.len() && (#[trigger] answers[i]).name@ == record.name
                        && answers[i].ip == Some(record.ip);
                if i < earlier.len() {
                    assert(earlier[i] == answers[i]);
                } else {
                    assert(all[all.len() - 1] == record);
                }
            }
        }
    }
}

/// Records are told in the order of the answer, each as often as it is in it: the records of
/// two answers in a row are those of the first and then those of the second, and a single
/// record is told exactly if it holds an address, with its own name and address.
pub proof fn law_records_keep_their_order(a: Seq<AnswerRecord>, b: Seq<AnswerRecord>)
    ensures
        address_records(a + b) == address_records(a) + address_records(b),
        a.len() == 1 ==> address_records(a) == match a[0].ip {
            Some(ip) => seq![LookupRecordView { name: a[0].name@, ip }],
            None => Seq::<LookupRecordView>::empty(),
        },
    decreases b.len(),
{
    if b.len() == 0 {
        assert(a + b =~= a);
        assert(address_records(a) + address_records(b) =~= address_records(a));
    } else {
        law_records_keep_their_order(a, b.drop_last());
        assert((a + b).drop_last() =~= a + b.drop_last());
        assert(address_records(a + b) =~= address_records(a) + address_records(b));
    }
    if a.len() == 1 {
        assert(a.drop_last() =~= Seq::empty());
        assert(address_records(a.drop_last()) =~= Seq::empty());
    }
}

/// What the client is told of a failure keeps what is known of it: texts and codes are passed
/// on whole, a time that ran out is told as such wherever it ran out, and an IO error means
/// the same whether a file or a server was read. Only what is not known is called unknown.
pub proof fn law_failures_keep_what_is_known(
    error: NetError,
    text: String,
    code: u16,
    kind: IoErrorKind,
)
    ensures
        net_failure(NetError::Message(text)) == ResolveErrorView::Message(text@),
        net_failure(NetError::Msg(text)) == ResolveErrorView::Message(text@),
        net_failure(NetError::ResponseCode(text)) == ResolveErrorView::Message(
            "DNS server error response: "@ + text@,
        ),
        net_failure(NetError::Proto(text)) == ResolveErrorView::Message("proto error: "@ + text@),
        net_failure(NetError::NoRecordsFound(code)) == ResolveErrorView::NoRecordsFound(code),
        lookup_failure(LookupError::Resolve(NetError::Io(kind))) == lookup_failure(
            LookupError::ReadConfiguration(kind),
        ),
        io_failure(IoErrorKindView::Other(text@)) == ResolveErrorView::Message(
            "io error: "@ + text@,
        ),
        lookup_failure(LookupError::ReadConfiguration(kind)) is Timeout <==> kind is TimedOut,
        lookup_failure(LookupError::ReadConfiguration(kind)) is NotFound <==> kind is NotFound,
        lookup_failure(LookupError::ReadConfiguration(kind)) is PermissionDenied <==> kind
            is PermissionDenied,
        lookup_failure(LookupError::Resolve(error)) is Timeout <==> error is Timeout || (error
            matches NetError::Io(k) && k is TimedOut),
        lookup_failure(LookupError::Resolve(error)) is NoConnections <==> error is NoConnections,
        lookup_failure(LookupError::Resolve(error)) is Unknown <==> error is Other,
{
}

/// Whether a lookup may bring IPv4 addresses.
pub open spec fn brings_v4(strategy: LookupIpStrategy) -> bool {
    !(strategy is Ipv6Only)
}

/// Whether a lookup may bring IPv6 addresses.
pub open spec fn brings_v6(strategy: LookupIpStrategy) -> bool {
    !(strategy is Ipv4Only)
}

/// A lookup brings addresses of the families that were asked for, and no others. Where any
/// will do, IPv6 is asked for only if there is no IPv4 address; where both are wanted, both
/// are asked for.
pub proof fn law_families_are_respected(family: AddressFamily, options: OptionsView)
    ensures
        ({
            let planned = planned_options(options, family);
            &&& brings_v4(planned.ip_strategy) <==> !(family is Ipv6Only)
            &&& brings_v6(planned.ip_strategy) <==> !(family is Ipv4Only)
            &&& planned.ip_strategy is Ipv4thenIpv6 <==> family is Any
            &&& family is Both ==> planned.ip_strategy is Ipv4AndIpv6
            &&& family is UnknownAddressFamilyFromNewerClient ==> planned.ip_strategy
                is Ipv4AndIpv6
        }),
{
}

/// The configuration of a resolver is kept, but for the families that are asked for and the
/// order of the servers, which is the configured one.
pub proof fn law_the_configuration_is_kept(family: AddressFamily, options: OptionsView)
    ensures
        ({
            let planned = planned_options(options, family);
            &&& planned.ndots == options.ndots
            &&& planned.timeout_secs == options.timeout_secs
            &&& planned.attempts == options.attempts
            &&& planned.edns0 == options.edns0
            &&& planned.server_order is AsGiven
        }),
{
}

/// What a lookup brought is told: all records that hold an address, in order, or the reason
/// why there are none; and a lookup that took too long is told as such.
pub proof fn law_the_outcome_of_a_lookup_is_told(
    outcome: Option<Result<Vec<AnswerRecord>, LookupError>>,
    r: LookupResult,
)
    requires
        call_ensures(do_lookup, (outcome,), r),
    ensures
        outcome is None ==> (r matches Err(kind) && kind@ is Timeout),
        r is Ok <==> (outcome matches Some(Ok(_))),
        outcome matches Some(Ok(answers)) ==> (forall|i: int|
            0 <= i < answers@.len() ==> (#[trigger] answers@[i]).ip is Some) ==> (r matches Ok(
            lookup,
        ) && lookup@.len() == answers@.len() && forall|i: int|
            0 <= i < answers@.len() ==> (#[trigger] lookup@[i]).name == answers@[i].name@ && Some(
                lookup@[i].ip,
            ) == answers@[i].ip),
        outcome matches Some(Err(LookupError::Resolve(NetError::Msg(text)))) ==> (r matches Err(
            kind,
        ) && kind@ == ResolveErrorView::Message(text@)),
        outcome matches Some(Err(LookupError::Resolve(NetError::NoRecordsFound(code)))) ==> (
        r matches Err(kind) && kind@ == ResolveErrorView::NoRecordsFound(code)),
{
    if let Some(Ok(answers)) = outcome {
        if forall|i: int| 0 <= i < answers@.len() ==> (#[trigger] answers@[i]).ip is Some {
            lemma_all_addresses(answers@);
        }
    }
}

proof fn lemma_all_addresses(answers: Seq<AnswerRecord>)
    requires
        forall|i: int| 0 <= i < answers.len() ==> (#[trigger] answers[i]).ip is Some,
    ensures
        address_records(answers).len() == answers.len(),
        forall|i: int|
            0 <= i < answers.len() ==> (#[trigger] address_records(answers)[i]).name
                == answers[i].name@ && Some(address_records(answers)[i].ip) == answers[i].ip,
    decreases answers.len(),
{
    if answers.len() > 0 {
        let earlier = answers.drop_last();
        assert forall|i: int| 0 <= i < earlier.len() implies (#[trigger] earlier[i]).ip is Some by {
            assert(earlier[i] == answers[i]);
        }
        lemma_all_addresses(earlier);
        assert(answers[answers.len() - 1].ip is Some);
        assert forall|i: int| 0 <= i < answers.len() implies (#[trigger] address_records(
            answers,
        )[i]).name == answers[i].name@ && Some(address_records(answers)[i].ip)
            == answers[i].ip by {
            if i < earlier.len() {
                assert(address_records(answers)[i] == address_records(earlier)[i]);
                assert(earlier[i] == answers[i]);
            }
        }
    }
}

/// What is looked up is the node of the request: an address stays the text that it is, and
/// anything else is the name that it reads as, or is refused with the reason.
pub proof fn law_the_node_is_looked_up(node: String, target: Result<LookupTarget, NetError>)
    requires
        call_ensures(lookup_target, (node,), target),
    ensures
        target matches Ok(LookupTarget::Address(text)) ==> is_ip_text(node@) && text@ == node@,
        target matches Ok(LookupTarget::Name(name)) ==> !is_ip_text(node@) && relaxed_name(node@)
            == Ok::<(Seq<Seq<u8>>, bool), Seq<char>>(name_parts(name)),
        target is Err <==> !is_ip_text(node@) && relaxed_name(node@) is Err,
        target matches Err(error) ==> net_failure(error) == ResolveErrorView::Message(
            "node name rejected by hickory: "@ + relaxed_name(node@)->Err_0,
        ),
{
}

/// A resolver asks the configured servers for the families of the request, and knows the
/// hosts of the file that was read. A file that could not be read is told by the error that it
/// was read with, the configuration before the hosts.
pub proof fn law_a_resolver_is_as_configured(
    family: AddressFamily,
    resolv_conf: Result<Vec<u8>, IoErrorKind>,
    hosts_conf: Result<Vec<u8>, IoErrorKind>,
    r: Result<ResolverPlan, LookupError>,
)
    requires
        call_ensures(build_resolver, (family, resolv_conf, hosts_conf), r),
    ensures
        r is Ok ==> resolv_conf is Ok && hosts_conf is Ok && parsed_resolv_conf(
            resolv_conf->Ok_0@,
        ) is Ok,
        resolv_conf is Ok && hosts_conf is Ok ==> (r is Ok <==> parsed_resolv_conf(
            resolv_conf->Ok_0@,
        ) is Ok),
        r matches Ok(plan) ==> plan.hosts_conf@ == hosts_conf->Ok_0@ && server_ips(plan.config)
            == parsed_resolv_conf(resolv_conf->Ok_0@)->Ok_0.0 && search_domains(plan.config)
            == parsed_resolv_conf(resolv_conf->Ok_0@)->Ok_0.1 && options_of(plan.options).ndots
            == parsed_resolv_conf(resolv_conf->Ok_0@)->Ok_0.2.ndots && (brings_v4(
            options_of(plan.options).ip_strategy,
        ) <==> !(family is Ipv6Only)) && (brings_v6(options_of(plan.options).ip_strategy)
            <==> !(family is Ipv4Only)),
        resolv_conf matches Err(kind) ==> r == Err::<ResolverPlan, LookupError>(
            LookupError::ReadConfiguration(kind),
        ),
        resolv_conf is Ok ==> (hosts_conf matches Err(kind) ==> r == Err::<
            ResolverPlan,
            LookupError,
        >(LookupError::ReadConfiguration(kind))),
{
    if let (Ok(conf), Ok(hosts)) = (resolv_conf, hosts_conf) {
        if let Ok((servers, search, options)) = parsed_resolv_conf(conf@) {
            law_families_are_respected(family, options);
            law_the_configuration_is_kept(family, options);
        }
    }
}

/// A resolver that was built has the hosts of its hosts file; one that was not has none, and
/// the error is told.
pub proof fn law_a_resolver_has_its_hosts(
    built: Result<(), NetError>,
    conf: Vec<u8>,
    r: Result<Hosts, LookupError>,
)
    requires
        call_ensures(resolver_hosts, (built, &conf), r),
    ensures
        r is Ok <==> built is Ok && parsed_hosts(conf@) is Ok,
        r matches Ok(hosts) ==> hosts_table(hosts) == parsed_hosts(conf@)->Ok_0,
        built matches Err(error) ==> r == Err::<Hosts, LookupError>(LookupError::Resolve(error)),
        built is Ok ==> (r matches Err(error) ==> error is ReadConfiguration),
{
}

} // verus!
