//! The check on lookups: a name that everyone knows, and the order of answers.

use crate::harness::{
    nothing, one, pass_line, passed, sent, Reason, ReasonView, Step, StepView,
};
use crate::protocol::{
    AddressFamily, ClientMessage, ClientMessageView, DaemonMessage, DaemonMessageView,
    GetAddrInfoRequestV2, GetAddrInfoRequestView, IpAddr, LookupRecord, LookupRecordView, SockType,
};
use vstd::prelude::*;

verus! {

/// What the check on lookups waits for.
#[derive(Debug, PartialEq, Eq)]
pub enum DnsCheck {
    /// The answer to the lookup of `localhost`.
    Localhost,
    /// The rest of the three answers; the first address of each that came already.
    Answers { got: Vec<Option<IpAddr>> },
}

pub enum DnsCheckView {
    Localhost,
    Answers(Seq<Option<IpAddr>>),
}

impl View for DnsCheck {
    type V = DnsCheckView;

    open spec fn view(&self) -> DnsCheckView {
        match self {
            DnsCheck::Localhost => DnsCheckView::Localhost,
            DnsCheck::Answers { got } => DnsCheckView::Answers(got@),
        }
    }
}

/// A request for the IPv4 addresses of a name.
pub open spec fn dns_request_of(node: Seq<char>) -> ClientMessageView {
    ClientMessageView::GetAddrInfoRequestV2(
        GetAddrInfoRequestView {
            node,
            service_port: 0,
            family: AddressFamily::Ipv4Only,
            socktype: SockType::Any,
            flags: 0,
            protocol: 0,
        },
    )
}

/// A request for the IPv4 addresses of a name.
pub fn dns_request(node: &str) -> (r: ClientMessage)
    ensures
        r@ == dns_request_of(node@),
{
    ClientMessage::GetAddrInfoRequestV2(
        GetAddrInfoRequestV2 {
            node: node.to_owned(),
            service_port: 0,
            family: AddressFamily::Ipv4Only,
            socktype: SockType::Any,
            flags: 0,
            protocol: 0,
        },
    )
}

/// Whether an address is one of the host itself: 127.0.0.0/8 or ::1.
pub open spec fn is_loopback(ip: IpAddr) -> bool {
    match ip {
        IpAddr::V4(ip) => 0x7f00_0000 <= ip <= 0x7fff_ffff,
        IpAddr::V6(ip) => ip == 1,
    }
}

fn loopback(ip: IpAddr) -> (r: bool)
    ensures
        r == is_loopback(ip),
{
    match ip {
        IpAddr::V4(ip) => 0x7f00_0000 <= ip && ip <= 0x7fff_ffff,
        IpAddr::V6(ip) => ip == 1,
    }
}

/// The addresses of some records.
pub open spec fn ips_of(records: Seq<LookupRecordView>) -> Seq<IpAddr> {
    records.map_values(|r: LookupRecordView| r.ip)
}

/// The first address of some records.
pub open spec fn first_ip_of(records: Seq<LookupRecordView>) -> Option<IpAddr> {
    if records.len() == 0 {
        None
    } else {
        Some(records[0].ip)
    }
}

/// The first addresses of the three answers: `ractor-test-one`, `ractor-test-two` and
/// `ractor-test-one` again, which are 127.0.0.11 and 127.0.0.12.
pub open spec fn expected_order() -> Seq<Option<IpAddr>> {
    seq![
        Some(IpAddr::V4(0x7f00_000b)),
        Some(IpAddr::V4(0x7f00_000c)),
        Some(IpAddr::V4(0x7f00_000b)),
    ]
}

/// How the check on lookups goes on after a message.
pub open spec fn dns_step(
    ordered_names: bool,
    at: DnsCheckView,
    message: DaemonMessageView,
) -> StepView<DnsCheckView> {
    match at {
        DnsCheckView::Localhost => match message {
            DaemonMessageView::GetAddrInfoResponse(Ok(records)) => if !exists|i: int|
                0 <= i < records.len() && is_loopback((#[trigger] records[i]).ip) {
                StepView::Fail {
                    check: "dns localhost"@,
                    reason: ReasonView::NoLoopback(ips_of(records)),
                }
            } else if ordered_names {
                StepView::Await {
                    passed: Some(pass_line("dns localhost"@)),
                    send: seq![
                        dns_request_of("ractor-test-one"@),
                        dns_request_of("ractor-test-two"@),
                        dns_request_of("ractor-test-one"@),
                    ],
                    next: DnsCheckView::Answers(Seq::empty()),
                }
            } else {
                StepView::Done { passed: pass_line("dns localhost"@), send: Seq::empty() }
            },
            DaemonMessageView::GetAddrInfoResponse(Err(error)) => StepView::Fail {
                check: "dns localhost"@,
                reason: ReasonView::Lookup(error),
            },
            _ => StepView::Fail {
                check: "dns localhost"@,
                reason: ReasonView::Unexpected(message),
            },
        },
        DnsCheckView::Answers(before) => match message {
            DaemonMessageView::GetAddrInfoResponse(Ok(records)) => {
                let got = before.push(first_ip_of(records));
                if got.len() < 3 {
                    StepView::Await {
                        passed: None,
                        send: Seq::empty(),
                        next: DnsCheckView::Answers(got),
                    }
                } else if got == expected_order() {
                    StepView::Done {
                        passed: pass_line("dns response ordering"@),
                        send: Seq::empty(),
                    }
                } else {
                    StepView::Fail {
                        check: "dns response ordering"@,
                        reason: ReasonView::Order(got),
                    }
                }
            },
            DaemonMessageView::GetAddrInfoResponse(Err(error)) => StepView::Fail {
                check: "dns ordering"@,
                reason: ReasonView::Lookup(error),
            },
            _ => StepView::Fail {
                check: "dns ordering"@,
                reason: ReasonView::Unexpected(message),
            },
        },
    }
}

/// Starts the check on lookups.
pub fn start_dns() -> (r: (Vec<ClientMessage>, DnsCheck))
    ensures
        sent(r.0@) == seq![dns_request_of("localhost"@)],
        r.1@ == DnsCheckView::Localhost,
{
    (one(dns_request("localhost")), DnsCheck::Localhost)
}

/// Judges a message in the check on lookups. The names of the second part are entries of
/// the hosts file, with an address of its own each.
pub fn dns(ordered_names: bool, at: DnsCheck, message: DaemonMessage) -> (r: Step<DnsCheck>)
    requires
        at@ matches DnsCheckView::Answers(got) ==> got.len() < 3,
    ensures
        r@ == dns_step(ordered_names, at@, message@),
{
    match (at, message) {
        (DnsCheck::Localhost, DaemonMessage::GetAddrInfoResponse(Ok(lookup))) => {
            let ips = addresses(&lookup.0);
            assert(ips@ =~= ips_of(lookup@));
            if !any_loopback(&lookup.0) {
                return Step::Fail { check: "dns localhost", reason: Reason::NoLoopback(ips) };
            }
            if !ordered_names {
                return Step::Done { passed: passed("dns localhost"), send: nothing() };
            }
            let mut send: Vec<ClientMessage> = Vec::new();
            send.push(dns_request("ractor-test-one"));
            send.push(dns_request("ractor-test-two"));
            send.push(dns_request("ractor-test-one"));
            assert(sent(send@) =~= seq![
                dns_request_of("ractor-test-one"@),
                dns_request_of("ractor-test-two"@),
                dns_request_of("ractor-test-one"@),
            ]);
            let got: Vec<Option<IpAddr>> = Vec::new();
            assert(got@ =~= Seq::empty());
            Step::Await {
                passed: Some(passed("dns localhost")),
                send,
                next: DnsCheck::Answers { got },
            }
        },
        (DnsCheck::Localhost, DaemonMessage::GetAddrInfoResponse(Err(error))) => Step::Fail {
            check: "dns localhost",
            reason: Reason::Lookup(error),
        },
        (DnsCheck::Localhost, other) => Step::Fail {
            check: "dns localhost",
            reason: Reason::Unexpected(other),
        },
        (DnsCheck::Answers { got }, DaemonMessage::GetAddrInfoResponse(Ok(lookup))) => {
            let mut got = got;
            let ghost before = got@;
            got.push(
                if lookup.0.len() == 0 {
                    None
                } else {
                    Some(lookup.0[0].ip)
                },
            );
            assert(got@ =~= before.push(first_ip_of(lookup@)));
            if got.len() < 3 {
                return Step::Await {
                    passed: None,
                    send: nothing(),
                    next: DnsCheck::Answers { got },
                };
            }
            if in_order(&got) {
                Step::Done { passed: passed("dns response ordering"), send: nothing() }
            } else {
                Step::Fail { check: "dns response ordering", reason: Reason::Order(got) }
            }
        },
        (DnsCheck::Answers { .. }, DaemonMessage::GetAddrInfoResponse(Err(error))) => Step::Fail {
            check: "dns ordering",
            reason: Reason::Lookup(error),
        },
        (DnsCheck::Answers { .. }, other) => Step::Fail {
            check: "dns ordering",
            reason: Reason::Unexpected(other),
        },
    }
}

fn addresses(records: &Vec<LookupRecord>) -> (r: Vec<IpAddr>)
    ensures
        r@ == ips_of(records@.map_values(|r: LookupRecord| r@)),
{
    let mut ips: Vec<IpAddr> = Vec::new();
    let mut i: usize = 0;
    while i < records.len()
        invariant
            i <= records.len(),
            ips@.len() == i,
            forall|j: int| 0 <= j < i ==> #[trigger] ips@[j] == records@[j].ip,
        decreases records.len() - i,
    {
        ips.push(records[i].ip);
        i = i + 1;
    }
    assert(ips@ =~= ips_of(records@.map_values(|r: LookupRecord| r@)));
    ips
}

fn any_loopback(records: &Vec<LookupRecord>) -> (r: bool)
    ensures
        ({
            let views = records@.map_values(|r: LookupRecord| r@);
            r == exists|i: int| 0 <= i < views.len() && is_loopback((#[trigger] views[i]).ip)
        }),
{
    let ghost views = records@.map_values(|r: LookupRecord| r@);
    let mut i: usize = 0;
    while i < records.len()
        invariant
            i <= records.len(),
            views == records@.map_values(|r: LookupRecord| r@),
            forall|j: int| 0 <= j < i ==> !is_loopback((#[trigger] views[j]).ip),
        decreases records.len() - i,
    {
        assert(views[i as int].ip == records@[i as int].ip);
        if loopback(records[i].ip) {
            return true;
        }
        i = i + 1;
    }
    false
}

fn is_v4(ip: &Option<IpAddr>, expected: u32) -> (r: bool)
    ensures
        r == (*ip == Some(IpAddr::V4(expected))),
{
    match ip {
        Some(IpAddr::V4(ip)) => *ip == expected,
        _ => false,
    }
}

fn in_order(got: &Vec<Option<IpAddr>>) -> (r: bool)
    requires
        got@.len() == 3,
    ensures
        r == (got@ == expected_order()),
{
    let r = is_v4(&got[0], 0x7f00_000b) && is_v4(&got[1], 0x7f00_000c) && is_v4(
        &got[2],
        0x7f00_000b,
    );
    proof {
        if r {
            assert(got@ =~= expected_order());
        } else if got@ == expected_order() {
            assert(got@[0] == expected_order()[0]);
            assert(got@[1] == expected_order()[1]);
            assert(got@[2] == expected_order()[2]);
        }
    }
    r
}

// ---------------------------------------------------------------------------------
// Laws
// ---------------------------------------------------------------------------------

/// An address of the host itself is one whose first byte is 127, or the last of the IPv6
/// ones that start with zeros only.
pub proof fn law_loopback_addresses(v4: u32, v6: u128)
    ensures
        is_loopback(IpAddr::V4(v4)) <==> v4 / 0x100_0000 == 127,
        is_loopback(IpAddr::V6(v6)) <==> v6 == 1,
{
}

/// The lookup of `localhost` goes through exactly if one of the records that it brings, at
/// any place, has an address of the host itself. Where it does not, all addresses are told.
pub proof fn law_localhost_is_this_host(ordered_names: bool, records: Seq<LookupRecordView>)
    ensures
        ({
            let step = dns_step(
                ordered_names,
                DnsCheckView::Localhost,
                DaemonMessageView::GetAddrInfoResponse(Ok(records)),
            );
            let here = exists|i: int|
                0 <= i < records.len() && is_loopback((#[trigger] records[i]).ip);
            &&& step is Fail <==> !here
            &&& step is Done <==> here && !ordered_names
            &&& step matches StepView::Fail { reason, .. } ==> {
                &&& reason matches ReasonView::NoLoopback(ips)
                &&& ips.len() == records.len()
                &&& forall|i: int| 0 <= i < records.len() ==> #[trigger] ips[i] == records[i].ip
            }
        }),
{
}

/// After the first lookup, one name is asked for, then another one, and then the first one
/// again; and the check passes exactly if the answers tell the address of the one, of the
/// other and of the one again. The answers tell that by their first records.
pub proof fn law_answers_come_in_order(
    ordered_names: bool,
    records: Seq<LookupRecordView>,
    a: Seq<LookupRecordView>,
    b: Seq<LookupRecordView>,
    c: Seq<LookupRecordView>,
)
    ensures
        dns_step(
            ordered_names,
            DnsCheckView::Localhost,
            DaemonMessageView::GetAddrInfoResponse(Ok(records)),
        ) matches StepView::Await { send, next, .. } ==> {
            &&& send.len() == 3
            &&& send[0] == send[2] && send[0] != send[1]
            &&& send[0] matches ClientMessageView::GetAddrInfoRequestV2(one)
            &&& one.node == "ractor-test-one"@ && one.family is Ipv4Only
            &&& send[1] matches ClientMessageView::GetAddrInfoRequestV2(two)
            &&& two.node == "ractor-test-two"@ && two.family is Ipv4Only
            &&& dns_step(
                ordered_names,
                next,
                DaemonMessageView::GetAddrInfoResponse(Ok(a)),
            ) matches StepView::Await { send: nothing_more, next: second, .. }
            &&& nothing_more.len() == 0
            &&& dns_step(
                ordered_names,
                second,
                DaemonMessageView::GetAddrInfoResponse(Ok(b)),
            ) matches StepView::Await { send: nothing_then, next: third, .. }
            &&& nothing_then.len() == 0
            &&& dns_step(
                ordered_names,
                third,
                DaemonMessageView::GetAddrInfoResponse(Ok(c)),
            ) is Done <==> {
                &&& a.len() > 0 && a[0].ip == IpAddr::V4(0x7f00_000b)
                &&& b.len() > 0 && b[0].ip == IpAddr::V4(0x7f00_000c)
                &&& c.len() > 0 && c[0].ip == IpAddr::V4(0x7f00_000b)
            }
            &&& dns_step(
                ordered_names,
                third,
                DaemonMessageView::GetAddrInfoResponse(Ok(c)),
            ) matches StepView::Fail { reason, .. } ==> (reason matches ReasonView::Order(got)
                && got =~= seq![first_ip_of(a), first_ip_of(b), first_ip_of(c)])
        },
{
    reveal_strlit("ractor-test-one");
    reveal_strlit("ractor-test-two");
    assert("ractor-test-one"@[12] != "ractor-test-two"@[12]);
    let got = seq![first_ip_of(a), first_ip_of(b), first_ip_of(c)];
    assert(Seq::<Option<IpAddr>>::empty().push(first_ip_of(a)).push(first_ip_of(b)).push(
        first_ip_of(c),
    ) =~= got);
    let order = expected_order();
    if got == order {
        assert(got[0] == order[0] && got[1] == order[1] && got[2] == order[2]);
    } else {
        assert(got[0] != order[0] || got[1] != order[1] || got[2] != order[2]);
    }
}

/// A lookup that failed is told by its error, and anything but an answer to a lookup is told
/// as it is.
pub proof fn law_failed_lookups_are_told(
    ordered_names: bool,
    at: DnsCheckView,
    message: DaemonMessageView,
)
    ensures
        message matches DaemonMessageView::GetAddrInfoResponse(Err(error)) ==> (dns_step(
            ordered_names,
            at,
            message,
        ) matches StepView::Fail { reason, .. } && reason == ReasonView::Lookup(error)),
        !(message is GetAddrInfoResponse) ==> (dns_step(ordered_names, at, message) matches
            StepView::Fail { reason, .. } && reason == ReasonView::Unexpected(message)),
{
}

/// A request asks for the IPv4 addresses of exactly the name that it was made for.
pub proof fn law_requests_ask_for_the_name(a: Seq<char>, b: Seq<char>)
    ensures
        dns_request_of(a) matches ClientMessageView::GetAddrInfoRequestV2(request) && request.node
            == a && request.family is Ipv4Only && request.service_port == 0 && request.socktype
            is Any && request.flags == 0 && request.protocol == 0,
        dns_request_of(a) == dns_request_of(b) <==> a == b,
{
}

/// The check on lookups begins with the lookup of `localhost`, and waits for its answer.
pub proof fn law_the_lookup_check_begins_with_localhost(start: (Vec<ClientMessage>, DnsCheck))
    requires
        call_ensures(start_dns, (), start),
    ensures
        start.0@.len() == 1,
        start.0@[0]@ matches ClientMessageView::GetAddrInfoRequestV2(request) && request.node
            == "localhost"@,
        start.1 is Localhost,
{
    assert(sent(start.0@).len() == start.0@.len());
    assert(sent(start.0@)[0] == start.0@[0]@);
}

/// Each part of the check is named in what is printed for it, and so is the one that failed.
pub proof fn law_lookup_steps_are_named(
    ordered_names: bool,
    got: Seq<Option<IpAddr>>,
    message: DaemonMessageView,
)
    requires
        got.len() < 3,
    ensures
        dns_step(ordered_names, DnsCheckView::Localhost, message) matches StepView::Await {
            passed,
            ..
        } ==> passed == Some(pass_line("dns localhost"@)),
        dns_step(ordered_names, DnsCheckView::Localhost, message) matches StepView::Done {
            passed,
            send,
        } ==> passed == pass_line("dns localhost"@) && send.len() == 0,
        dns_step(ordered_names, DnsCheckView::Localhost, message) matches StepView::Fail {
            check,
            ..
        } ==> check == "dns localhost"@,
        dns_step(ordered_names, DnsCheckView::Answers(got), message) matches StepView::Await {
            passed,
            ..
        } ==> passed is None,
        dns_step(ordered_names, DnsCheckView::Answers(got), message) matches StepView::Done {
            passed,
            send,
        } ==> passed == pass_line("dns response ordering"@) && send.len() == 0,
        dns_step(ordered_names, DnsCheckView::Answers(got), message) matches StepView::Fail {
            check,
            reason,
        } ==> check == if reason is Order {
            "dns response ordering"@
        } else {
            "dns ordering"@
        },
{
}

} // verus!
