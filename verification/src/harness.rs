//! Functional verification of an agent's DNS and outgoing features.
//!
//! The harness speaks the protocol to the agent under test and judges its answers. Each
//! check is a conversation: it says what to send, and for every message that comes back
//! whether it is the right one and how to go on.

pub mod dns;
pub mod tcp;
pub mod udp;

use crate::budget::BudgetPermit;
use crate::client::{client_step, session_message, ClientActionView, ClientStateView};
use crate::harness::tcp::{tcp_echo_step, TcpEcho};
use crate::outgoing::conn::{conn_step, ConnActionView, ConnEvent, ConnMsgView, ConnState};
use crate::outgoing::router::{
    router_step, RouterActionView, RouterError, RouterMsgView, RouterView,
};
use crate::outgoing::{message_of, Transport};
use crate::protocol::{
    ClientMessage, ClientMessageView, ConnectionId, DaemonMessage, DaemonMessageView,
    DaemonOutgoingView, FileRequest, IpAddr, ResponseError, ResponseErrorView,
};
use crate::text::{decimal, law_numbers_have_their_own_text, numbered, same_text};
use crate::version::{Version, VersionView};
use vstd::prelude::*;

verus! {

/// How long to wait for a message of the agent, in seconds.
pub const RECV_TIMEOUT_SECS: u64 = 10;

/// Why a check failed.
#[derive(Debug, PartialEq, Eq)]
pub enum Reason {
    /// The agent sent the wrong message.
    Unexpected(DaemonMessage),
    /// A lookup failed.
    Lookup(ResponseError),
    /// A connection could not be made.
    Connect(ResponseError),
    /// None of the addresses is a loopback address.
    NoLoopback(Vec<IpAddr>),
    /// The first addresses of the answers are not the right ones.
    Order(Vec<Option<IpAddr>>),
}

pub enum ReasonView {
    Unexpected(DaemonMessageView),
    Lookup(ResponseErrorView),
    Connect(ResponseErrorView),
    NoLoopback(Seq<IpAddr>),
    Order(Seq<Option<IpAddr>>),
}

impl View for Reason {
    type V = ReasonView;

    open spec fn view(&self) -> ReasonView {
        match self {
            Reason::Unexpected(m) => ReasonView::Unexpected(m@),
            Reason::Lookup(e) => ReasonView::Lookup(e@),
            Reason::Connect(e) => ReasonView::Connect(e@),
            Reason::NoLoopback(ips) => ReasonView::NoLoopback(ips@),
            Reason::Order(got) => ReasonView::Order(got@),
        }
    }
}

/// How a check goes on.
#[derive(Debug, PartialEq, Eq)]
#[allow(inconsistent_fields)]
pub enum Step<S> {
    /// Print a line, if there is one, send some messages, and wait for the next message.
    Await { passed: Option<String>, send: Vec<ClientMessage>, next: S },
    /// Print a line, and send some messages; the check is passed.
    Done { passed: String, send: Vec<ClientMessage> },
    /// The check of this name failed.
    Fail { check: &'static str, reason: Reason },
}

#[allow(inconsistent_fields)]
pub enum StepView<V> {
    Await { passed: Option<Seq<char>>, send: Seq<ClientMessageView>, next: V },
    Done { passed: Seq<char>, send: Seq<ClientMessageView> },
    Fail { check: Seq<char>, reason: ReasonView },
}

/// What a list of client messages says.
pub open spec fn sent(messages: Seq<ClientMessage>) -> Seq<ClientMessageView> {
    messages.map_values(|m: ClientMessage| m@)
}

impl<S: View> View for Step<S> {
    type V = StepView<S::V>;

    open spec fn view(&self) -> StepView<S::V> {
        match self {
            Step::Await { passed, send, next } => StepView::Await {
                passed: match passed {
                    Some(line) => Some(line@),
                    None => None,
                },
                send: sent(send@),
                next: next@,
            },
            Step::Done { passed, send } => StepView::Done { passed: passed@, send: sent(send@) },
            Step::Fail { check, reason } => StepView::Fail { check: check@, reason: reason@ },
        }
    }
}

/// The line that says that a check is passed.
pub open spec fn pass_line(check: Seq<char>) -> Seq<char> {
    "PASS "@ + check
}

/// The line that says that a connection was made.
pub open spec fn connected_line(check: Seq<char>, id: ConnectionId) -> Seq<char> {
    "PASS "@ + check + " (id "@ + decimal(id as nat) + ")"@
}

pub(crate) fn passed(check: &str) -> (r: String)
    ensures
        r@ == pass_line(check@),
{
    let mut line = "PASS ".to_owned();
    line.append(check);
    line
}

pub(crate) fn passed_connect(check: &str, id: ConnectionId) -> (r: String)
    ensures
        r@ == connected_line(check@, id),
{
    let mut line = "PASS ".to_owned();
    line.append(check);
    let suffix = numbered(" (id ", id as u128, ")");
    line.append(suffix.as_str());
    assert(line@ =~= connected_line(check@, id));
    line
}

pub(crate) fn nothing() -> (r: Vec<ClientMessage>)
    ensures
        sent(r@) == Seq::<ClientMessageView>::empty(),
{
    let r: Vec<ClientMessage> = Vec::new();
    assert(sent(r@) =~= Seq::empty());
    r
}

pub(crate) fn one(message: ClientMessage) -> (r: Vec<ClientMessage>)
    ensures
        sent(r@) == seq![message@],
{
    let mut r: Vec<ClientMessage> = Vec::new();
    r.push(message);
    assert(sent(r@) =~= seq![message@]);
    r
}

// ---------------------------------------------------------------------------------
// Negotiation
// ---------------------------------------------------------------------------------

/// What the negotiation check waits for.
#[derive(Debug, Clone, Copy, PartialEq, Eq)]
pub enum Negotiation {
    Version,
    Pong,
}

impl View for Negotiation {
    type V = Negotiation;

    open spec fn view(&self) -> Negotiation {
        *self
    }
}

/// How the negotiation check goes on after a message.
pub open spec fn negotiation_step(at: Negotiation, message: DaemonMessageView) -> StepView<
    Negotiation,
> {
    match at {
        Negotiation::Version => if message is SwitchProtocolVersionResponse {
            StepView::Await {
                passed: Some(pass_line("protocol version negotiation"@)),
                send: seq![ClientMessageView::Ping],
                next: Negotiation::Pong,
            }
        } else {
            StepView::Fail {
                check: "protocol version negotiation"@,
                reason: ReasonView::Unexpected(message),
            }
        },
        Negotiation::Pong => if message is Pong {
            StepView::Done { passed: pass_line("ping/pong"@), send: Seq::empty() }
        } else {
            StepView::Fail { check: "ping/pong"@, reason: ReasonView::Unexpected(message) }
        },
    }
}

/// Starts the negotiation check, with this side's version of the protocol.
pub fn start_negotiation(version: &Version) -> (r: (Vec<ClientMessage>, Negotiation))
    ensures
        sent(r.0@) == seq![ClientMessageView::SwitchProtocolVersion(version@)],
        r.1 == Negotiation::Version,
{
    (one(ClientMessage::SwitchProtocolVersion(version.copy())), Negotiation::Version)
}

/// Judges a message in the negotiation check.
pub fn negotiation(at: Negotiation, message: DaemonMessage) -> (r: Step<Negotiation>)
    ensures
        r@ == negotiation_step(at, message@),
{
    match (at, message) {
        (Negotiation::Version, DaemonMessage::SwitchProtocolVersionResponse(_)) => Step::Await {
            passed: Some(passed("protocol version negotiation")),
            send: one(ClientMessage::Ping),
            next: Negotiation::Pong,
        },
        (Negotiation::Version, other) => Step::Fail {
            check: "protocol version negotiation",
            reason: Reason::Unexpected(other),
        },
        (Negotiation::Pong, DaemonMessage::Pong) => Step::Done {
            passed: passed("ping/pong"),
            send: nothing(),
        },
        (Negotiation::Pong, other) => Step::Fail {
            check: "ping/pong",
            reason: Reason::Unexpected(other),
        },
    }
}

// ---------------------------------------------------------------------------------
// Unsupported features
// ---------------------------------------------------------------------------------

/// The check for unsupported features waits for one message only.
#[derive(Debug, Clone, Copy, PartialEq, Eq)]
pub struct Unsupported;

impl View for Unsupported {
    type V = Unsupported;

    open spec fn view(&self) -> Unsupported {
        *self
    }
}

/// How the check for unsupported features goes on after a message: a feature that the agent
/// does not have is answered with `Close`.
pub open spec fn unsupported_step(message: DaemonMessageView) -> StepView<Unsupported> {
    if message is Close {
        StepView::Done {
            passed: pass_line("unsupported feature -> Close"@),
            send: Seq::empty(),
        }
    } else {
        StepView::Fail {
            check: "unsupported feature -> Close"@,
            reason: ReasonView::Unexpected(message),
        }
    }
}

/// Starts the check for unsupported features, on a session of its own.
pub fn start_unsupported_feature() -> (r: Vec<ClientMessage>)
    ensures
        sent(r@) == seq![ClientMessageView::OpenFile("/etc/hostname"@)],
{
    one(ClientMessage::FileRequest(FileRequest::Open { path: "/etc/hostname".to_owned() }))
}

/// Judges a message in the check for unsupported features.
pub fn unsupported_feature(message: DaemonMessage) -> (r: Step<Unsupported>)
    ensures
        r@ == unsupported_step(message@),
{
    match message {
        DaemonMessage::Close(_) => Step::Done {
            passed: passed("unsupported feature -> Close"),
            send: nothing(),
        },
        other => Step::Fail {
            check: "unsupported feature -> Close",
            reason: Reason::Unexpected(other),
        },
    }
}

// ---------------------------------------------------------------------------------
// All checks
// ---------------------------------------------------------------------------------

/// The checks.
#[derive(Debug, Clone, Copy, PartialEq, Eq)]
pub enum Check {
    Negotiation,
    Dns,
    TcpEcho,
    TcpV2AndClientClose,
    TcpLegacyOrdering,
    UdpEcho,
    UnsupportedFeature,
}

/// What the harness is asked to do.
#[derive(Debug, Clone, Copy, PartialEq, Eq)]
pub struct Options {
    /// The names that the check on the order of lookups needs can be resolved.
    pub ordered_names: bool,
    /// The agent under test lacks the features that this agent lacks.
    pub check_unsupported: bool,
}

/// Whether a flag is among the arguments.
pub open spec fn has_flag(flags: Seq<String>, flag: Seq<char>) -> bool {
    exists|i: int| 0 <= i < flags.len() && (#[trigger] flags[i])@ == flag
}

fn flag_given(flags: &Vec<String>, flag: &str) -> (r: bool)
    ensures
        r == has_flag(flags@, flag@),
{
    let mut i: usize = 0;
    while i < flags.len()
        invariant
            i <= flags.len(),
            forall|j: int| 0 <= j < i ==> (#[trigger] flags@[j])@ != flag@,
        decreases flags.len() - i,
    {
        if same_text(flags[i].as_str(), flag) {
            assert(flags@[i as int]@ == flag@);
            return true;
        }
        i = i + 1;
    }
    false
}

/// Reads the flags of the command line. Flags that are not known are passed over.
pub fn options(flags: &Vec<String>) -> (r: Options)
    ensures
        r.ordered_names == !has_flag(flags@, "--unordered-dns"@),
        r.check_unsupported == !has_flag(flags@, "--full-agent"@),
{
    Options {
        ordered_names: !flag_given(flags, "--unordered-dns"),
        check_unsupported: !flag_given(flags, "--full-agent"),
    }
}

/// What comes after a check that is passed.
#[derive(Debug, Clone, Copy, PartialEq, Eq)]
pub enum NextCheck {
    /// Another check on the same session.
    SameSession(Check),
    /// Close the session, and run another check on a new one.
    NewSession(Check),
    /// Close the session; everything is passed.
    CloseAndFinish,
    /// Everything is passed.
    Finish,
}

/// The check that follows a passed one.
pub open spec fn check_after(check: Check, options: Options) -> NextCheck {
    match check {
        Check::Negotiation => NextCheck::SameSession(Check::Dns),
        Check::Dns => NextCheck::SameSession(Check::TcpEcho),
        Check::TcpEcho => NextCheck::SameSession(Check::TcpV2AndClientClose),
        Check::TcpV2AndClientClose => NextCheck::SameSession(Check::TcpLegacyOrdering),
        Check::TcpLegacyOrdering => NextCheck::SameSession(Check::UdpEcho),
        Check::UdpEcho => if options.check_unsupported {
            NextCheck::NewSession(Check::UnsupportedFeature)
        } else {
            NextCheck::CloseAndFinish
        },
        Check::UnsupportedFeature => NextCheck::Finish,
    }
}

/// The check that follows a passed one.
pub fn next_check(check: Check, options: Options) -> (r: NextCheck)
    ensures
        r == check_after(check, options),
{
    match check {
        Check::Negotiation => NextCheck::SameSession(Check::Dns),
        Check::Dns => NextCheck::SameSession(Check::TcpEcho),
        Check::TcpEcho => NextCheck::SameSession(Check::TcpV2AndClientClose),
        Check::TcpV2AndClientClose => NextCheck::SameSession(Check::TcpLegacyOrdering),
        Check::TcpLegacyOrdering => NextCheck::SameSession(Check::UdpEcho),
        Check::UdpEcho => if options.check_unsupported {
            NextCheck::NewSession(Check::UnsupportedFeature)
        } else {
            NextCheck::CloseAndFinish
        },
        Check::UnsupportedFeature => NextCheck::Finish,
    }
}

// ---------------------------------------------------------------------------------
// Laws: what an agent that is built from this library makes of the checks
// ---------------------------------------------------------------------------------

/// The checks that are run from a check on, if all of them are passed.
pub open spec fn checks_from(check: Check, options: Options, limit: nat) -> Seq<Check>
    decreases limit,
{
    seq![check] + if limit == 0 {
        Seq::empty()
    } else {
        match check_after(check, options) {
            NextCheck::SameSession(next) => checks_from(next, options, (limit - 1) as nat),
            NextCheck::NewSession(next) => checks_from(next, options, (limit - 1) as nat),
            NextCheck::CloseAndFinish => Seq::empty(),
            NextCheck::Finish => Seq::empty(),
        }
    }
}

/// Every check is run once, in this order; only the check for unsupported features is left
/// out where it is not asked for.
pub proof fn law_every_check_is_run(options: Options, limit: nat)
    requires
        limit >= 6,
    ensures
        checks_from(Check::Negotiation, options, limit) == seq![
            Check::Negotiation,
            Check::Dns,
            Check::TcpEcho,
            Check::TcpV2AndClientClose,
            Check::TcpLegacyOrdering,
            Check::UdpEcho,
        ] + if options.check_unsupported {
            seq![Check::UnsupportedFeature]
        } else {
            Seq::empty()
        },
{
    reveal_with_fuel(checks_from, 8);
    assert(checks_from(Check::Negotiation, options, limit) =~= seq![
        Check::Negotiation,
        Check::Dns,
        Check::TcpEcho,
        Check::TcpV2AndClientClose,
        Check::TcpLegacyOrdering,
        Check::UdpEcho,
    ] + if options.check_unsupported {
        seq![Check::UnsupportedFeature]
    } else {
        Seq::empty()
    });
}

/// An agent answers the two requests of the negotiation check as the check wants them
/// answered.
pub proof fn law_the_agent_passes_the_negotiation(
    own: VersionView,
    s: ClientStateView,
    version: Version,
)
    ensures
        ({
            let request = ClientMessage::SwitchProtocolVersion(version);
            let (after, answer) = client_step(own, s, session_message(request)->0);
            let pong = client_step(own, after, session_message(ClientMessage::Ping)->0).1;
            &&& session_message(request) is Some && session_message(ClientMessage::Ping) is Some
            &&& answer.len() == 1 && pong.len() == 1
            &&& answer[0] matches ClientActionView::Send(m) && negotiation_step(
                Negotiation::Version,
                m,
            ) == (StepView::Await {
                passed: Some(pass_line("protocol version negotiation"@)),
                send: seq![ClientMessage::Ping@],
                next: Negotiation::Pong,
            })
            &&& pong[0] matches ClientActionView::Send(m) && negotiation_step(
                Negotiation::Pong,
                m,
            ) is Done
        }),
{
}

/// An agent answers the request of the check for unsupported features as the check wants it
/// answered.
pub proof fn law_the_agent_passes_the_unsupported_feature(
    own: VersionView,
    s: ClientStateView,
    request: FileRequest,
)
    ensures
        ({
            let message = ClientMessage::FileRequest(request);
            let actions = client_step(own, s, session_message(message)->0).1;
            &&& session_message(message) is Some
            &&& actions.len() == 1
            &&& actions[0] matches ClientActionView::Send(answer) && unsupported_step(answer)
                is Done
        }),
{
}

/// An established connection whose client shuts its side down, and whose peer then closes,
/// tells the client nothing but the `Close` that the echo check waits for.
pub proof fn law_a_shutdown_ends_in_close(s: ConnState)
    requires
        s.writable,
        s.reading,
    ensures
        ({
            let (s1, a1) = conn_step(
                Transport::Tcp,
                s,
                ConnEvent::Message(ConnMsgView::ShutdownWrite),
            );
            let (s2, a2) = conn_step(Transport::Tcp, s1, ConnEvent::WriteShutDown(Ok(())));
            let (s3, a3) = conn_step(
                Transport::Tcp,
                s2,
                ConnEvent::Message(ConnMsgView::PeerClosed),
            );
            let close = message_of(Transport::Tcp, DaemonOutgoingView::Close(s.id));
            &&& a1 == seq![ConnActionView::ShutdownPeer]
            &&& a2 == Seq::<ConnActionView>::empty()
            &&& a3 == seq![
                ConnActionView::AbortReader,
                ConnActionView::TrySend(close),
                ConnActionView::Stop("connection closed"@),
            ]
            &&& tcp_echo_step(TcpEcho::Close { id: s.id }, close) is Done
        }),
{
    let (s1, a1) = conn_step(Transport::Tcp, s, ConnEvent::Message(ConnMsgView::ShutdownWrite));
    let (s2, a2) = conn_step(Transport::Tcp, s1, ConnEvent::WriteShutDown(Ok(())));
    let (s3, a3) = conn_step(Transport::Tcp, s2, ConnEvent::Message(ConnMsgView::PeerClosed));
    let close = message_of(Transport::Tcp, DaemonOutgoingView::Close(s.id));
    assert(a3 =~= seq![
        ConnActionView::AbortReader,
        ConnActionView::TrySend(close),
        ConnActionView::Stop("connection closed"@),
    ]);
}

/// A close by the client is silent: the connection stops without a word, and what is
/// written to it afterwards is dropped, and what it reserved is given back.
pub proof fn law_a_close_by_the_client_is_silent(
    s: ConnState,
    router: RouterView,
    id: ConnectionId,
    data: Seq<u8>,
    budget: BudgetPermit,
)
    requires
        !router.conns.contains_key(id),
    ensures
        conn_step(Transport::Tcp, s, ConnEvent::Message(ConnMsgView::Close)).1 == seq![
            ConnActionView::Stop("closed by the client"@),
        ],
        router_step(
            Transport::Tcp,
            router,
            RouterMsgView::ForConn { id, message: ConnMsgView::Write(data, budget) },
        ) == (router, Ok::<RouterActionView, RouterError>(RouterActionView::Release(budget))),
{
}

/// The negotiation check goes through exactly if the version is answered with a version, and
/// the ping that follows with a pong. Anything else is told as it is.
pub proof fn law_the_negotiation_is_answered(
    at: Negotiation,
    first: DaemonMessageView,
    second: DaemonMessageView,
)
    ensures
        negotiation_step(Negotiation::Version, first) is Await <==> first
            is SwitchProtocolVersionResponse,
        negotiation_step(Negotiation::Version, first) matches StepView::Await { send, next, .. }
            ==> send =~= seq![ClientMessageView::Ping] && (negotiation_step(next, second) is Done
            <==> second == DaemonMessageView::Pong),
        negotiation_step(at, first) matches StepView::Fail { reason, .. } ==> reason
            == ReasonView::Unexpected(first),
        negotiation_step(at, first) is Done ==> at is Pong,
{
}

/// The check for unsupported features passes exactly if the agent ends the session.
pub proof fn law_unsupported_features_end_the_session(message: DaemonMessageView)
    ensures
        unsupported_step(message) is Done <==> (message matches DaemonMessageView::Close(_)),
        !(message is Close) ==> (unsupported_step(message) matches StepView::Fail { reason, .. }
            && reason == ReasonView::Unexpected(message)),
{
}

/// The lines that are printed tell checks and connections apart.
pub proof fn law_lines_tell_checks_apart(
    a: Seq<char>,
    b: Seq<char>,
    i: ConnectionId,
    j: ConnectionId,
)
    ensures
        pass_line(a) == pass_line(b) <==> a == b,
        connected_line(a, i) == connected_line(a, j) <==> i == j,
        connected_line(a, i) == connected_line(b, i) <==> a == b,
        pass_line(a).take("PASS "@.len() as int) == "PASS "@,
        connected_line(a, i).take(pass_line(a).len() as int) == pass_line(a),
{
    let n = "PASS "@.len() as int;
    assert(pass_line(a).skip(n) =~= a);
    assert(pass_line(b).skip(n) =~= b);
    assert(pass_line(a).take(n) =~= "PASS "@);
    assert(connected_line(a, i).take(pass_line(a).len() as int) =~= pass_line(a));
    let from = n + a.len() + " (id "@.len();
    let line_i = connected_line(a, i);
    let line_j = connected_line(a, j);
    assert(line_i.subrange(from, line_i.len() - ")"@.len()) =~= decimal(i as nat));
    assert(line_j.subrange(from, line_j.len() - ")"@.len()) =~= decimal(j as nat));
    law_numbers_have_their_own_text(i as nat, j as nat);
    if connected_line(a, i) == connected_line(b, i) {
        assert(a.len() == b.len());
        assert(connected_line(b, i).take(pass_line(b).len() as int) =~= pass_line(b));
    }
}

/// The two flags turn off what they are named for, wherever they stand among the others, and
/// no other flag turns anything off.
pub proof fn law_flags_turn_off_what_they_are_named_for(flags: Vec<String>, r: Options)
    requires
        call_ensures(options, (&flags,), r),
    ensures
        r.ordered_names <==> forall|i: int|
            0 <= i < flags@.len() ==> (#[trigger] flags@[i])@ != "--unordered-dns"@,
        r.check_unsupported <==> forall|i: int|
            0 <= i < flags@.len() ==> (#[trigger] flags@[i])@ != "--full-agent"@,
{
}

/// The first two checks begin with what they are about: the negotiation with this side's very
/// version, and the check for unsupported features with a file to open.
pub proof fn law_checks_begin_with_what_they_are_about(
    version: Version,
    negotiating: (Vec<ClientMessage>, Negotiation),
    unsupported: Vec<ClientMessage>,
)
    requires
        call_ensures(start_negotiation, (&version,), negotiating),
        call_ensures(start_unsupported_feature, (), unsupported),
    ensures
        negotiating.0@.len() == 1,
        negotiating.0@[0] matches ClientMessage::SwitchProtocolVersion(told) && told@ == version@,
        negotiating.1 is Version,
        unsupported@.len() == 1,
        unsupported@[0] matches ClientMessage::FileRequest(FileRequest::Open { path }) && path@
            == "/etc/hostname"@,
{
    assert(sent(negotiating.0@).len() == negotiating.0@.len());
    assert(sent(negotiating.0@)[0] == negotiating.0@[0]@);
    assert(sent(unsupported@).len() == unsupported@.len());
    assert(sent(unsupported@)[0] == unsupported@[0]@);
    lemma_file_request(negotiating.0@[0]);
    lemma_file_request(unsupported@[0]);
}

proof fn lemma_file_request(message: ClientMessage)
    ensures
        message@ is OpenFile ==> (message matches ClientMessage::FileRequest(
            FileRequest::Open { path },
        )),
        message is FileRequest ==> message@ is OpenFile || message@ is OtherFileRequest,
{
    if let ClientMessage::FileRequest(request) = message {
        match request {
            FileRequest::Open { .. } => {},
            FileRequest::Other => {},
        }
    }
}

/// The first six checks share one session; the check for unsupported features ends its
/// session, so it has one of its own. The shared one is closed after the last check on it.
pub proof fn law_sessions_are_shared_and_closed(check: Check, options: Options)
    ensures
        check is UnsupportedFeature <==> check_after(check, options) is Finish,
        check is UdpEcho <==> check_after(check, options) is NewSession || check_after(
            check,
            options,
        ) is CloseAndFinish,
        check_after(check, options) is NewSession ==> options.check_unsupported && check_after(
            check,
            options,
        ) == NextCheck::NewSession(Check::UnsupportedFeature),
        check_after(check, options) is CloseAndFinish ==> !options.check_unsupported,
{
}

/// What is printed for a check names it, and what is printed for a connection names its ID;
/// a check that fails is named too.
pub proof fn law_checks_are_named(
    check: Seq<char>,
    id: ConnectionId,
    message: DaemonMessageView,
)
    ensures
        pass_line(check) == "PASS "@ + check,
        connected_line(check, id) == "PASS "@ + check + " (id "@ + decimal(id as nat) + ")"@,
        negotiation_step(Negotiation::Version, message) matches StepView::Await { passed, .. }
            ==> passed == Some("PASS "@ + "protocol version negotiation"@),
        negotiation_step(Negotiation::Pong, message) matches StepView::Done { passed, send }
            ==> passed == "PASS "@ + "ping/pong"@ && send.len() == 0,
        negotiation_step(Negotiation::Version, message) matches StepView::Fail { check: named, .. }
            ==> named == "protocol version negotiation"@,
        negotiation_step(Negotiation::Pong, message) matches StepView::Fail { check: named, .. }
            ==> named == "ping/pong"@,
        unsupported_step(message) matches StepView::Done { passed, send } ==> passed == "PASS "@
            + "unsupported feature -> Close"@ && send.len() == 0,
        unsupported_step(message) matches StepView::Fail { check: named, .. } ==> named
            == "unsupported feature -> Close"@,
{
}

} // verus!
