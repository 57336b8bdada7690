//! The internal proxy, which forwards the connections of local layers to the agent: the
//! order in which it starts up, and what it makes of its options.

use crate::text::{decimal, law_decimals_are_read_back, numbered, unsigned_value};
use vstd::prelude::*;

verus! {

/// How many connections may wait to be accepted.
pub const LISTEN_BACKLOG: i32 = 1024;

/// How many files the proxy wants to have open. This is the limit on macOS, and the one on
/// Linux can be higher.
pub const FD_LIMIT: u64 = 12288;

/// The options of the proxy.
#[derive(Debug, PartialEq, Eq)]
pub struct ProxyConfig {
    /// The file to write logs to.
    pub log_destination: Option<String>,
    /// Which logs to write.
    pub log_level: Option<String>,
    /// How long to wait for the first connection, in seconds.
    pub start_idle_timeout: u64,
    /// How long to wait for another connection when there is none, in seconds.
    pub idle_timeout: u64,
}

/// The steps of the proxy.
#[derive(Debug, Clone, Copy, PartialEq, Eq)]
pub enum ProxyStage {
    /// Open the file for the logs, and write them there.
    OpenLogs,
    /// Raise the limit of open files.
    RaiseFdLimit,
    /// Load how to connect to the agent, if that is given.
    LoadConnectInfo,
    /// Create the listening socket.
    Listen,
    /// Connect to the agent.
    Connect,
    /// Tell the port that the proxy listens on.
    PrintPort,
    /// Detach from the terminal.
    DetachIo,
    /// Serve layers.
    Serve,
}

/// What follows a step.
#[derive(Debug, Clone, Copy, PartialEq, Eq)]
pub enum ProxyNext {
    Go(ProxyStage),
    /// Log a warning, and go on.
    Warn(ProxyStage),
    /// The proxy ends well.
    Done,
    /// The proxy fails with the error of the step.
    Fail,
}

/// The first step: logs are written only where a destination is given.
pub fn first_stage(config: &ProxyConfig) -> (r: ProxyStage)
    ensures
        r == if config.log_destination is Some {
            ProxyStage::OpenLogs
        } else {
            ProxyStage::RaiseFdLimit
        },
{
    if config.log_destination.is_some() {
        ProxyStage::OpenLogs
    } else {
        ProxyStage::RaiseFdLimit
    }
}

/// What follows a step that came out well, or not. Only the limit of open files may fail to
/// be raised. The port is told after the agent is connected, and the terminal is left after
/// the port was told.
pub open spec fn proxy_step(stage: ProxyStage, ok: bool) -> ProxyNext {
    if !ok {
        if stage is RaiseFdLimit {
            ProxyNext::Warn(ProxyStage::LoadConnectInfo)
        } else {
            ProxyNext::Fail
        }
    } else {
        match stage {
            ProxyStage::OpenLogs => ProxyNext::Go(ProxyStage::RaiseFdLimit),
            ProxyStage::RaiseFdLimit => ProxyNext::Go(ProxyStage::LoadConnectInfo),
            ProxyStage::LoadConnectInfo => ProxyNext::Go(ProxyStage::Listen),
            ProxyStage::Listen => ProxyNext::Go(ProxyStage::Connect),
            ProxyStage::Connect => ProxyNext::Go(ProxyStage::PrintPort),
            ProxyStage::PrintPort => ProxyNext::Go(ProxyStage::DetachIo),
            ProxyStage::DetachIo => ProxyNext::Go(ProxyStage::Serve),
            ProxyStage::Serve => ProxyNext::Done,
        }
    }
}

/// Decides what follows a step that came out well, or not.
pub fn proxy(stage: ProxyStage, ok: bool) -> (r: ProxyNext)
    ensures
        r == proxy_step(stage, ok),
{
    match (stage, ok) {
        (ProxyStage::RaiseFdLimit, false) => ProxyNext::Warn(ProxyStage::LoadConnectInfo),
        (_, false) => ProxyNext::Fail,
        (ProxyStage::OpenLogs, true) => ProxyNext::Go(ProxyStage::RaiseFdLimit),
        (ProxyStage::RaiseFdLimit, true) => ProxyNext::Go(ProxyStage::LoadConnectInfo),
        (ProxyStage::LoadConnectInfo, true) => ProxyNext::Go(ProxyStage::Listen),
        (ProxyStage::Listen, true) => ProxyNext::Go(ProxyStage::Connect),
        (ProxyStage::Connect, true) => ProxyNext::Go(ProxyStage::PrintPort),
        (ProxyStage::PrintPort, true) => ProxyNext::Go(ProxyStage::DetachIo),
        (ProxyStage::DetachIo, true) => ProxyNext::Go(ProxyStage::Serve),
        (ProxyStage::Serve, true) => ProxyNext::Done,
    }
}

/// What the proxy prints to tell its port.
pub fn port_text(port: u16) -> (r: String)
    ensures
        r@ == decimal(port as nat) + "\n\n"@,
{
    let r = numbered("", port as u128, "\n\n");
    proof {
        reveal_strlit("");
        assert(r@ =~= decimal(port as nat) + "\n\n"@);
    }
    r
}

/// The step that follows another one, if one does.
pub open spec fn following(stage: ProxyStage, ok: bool) -> Option<ProxyStage> {
    match proxy_step(stage, ok) {
        ProxyNext::Go(next) => Some(next),
        ProxyNext::Warn(next) => Some(next),
        ProxyNext::Done => None,
        ProxyNext::Fail => None,
    }
}

/// Whether some steps follow one another, with these outcomes.
pub open spec fn is_run(stages: Seq<ProxyStage>, outcomes: Seq<bool>) -> bool {
    &&& stages.len() == outcomes.len()
    &&& forall|i: int|
        0 <= i < stages.len() - 1 ==> #[trigger] following(stages[i], outcomes[i]) == Some(
            stages[i + 1],
        )
}

/// Whoever is told the port finds an agent behind it: right before, the listening socket was
/// created and the agent connected.
pub proof fn law_the_port_leads_to_an_agent(
    stages: Seq<ProxyStage>,
    outcomes: Seq<bool>,
    i: int,
)
    requires
        is_run(stages, outcomes),
        stages.len() > 0,
        stages[0] is OpenLogs || stages[0] is RaiseFdLimit,
        0 <= i < stages.len(),
        stages[i] is PrintPort,
    ensures
        i >= 2,
        stages[i - 2] is Listen && outcomes[i - 2],
        stages[i - 1] is Connect && outcomes[i - 1],
{
    assert(i >= 1);
    assert(following(stages[i - 1], outcomes[i - 1]) == Some(stages[i]));
    assert(stages[i - 1] is Connect);
    assert(i >= 2);
    assert(following(stages[i - 2], outcomes[i - 2]) == Some(stages[i - 1]));
}

/// The place of a step in the order in which the proxy starts up.
pub open spec fn place(stage: ProxyStage) -> int {
    match stage {
        ProxyStage::OpenLogs => 0,
        ProxyStage::RaiseFdLimit => 1,
        ProxyStage::LoadConnectInfo => 2,
        ProxyStage::Listen => 3,
        ProxyStage::Connect => 4,
        ProxyStage::PrintPort => 5,
        ProxyStage::DetachIo => 6,
        ProxyStage::Serve => 7,
    }
}

/// The steps are taken one after the other and none is left out: each that comes out well is
/// followed by the next in order, and the proxy is done after the last. A step that fails is
/// the end of the proxy, but for the limit of open files, of which it only warns.
pub proof fn law_steps_are_taken_in_order(stage: ProxyStage)
    ensures
        following(stage, true) matches Some(next) ==> place(next) == place(stage) + 1,
        following(stage, true) is None <==> stage is Serve,
        proxy_step(stage, true) is Done <==> stage is Serve,
        !(proxy_step(stage, true) is Fail) && !(proxy_step(stage, true) is Warn),
        !(stage is RaiseFdLimit) ==> proxy_step(stage, false) is Fail,
        stage is RaiseFdLimit ==> (proxy_step(stage, false) matches ProxyNext::Warn(next)
            && place(next) == place(stage) + 1),
{
}

/// Logs are opened first, exactly where there is somewhere to write them, and no other step is
/// ever left out.
pub proof fn law_logs_come_first(config: ProxyConfig, stage: ProxyStage)
    requires
        call_ensures(first_stage, (&config,), stage),
    ensures
        stage is OpenLogs <==> config.log_destination is Some,
        place(stage) <= 1,
{
}

/// The port that is printed is read back as the port that it is, before the two line breaks
/// that follow it.
pub proof fn law_the_port_is_told(port: u16, text: String)
    requires
        call_ensures(port_text, (port,), text),
    ensures
        text@.len() > 2,
        unsigned_value(text@.take(text@.len() - 2), u16::MAX as nat) == Some(port as nat),
        text@[text@.len() - 2] == '\n' && text@[text@.len() - 1] == '\n',
{
    reveal_strlit("\n\n");
    law_decimals_are_read_back(port as nat, u16::MAX as nat);
    assert(text@.take(text@.len() - 2) =~= decimal(port as nat));
}

} // verus!
