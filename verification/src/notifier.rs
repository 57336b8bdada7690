//! Serves the system calls that a filter hands over: notifications go out to whoever
//! decides on them, and their decisions come back as answers.
//!
//! Decisions travel in a channel that can only be waited on by blocking. A semaphore that
//! can be polled goes with it: every decision adds a permit before it is sent, and a
//! decision is received only after a permit was taken.

pub mod addfd;

use crate::fd_share::{Errno, RawFd};
use crate::notifier::addfd::{ScmpNotifAddfd, O_CLOEXEC, SECCOMP_ADDFD_FLAG_SEND};
use vstd::prelude::*;

verus! {

/// How many notifications and decisions may be under way.
pub const CONTROL_CHANNEL_CAPACITY: usize = 512;

/// Marks the semaphore among the polled descriptors.
pub const EPOLL_SEMAPHORE_DATA: u64 = 1;

/// Marks the source of notifications among the polled descriptors.
pub const EPOLL_SECCOMP_UNOTIFY_DATA: u64 = 2;

/// What is to become of a system call.
#[derive(Debug, Clone, Copy, PartialEq, Eq)]
pub enum ActionInner {
    /// It is executed as it is.
    LetThrough,
    /// It returns a copy of this descriptor.
    ReturnFd(RawFd),
    ReturnValue(i64),
    /// It fails with this error.
    ReturnError(Errno),
}

/// A decision: the notification that it is on, and what it says.
#[derive(Debug, Clone, Copy, PartialEq, Eq)]
pub struct Action {
    /// The ID of the notification.
    pub notification: u64,
    pub action: ActionInner,
}

/// Why a notifier stopped.
#[derive(Debug, PartialEq, Eq)]
pub enum Error {
    /// Receiving a notification failed, with this text.
    SeccompRecv(String),
    /// The semaphore failed.
    Semaphore(Errno),
    /// Polling failed.
    Epoll(Errno),
    /// A decision could not be sent: the notifier is gone.
    ActionSend,
}

/// Whether a notifier goes on.
#[derive(Debug, PartialEq, Eq)]
pub enum Flow {
    Continue,
    Break(Result<(), Error>),
}

/// What a polled descriptor is ready for.
#[derive(Debug, Clone, Copy, PartialEq, Eq)]
pub struct Readiness {
    pub readable: bool,
    pub error: bool,
    pub hung_up: bool,
}

/// An answer to a notification.
#[derive(Debug, Clone, Copy, PartialEq, Eq)]
#[allow(inconsistent_fields)]
pub enum Response {
    /// The system call is executed.
    Continue { id: u64 },
    /// The system call returns `value`.
    Value { id: u64, value: i64 },
    /// The system call fails; `error` is the negated number of the error.
    Error { id: u64, error: i32 },
    /// The system call returns a new descriptor.
    AddFd(ScmpNotifAddfd),
}

/// The number of an error, as the kernel takes it.
pub open spec fn negated(error: Errno) -> i32 {
    (-error) as i32
}

/// The answer that a decision makes.
pub open spec fn response_to(action: Action) -> Response {
    match action.action {
        ActionInner::LetThrough => Response::Continue { id: action.notification },
        ActionInner::ReturnFd(fd) => Response::AddFd(
            ScmpNotifAddfd {
                id: action.notification,
                flags: SECCOMP_ADDFD_FLAG_SEND,
                srcfd: fd,
                newfd: None,
                newfd_flags: O_CLOEXEC,
            },
        ),
        ActionInner::ReturnValue(value) => Response::Value { id: action.notification, value },
        ActionInner::ReturnError(error) => Response::Error {
            id: action.notification,
            error: negated(error),
        },
    }
}

/// The answer that a decision makes.
pub fn respond_to(action: Action) -> (r: Response)
    requires
        action.action matches ActionInner::ReturnError(error) ==> error > 0,
    ensures
        r == response_to(action),
{
    let id: u64 = action.notification;
    match action.action {
        ActionInner::LetThrough => Response::Continue { id },
        ActionInner::ReturnFd(fd) => Response::AddFd(
            ScmpNotifAddfd::new(id, fd, None, true, true),
        ),
        ActionInner::ReturnValue(value) => Response::Value { id, value },
        ActionInner::ReturnError(error) => Response::Error { id, error: -error },
    }
}

/// The outcome of trying to take a permit.
#[derive(Debug, Clone, Copy, PartialEq, Eq)]
pub enum Permit {
    Taken,
    /// There is none.
    Unavailable,
    Failed(Errno),
}

/// What happens while decisions are handled.
#[derive(Debug, Clone, Copy, PartialEq, Eq)]
pub enum SemaphoreEvent {
    /// The semaphore is ready.
    Ready(Readiness),
    /// It was tried to take a permit.
    Permit(Permit),
    /// A decision was received, or the channel is closed and empty.
    Received(Option<Action>),
    /// An answer was given. Whether it arrived makes no difference.
    Responded,
}

/// What is done next while decisions are handled.
#[derive(Debug, PartialEq, Eq)]
pub enum SemaphoreStep {
    TakePermit,
    /// Receive a decision.
    Receive,
    /// Give an answer.
    Respond(Response),
    /// All that could be done is done.
    Done(Flow),
}

/// What is done when something happens while decisions are handled. A decision is received
/// for each permit, until there is no permit left.
pub open spec fn semaphore_step(event: SemaphoreEvent) -> SemaphoreStep {
    match event {
        SemaphoreEvent::Ready(ready) => if ready.readable {
            SemaphoreStep::TakePermit
        } else {
            SemaphoreStep::Done(Flow::Continue)
        },
        SemaphoreEvent::Permit(Permit::Taken) => SemaphoreStep::Receive,
        SemaphoreEvent::Permit(Permit::Unavailable) => SemaphoreStep::Done(Flow::Continue),
        SemaphoreEvent::Permit(Permit::Failed(errno)) => SemaphoreStep::Done(
            Flow::Break(Err(Error::Semaphore(errno))),
        ),
        SemaphoreEvent::Received(Some(action)) => SemaphoreStep::Respond(response_to(action)),
        SemaphoreEvent::Received(None) => SemaphoreStep::Done(Flow::Break(Ok(()))),
        SemaphoreEvent::Responded => SemaphoreStep::TakePermit,
    }
}

/// The outcome of receiving a notification.
#[derive(Debug, PartialEq, Eq)]
pub enum Reception {
    Received,
    /// The notification is gone: the process was killed meanwhile.
    Gone,
    /// Receiving failed, with this text.
    Failed(String),
}

/// What happens while a notification is handled.
#[derive(Debug, PartialEq, Eq)]
pub enum UnotifyEvent {
    /// The source of notifications is ready.
    Ready(Readiness),
    Reception(Reception),
    /// The notification was passed on, or there is nobody left to take it.
    Forwarded(bool),
}

/// What is done next while a notification is handled.
#[derive(Debug, PartialEq, Eq)]
pub enum UnotifyStep {
    /// Receive a notification.
    Receive,
    /// Pass the notification on.
    Forward,
    /// All that could be done is done.
    Done(Flow),
}

/// What is done when something happens while a notification is handled.
pub open spec fn unotify_step(event: UnotifyEvent) -> UnotifyStep {
    match event {
        UnotifyEvent::Ready(ready) => if ready.hung_up {
            UnotifyStep::Done(Flow::Break(Ok(())))
        } else if ready.readable {
            UnotifyStep::Receive
        } else {
            UnotifyStep::Done(Flow::Continue)
        },
        UnotifyEvent::Reception(Reception::Received) => UnotifyStep::Forward,
        UnotifyEvent::Reception(Reception::Gone) => UnotifyStep::Done(Flow::Continue),
        UnotifyEvent::Reception(Reception::Failed(text)) => UnotifyStep::Done(
            Flow::Break(Err(Error::SeccompRecv(text))),
        ),
        UnotifyEvent::Forwarded(taken) => UnotifyStep::Done(
            if taken {
                Flow::Continue
            } else {
                Flow::Break(Ok(()))
            },
        ),
    }
}

/// The polled descriptor that is to be handled.
#[derive(Debug, Clone, Copy, PartialEq, Eq)]
pub enum Source {
    SeccompUnotify,
    Semaphore,
}

/// The outcome of polling: the descriptors that are ready, by their marks.
#[derive(Debug, PartialEq, Eq)]
pub enum Polled {
    Ready(Vec<(u64, Readiness)>),
    /// Polling was interrupted.
    Interrupted,
    Failed(Errno),
}

/// A descriptor to poll: what it is, its mark, and what it is polled for besides errors.
#[derive(Debug, Clone, Copy, PartialEq, Eq)]
pub struct Registration {
    pub source: Source,
    pub mark: u64,
    pub hung_up: bool,
    pub readable: bool,
}

/// One round of a notifier: the ready descriptors that are still to be handled.
#[derive(Debug)]
pub struct Tick {
    pub ready: Vec<(u64, Readiness)>,
    pub handled: usize,
}

/// What is done next in a round.
#[derive(Debug, PartialEq, Eq)]
pub enum TickStep {
    Handle(Source, Readiness),
    /// The round is over.
    Done(Flow),
}

/// Whether all marks are ones that a notifier gave out.
pub open spec fn marks_known(ready: Seq<(u64, Readiness)>) -> bool {
    forall|i: int|
        0 <= i < ready.len() ==> (#[trigger] ready[i]).0 == EPOLL_SEMAPHORE_DATA || ready[i].0
            == EPOLL_SECCOMP_UNOTIFY_DATA
}

/// The descriptor that a mark stands for.
pub open spec fn source_of(mark: u64) -> Source {
    if mark == EPOLL_SECCOMP_UNOTIFY_DATA {
        Source::SeccompUnotify
    } else {
        Source::Semaphore
    }
}

impl Tick {
    pub open spec fn well_formed(self) -> bool {
        self.handled <= self.ready@.len() && marks_known(self.ready@)
    }

}

/// What is done next in a round in which `handled` of the ready descriptors were handled, the
/// last of them with the outcome `flow`, and how many are handled then. Descriptors are
/// handled in order; the first that ends the notifier ends the round.
pub open spec fn tick_step(ready: Seq<(u64, Readiness)>, handled: int, flow: Flow) -> (
    TickStep,
    int,
) {
    match flow {
        Flow::Break(outcome) => (TickStep::Done(Flow::Break(outcome)), handled),
        Flow::Continue => if handled < ready.len() {
            (TickStep::Handle(source_of(ready[handled].0), ready[handled].1), handled + 1)
        } else {
            (TickStep::Done(Flow::Continue), handled)
        },
    }
}

/// Whether a notifier is done after a round with this outcome, and with what outcome then.
pub open spec fn run_step(flow: Flow) -> Option<Result<(), Error>> {
    match flow {
        Flow::Continue => None,
        Flow::Break(outcome) => Some(outcome),
    }
}

/// Serves notifications and decisions.
pub struct Notifier;

impl Notifier {
    /// The descriptors that a notifier polls.
    pub fn new() -> (r: (Registration, Registration))
        ensures
            r.0 == (Registration {
                source: Source::Semaphore,
                mark: EPOLL_SEMAPHORE_DATA,
                hung_up: false,
                readable: true,
            }),
            r.1 == (Registration {
                source: Source::SeccompUnotify,
                mark: EPOLL_SECCOMP_UNOTIFY_DATA,
                hung_up: true,
                readable: true,
            }),
            source_of(r.0.mark) == r.0.source,
            source_of(r.1.mark) == r.1.source,
    {
        (
            Registration {
                source: Source::Semaphore,
                mark: EPOLL_SEMAPHORE_DATA,
                hung_up: false,
                readable: true,
            },
            Registration {
                source: Source::SeccompUnotify,
                mark: EPOLL_SECCOMP_UNOTIFY_DATA,
                hung_up: true,
                readable: true,
            },
        )
    }

    pub fn handle_semaphore_ready(event: SemaphoreEvent) -> (r: SemaphoreStep)
        requires
            event matches SemaphoreEvent::Ready(ready) ==> !ready.error,
            event matches SemaphoreEvent::Received(Some(action)) ==> (action.action matches
                ActionInner::ReturnError(error) ==> error > 0),
        ensures
            r == semaphore_step(event),
    {
        match event {
            SemaphoreEvent::Ready(ready) => {
                if !ready.readable {
                    return SemaphoreStep::Done(Flow::Continue);
                }
                SemaphoreStep::TakePermit
            },
            SemaphoreEvent::Permit(Permit::Taken) => SemaphoreStep::Receive,
            SemaphoreEvent::Permit(Permit::Unavailable) => SemaphoreStep::Done(Flow::Continue),
            SemaphoreEvent::Permit(Permit::Failed(errno)) => SemaphoreStep::Done(
                Flow::Break(Err(Error::Semaphore(errno))),
            ),
            SemaphoreEvent::Received(Some(action)) => SemaphoreStep::Respond(respond_to(action)),
            SemaphoreEvent::Received(None) => SemaphoreStep::Done(Flow::Break(Ok(()))),
            SemaphoreEvent::Responded => SemaphoreStep::TakePermit,
        }
    }

    pub fn handle_seccomp_unotify_ready(event: UnotifyEvent) -> (r: UnotifyStep)
        ensures
            r == unotify_step(event),
    {
        match event {
            UnotifyEvent::Ready(ready) => {
                if ready.hung_up {
                    return UnotifyStep::Done(Flow::Break(Ok(())));
                }
                if !ready.readable {
                    return UnotifyStep::Done(Flow::Continue);
                }
                UnotifyStep::Receive
            },
            UnotifyEvent::Reception(Reception::Received) => UnotifyStep::Forward,
            UnotifyEvent::Reception(Reception::Gone) => UnotifyStep::Done(Flow::Continue),
            UnotifyEvent::Reception(Reception::Failed(text)) => UnotifyStep::Done(
                Flow::Break(Err(Error::SeccompRecv(text))),
            ),
            UnotifyEvent::Forwarded(taken) => if taken {
                UnotifyStep::Done(Flow::Continue)
            } else {
                UnotifyStep::Done(Flow::Break(Ok(())))
            },
        }
    }

    /// Starts a round with the outcome of polling.
    pub fn tick(polled: Polled) -> (r: Result<Tick, Flow>)
        requires
            polled matches Polled::Ready(ready) ==> marks_known(ready@),
        ensures
            match polled {
                Polled::Ready(ready) => r matches Ok(tick) && tick.ready == ready && tick.handled
                    == 0 && tick.well_formed(),
                Polled::Interrupted => r == Err::<Tick, Flow>(Flow::Continue),
                Polled::Failed(errno) => r == Err::<Tick, Flow>(
                    Flow::Break(Err(Error::Epoll(errno))),
                ),
            },
    {
        match polled {
            Polled::Ready(ready) => Ok(Tick { ready, handled: 0 }),
            Polled::Interrupted => Err(Flow::Continue),
            Polled::Failed(errno) => Err(Flow::Break(Err(Error::Epoll(errno)))),
        }
    }

    /// Whether a notifier is done after a round, and with what outcome.
    pub fn run(flow: Flow) -> (r: Option<Result<(), Error>>)
        ensures
            r == run_step(flow),
    {
        match flow {
            Flow::Continue => None,
            Flow::Break(outcome) => Some(outcome),
        }
    }
}

impl Tick {
    /// Decides what is done next, after what was last handled came out as `flow`. The round
    /// is over at the first thing that ends the notifier.
    pub fn proceed(&mut self, flow: Flow) -> (r: TickStep)
        requires
            old(self).well_formed(),
        ensures
            final(self).well_formed(),
            final(self).ready == old(self).ready,
            r == tick_step(old(self).ready@, old(self).handled as int, flow).0,
            final(self).handled == tick_step(old(self).ready@, old(self).handled as int, flow).1,
    {
        if let Flow::Break(outcome) = flow {
            return TickStep::Done(Flow::Break(outcome));
        }
        if self.handled < self.ready.len() {
            let (mark, readiness) = self.ready[self.handled];
            self.handled = self.handled + 1;
            let source = if mark == EPOLL_SECCOMP_UNOTIFY_DATA {
                Source::SeccompUnotify
            } else {
                Source::Semaphore
            };
            TickStep::Handle(source, readiness)
        } else {
            TickStep::Done(Flow::Continue)
        }
    }
}

/// What happens while a decision is sent.
#[derive(Debug, Clone, Copy, PartialEq, Eq)]
pub enum RespondEvent {
    /// A notification was decided on.
    Decided(Action),
    /// A permit was added for the decision, or that failed.
    PermitAdded(Action, Result<(), Errno>),
    /// The decision was sent, or the notifier is gone.
    Sent(bool),
}

/// What is done next to send a decision.
#[derive(Debug, PartialEq, Eq)]
pub enum RespondStep {
    AddPermit(Action),
    Send(Action),
    Done(Result<(), Error>),
}

/// The end of a notifier that decisions come from.
pub struct NotifierHandle;

impl NotifierHandle {
    /// Decides what is done next to send a decision: a permit comes before the decision.
    pub fn respond(event: RespondEvent) -> (r: RespondStep)
        ensures
            match event {
                RespondEvent::Decided(action) => r == RespondStep::AddPermit(action),
                RespondEvent::PermitAdded(action, Ok(_)) => r == RespondStep::Send(action),
                RespondEvent::PermitAdded(_, Err(errno)) => r == RespondStep::Done(
                    Err(Error::Semaphore(errno)),
                ),
                RespondEvent::Sent(true) => r matches RespondStep::Done(Ok(_)),
                RespondEvent::Sent(false) => r == RespondStep::Done(Err(Error::ActionSend)),
            },
    {
        match event {
            RespondEvent::Decided(action) => RespondStep::AddPermit(action),
            RespondEvent::PermitAdded(action, Ok(_)) => RespondStep::Send(action),
            RespondEvent::PermitAdded(_, Err(errno)) => RespondStep::Done(
                Err(Error::Semaphore(errno)),
            ),
            RespondEvent::Sent(sent) => if sent {
                RespondStep::Done(Ok(()))
            } else {
                RespondStep::Done(Err(Error::ActionSend))
            },
        }
    }
}

// ---------------------------------------------------------------------------------
// Laws
// ---------------------------------------------------------------------------------

/// Every notification is answered under its own ID.
pub proof fn law_answers_carry_the_id(action: Action)
    ensures
        match response_to(action) {
            Response::Continue { id } => id == action.notification,
            Response::Value { id, .. } => id == action.notification,
            Response::Error { id, .. } => id == action.notification,
            Response::AddFd(addfd) => addfd.id == action.notification,
        },
{
}

/// The semaphore and the channel that decisions travel in.
pub struct Decisions {
    /// The permits in the semaphore.
    pub permits: nat,
    /// The decisions in the channel.
    pub queued: nat,
    /// A permit was added for a decision that is not sent yet.
    pub sending: bool,
    /// A permit was taken for a decision that is not received yet.
    pub receiving: bool,
    /// The handle is gone, and with it the sending end of the channel.
    pub closed: bool,
}

/// What is done to the semaphore and the channel.
pub enum DecisionsOp {
    /// On [`RespondStep::AddPermit`].
    AddPermit,
    /// On [`RespondStep::Send`].
    Send,
    /// On [`SemaphoreStep::TakePermit`], if there is a permit.
    TakePermit,
    /// On [`SemaphoreStep::Receive`], if there is a decision.
    Receive,
    /// The handle goes away, and adds a last permit.
    Close,
}

/// Whether something can be done now. The order on each side is that of
/// [`NotifierHandle::respond`] and [`semaphore_step`].
pub open spec fn can_do(d: Decisions, op: DecisionsOp) -> bool {
    match op {
        DecisionsOp::AddPermit => !d.sending && !d.closed,
        DecisionsOp::Send => d.sending,
        DecisionsOp::TakePermit => !d.receiving && d.permits > 0,
        DecisionsOp::Receive => d.receiving && d.queued > 0,
        DecisionsOp::Close => !d.sending && !d.closed,
    }
}

pub open spec fn do_op(d: Decisions, op: DecisionsOp) -> Decisions {
    match op {
        DecisionsOp::AddPermit => Decisions { permits: d.permits + 1, sending: true, ..d },
        DecisionsOp::Send => Decisions { queued: d.queued + 1, sending: false, ..d },
        DecisionsOp::TakePermit => Decisions {
            permits: (d.permits - 1) as nat,
            receiving: true,
            ..d
        },
        DecisionsOp::Receive => Decisions {
            queued: (d.queued - 1) as nat,
            receiving: false,
            ..d
        },
        DecisionsOp::Close => Decisions { permits: d.permits + 1, closed: true, ..d },
    }
}

/// The semaphore and the channel after some operations.
pub open spec fn after_ops(ops: Seq<DecisionsOp>) -> Decisions
    decreases ops.len(),
{
    if ops.len() == 0 {
        Decisions { permits: 0, queued: 0, sending: false, receiving: false, closed: false }
    } else {
        do_op(after_ops(ops.drop_last()), ops.last())
    }
}

/// Whether each of some operations could be done when it was.
pub open spec fn could_do(ops: Seq<DecisionsOp>) -> bool
    decreases ops.len(),
{
    ops.len() == 0 || could_do(ops.drop_last()) && can_do(
        after_ops(ops.drop_last()),
        ops.last(),
    )
}

/// However the two sides interleave, permits and decisions match: when there is no permit
/// left to take, there is no decision left behind; and who took a permit gets a decision,
/// at the latest when the one that is being sent arrives, or the end of all decisions.
pub proof fn law_no_decision_is_left_behind(ops: Seq<DecisionsOp>)
    requires
        could_do(ops),
    ensures
        ({
            let d = after_ops(ops);
            &&& d.permits == 0 && !d.receiving ==> d.queued == 0
            &&& d.receiving ==> d.queued > 0 || d.sending || d.closed
        }),
{
    lemma_permits_match(ops);
}

/// When the handle is gone, the notifier ends as soon as it has received all decisions: one
/// more permit is there, or already taken, and what it brings is the end.
pub proof fn law_the_end_of_the_handle_ends_the_notifier(ops: Seq<DecisionsOp>)
    requires
        could_do(ops),
        after_ops(ops).closed,
    ensures
        ({
            let d = after_ops(ops);
            d.permits + (if d.receiving {
                1nat
            } else {
                0
            }) == d.queued + 1
        }),
        semaphore_step(SemaphoreEvent::Permit(Permit::Taken)) == SemaphoreStep::Receive,
        semaphore_step(SemaphoreEvent::Received(None)) == SemaphoreStep::Done(Flow::Break(Ok(()))),
{
    lemma_permits_match(ops);
}

proof fn lemma_permits_match(ops: Seq<DecisionsOp>)
    requires
        could_do(ops),
    ensures
        ({
            let d = after_ops(ops);
            d.permits + (if d.receiving {
                1nat
            } else {
                0
            }) == d.queued + (if d.sending || d.closed {
                1nat
            } else {
                0
            }) && !(d.sending && d.closed)
        }),
    decreases ops.len(),
{
    if ops.len() > 0 {
        lemma_permits_match(ops.drop_last());
    }
}

// ---------------------------------------------------------------------------------
// A whole run
// ---------------------------------------------------------------------------------

/// What comes back from outside while one descriptor is handled.
pub enum Outside {
    /// Taking permits brings these decisions, or the end of all decisions, one per permit;
    /// the try after them has the outcome `last`.
    Decisions { brought: Seq<Option<Action>>, last: Permit },
    /// Receiving a notification has this outcome; `taken` says whether there is still
    /// someone who takes it.
    Notification { reception: Reception, taken: bool },
}

/// What comes of taking permits, when they bring these decisions.
pub open spec fn decisions_flow(brought: Seq<Option<Action>>, last: Permit) -> Flow
    decreases brought.len(),
{
    if brought.len() == 0 {
        match semaphore_step(SemaphoreEvent::Permit(last)) {
            SemaphoreStep::Done(flow) => flow,
            _ => Flow::Continue,
        }
    } else {
        match semaphore_step(SemaphoreEvent::Permit(Permit::Taken)) {
            SemaphoreStep::Done(flow) => flow,
            _ => match semaphore_step(SemaphoreEvent::Received(brought[0])) {
                SemaphoreStep::Done(flow) => flow,
                _ => match semaphore_step(SemaphoreEvent::Responded) {
                    SemaphoreStep::Done(flow) => flow,
                    _ => decisions_flow(brought.skip(1), last),
                },
            },
        }
    }
}

/// What comes of handling a descriptor, step by step as [`semaphore_step`] and
/// [`unotify_step`] say.
pub open spec fn handled_flow(ready: Readiness, outside: Outside) -> Flow {
    match outside {
        Outside::Decisions { brought, last } => match semaphore_step(
            SemaphoreEvent::Ready(ready),
        ) {
            SemaphoreStep::Done(flow) => flow,
            _ => decisions_flow(brought, last),
        },
        Outside::Notification { reception, taken } => match unotify_step(
            UnotifyEvent::Ready(ready),
        ) {
            UnotifyStep::Done(flow) => flow,
            _ => match unotify_step(UnotifyEvent::Reception(reception)) {
                UnotifyStep::Done(flow) => flow,
                _ => match unotify_step(UnotifyEvent::Forwarded(taken)) {
                    UnotifyStep::Done(flow) => flow,
                    _ => Flow::Continue,
                },
            },
        },
    }
}

/// One round: what polling brings, and what comes back while each of the ready descriptors is
/// handled.
pub enum Round {
    Ready { ready: Seq<(u64, Readiness)>, outside: Seq<Outside> },
    Interrupted,
    Failed(Errno),
}

/// What comes of the rest of a round.
pub open spec fn rest_of_round(
    ready: Seq<(u64, Readiness)>,
    outside: Seq<Outside>,
    handled: int,
    flow: Flow,
) -> Flow
    decreases ready.len() - handled,
{
    match tick_step(ready, handled, flow) {
        (TickStep::Done(flow), _) => flow,
        (TickStep::Handle(_, readiness), next) => rest_of_round(
            ready,
            outside,
            next,
            handled_flow(readiness, outside[handled]),
        ),
    }
}

/// What comes of a round.
pub open spec fn round_flow(round: Round) -> Flow {
    match round {
        Round::Ready { ready, outside } => rest_of_round(ready, outside, 0, Flow::Continue),
        Round::Interrupted => Flow::Continue,
        Round::Failed(errno) => Flow::Break(Err(Error::Epoll(errno))),
    }
}

/// The outcome of a notifier, if one of these rounds ends it.
pub open spec fn run_outcome(rounds: Seq<Round>) -> Option<Result<(), Error>>
    decreases rounds.len(),
{
    if rounds.len() == 0 {
        None
    } else {
        match run_step(round_flow(rounds[0])) {
            Some(outcome) => Some(outcome),
            None => run_outcome(rounds.skip(1)),
        }
    }
}

/// Whether what comes back fits the descriptor that is handled, and is no error.
pub open spec fn no_error(source: Source, outside: Outside) -> bool {
    match (source, outside) {
        (Source::Semaphore, Outside::Decisions { last, .. }) => last is Unavailable,
        (Source::SeccompUnotify, Outside::Notification { reception, .. }) => !(reception
            is Failed),
        _ => false,
    }
}

/// Whether nothing outside fails in a round. Being interrupted, having no permit left, and a
/// notification that is gone are no failures.
pub open spec fn round_without_errors(round: Round) -> bool {
    match round {
        Round::Ready { ready, outside } => {
            &&& marks_known(ready)
            &&& ready.len() == outside.len()
            &&& forall|i: int|
                0 <= i < ready.len() ==> no_error(source_of(ready[i].0), #[trigger] outside[i])
        },
        Round::Interrupted => true,
        Round::Failed(_) => false,
    }
}

/// Whether taking permits brings what the semaphore and the channel hold: all the decisions,
/// and with any permit beyond them the end of all decisions.
pub open spec fn brings(d: Decisions, brought: Seq<Option<Action>>) -> bool {
    &&& brought.len() == d.permits
    &&& forall|i: int| 0 <= i < brought.len() ==> ((#[trigger] brought[i]) is Some <==> i < d.queued)
}

/// Whether what comes back for a descriptor is that of a handle that was dropped: the
/// decisions that were left, and their end.
pub open spec fn handle_dropped(outside: Outside) -> bool {
    outside matches Outside::Decisions { brought, .. } && exists|ops: Seq<DecisionsOp>|
        #[trigger] could_do(ops) && after_ops(ops).closed && !after_ops(ops).receiving && brings(
            after_ops(ops),
            brought,
        )
}

/// Whether a round tells that every process under the filter has exited, or that the handle
/// was dropped.
pub open spec fn tells_the_end(round: Round) -> bool {
    round matches Round::Ready { ready, outside } && exists|i: int|
        0 <= i < ready.len() && {
            ||| source_of((#[trigger] ready[i]).0) is SeccompUnotify && ready[i].1.hung_up
            ||| source_of(ready[i].0) is Semaphore && ready[i].1.readable && handle_dropped(
                outside[i],
            )
        }
}

proof fn lemma_decisions_flow(brought: Seq<Option<Action>>, last: Permit)
    requires
        last is Unavailable,
    ensures
        decisions_flow(brought, last) is Continue || decisions_flow(brought, last) == Flow::Break(
            Ok(()),
        ),
        (exists|i: int| 0 <= i < brought.len() && (#[trigger] brought[i]) is None)
            ==> decisions_flow(brought, last) == Flow::Break(Ok(())),
    decreases brought.len(),
{
    if brought.len() > 0 && brought[0] is Some {
        lemma_decisions_flow(brought.skip(1), last);
        if exists|i: int| 0 <= i < brought.len() && (#[trigger] brought[i]) is None {
            let i = choose|i: int| 0 <= i < brought.len() && (#[trigger] brought[i]) is None;
            assert(brought.skip(1)[i - 1] is None);
        }
    }
}

proof fn lemma_handled_flow(source: Source, ready: Readiness, outside: Outside)
    requires
        no_error(source, outside),
    ensures
        handled_flow(ready, outside) is Continue || handled_flow(ready, outside) == Flow::Break(
            Ok(()),
        ),
        source is SeccompUnotify && ready.hung_up ==> handled_flow(ready, outside) == Flow::Break(
            Ok(()),
        ),
        source is Semaphore && ready.readable && handle_dropped(outside) ==> handled_flow(
            ready,
            outside,
        ) == Flow::Break(Ok(())),
{
    if let Outside::Decisions { brought, last } = outside {
        lemma_decisions_flow(brought, last);
        if handle_dropped(outside) {
            let ops = choose|ops: Seq<DecisionsOp>| #[trigger]
                could_do(ops) && after_ops(ops).closed && !after_ops(ops).receiving && brings(
                    after_ops(ops),
                    brought,
                );
            law_the_end_of_the_handle_ends_the_notifier(ops);
            assert(brought[after_ops(ops).queued as int] is None);
        }
    }
}

proof fn lemma_rest_of_round(
    ready: Seq<(u64, Readiness)>,
    outside: Seq<Outside>,
    handled: int,
    flow: Flow,
)
    requires
        round_without_errors(Round::Ready { ready, outside }),
        0 <= handled <= ready.len(),
        flow is Continue || flow == Flow::Break(Ok(())),
    ensures
        ({
            let end = rest_of_round(ready, outside, handled, flow);
            &&& end is Continue || end == Flow::Break(Ok(()))
            &&& flow is Break ==> end == flow
            &&& (exists|i: int|
                handled <= i < ready.len() && {
                    ||| source_of((#[trigger] ready[i]).0) is SeccompUnotify && ready[i].1.hung_up
                    ||| source_of(ready[i].0) is Semaphore && ready[i].1.readable
                        && handle_dropped(outside[i])
                }) ==> end == Flow::Break(Ok(()))
        }),
    decreases ready.len() - handled,
{
    if flow is Continue && handled < ready.len() {
        let source = source_of(ready[handled].0);
        assert(no_error(source, outside[handled]));
        lemma_handled_flow(source, ready[handled].1, outside[handled]);
        lemma_rest_of_round(
            ready,
            outside,
            handled + 1,
            handled_flow(ready[handled].1, outside[handled]),
        );
    }
}

/// A notifier whose outside does not fail returns once all processes under the filter have
/// exited or the handle is dropped, and it then returns no error: as soon as a round tells of
/// either, the run is over, however many rounds came before and whatever they brought. No
/// other end of the run is an error either.
pub proof fn law_a_run_ends_well(rounds: Seq<Round>)
    requires
        forall|i: int| 0 <= i < rounds.len() ==> round_without_errors(#[trigger] rounds[i]),
    ensures
        run_outcome(rounds) is Some ==> run_outcome(rounds)->0 is Ok,
        (exists|i: int| 0 <= i < rounds.len() && tells_the_end(#[trigger] rounds[i]))
            ==> run_outcome(rounds) is Some,
    decreases rounds.len(),
{
    if rounds.len() > 0 {
        assert(round_without_errors(rounds[0]));
        if let Round::Ready { ready, outside } = rounds[0] {
            lemma_rest_of_round(ready, outside, 0, Flow::Continue);
        }
        let rest = rounds.skip(1);
        assert forall|i: int| 0 <= i < rest.len() implies round_without_errors(
            #[trigger] rest[i],
        ) by {
            assert(rest[i] == rounds[i + 1]);
        }
        law_a_run_ends_well(rest);
        if exists|i: int| 0 <= i < rounds.len() && tells_the_end(#[trigger] rounds[i]) {
            let i = choose|i: int| 0 <= i < rounds.len() && tells_the_end(#[trigger] rounds[i]);
            if i > 0 {
                assert(rest[i - 1] == rounds[i]);
            }
        }
    }
}

/// An answer says what was decided: a call that is let through goes on, one that is to return
/// a value returns exactly that value, one that is to fail fails with that error, and one that
/// is to return a descriptor returns a copy of it, under any number, that other programs do
/// not inherit.
pub proof fn law_answers_say_what_was_decided(id: u64, value: i64, error: Errno, fd: RawFd)
    requires
        error > 0,
    ensures
        response_to(Action { notification: id, action: ActionInner::LetThrough }) matches
            Response::Continue { id: answered } && answered == id,
        response_to(Action { notification: id, action: ActionInner::ReturnValue(value) }) matches
            Response::Value { id: answered, value: returned } && answered == id && returned
            == value,
        response_to(Action { notification: id, action: ActionInner::ReturnError(error) }) matches
            Response::Error { id: answered, error: returned } && answered == id && returned + error
            == 0,
        response_to(Action { notification: id, action: ActionInner::ReturnFd(fd) }) matches
            Response::AddFd(added) && added.id == id && added.srcfd == fd && added.newfd is None
            && added.flags == SECCOMP_ADDFD_FLAG_SEND && added.newfd_flags == O_CLOEXEC,
{
}

/// Two decisions that differ get different answers.
pub proof fn law_decisions_are_told_apart(a: Action, b: Action)
    requires
        a.action matches ActionInner::ReturnError(error) ==> error > 0,
        b.action matches ActionInner::ReturnError(error) ==> error > 0,
    ensures
        response_to(a) == response_to(b) <==> a == b,
{
}

/// What is ready is handled: decisions whenever the semaphore can be read, and notifications
/// whenever their source can, unless it hung up. Every notification that was received is
/// passed on, and nothing is lost if one is gone.
pub proof fn law_what_is_ready_is_handled(ready: Readiness)
    ensures
        semaphore_step(SemaphoreEvent::Ready(ready)) is TakePermit <==> ready.readable,
        !ready.readable ==> semaphore_step(SemaphoreEvent::Ready(ready)) == SemaphoreStep::Done(
            Flow::Continue,
        ),
        unotify_step(UnotifyEvent::Ready(ready)) is Receive <==> ready.readable && !ready.hung_up,
        ready.hung_up <==> unotify_step(UnotifyEvent::Ready(ready)) == UnotifyStep::Done(
            Flow::Break(Ok(())),
        ),
        unotify_step(UnotifyEvent::Reception(Reception::Received)) is Forward,
        unotify_step(UnotifyEvent::Reception(Reception::Gone)) == UnotifyStep::Done(
            Flow::Continue,
        ),
{
}

/// A failure of the semaphore, of the source of notifications or of polling ends the notifier
/// with that failure; nothing else ends it with one.
pub proof fn law_failures_end_the_notifier(errno: Errno, text: String, flow: Flow)
    ensures
        semaphore_step(SemaphoreEvent::Permit(Permit::Failed(errno))) == SemaphoreStep::Done(
            Flow::Break(Err(Error::Semaphore(errno))),
        ),
        unotify_step(UnotifyEvent::Reception(Reception::Failed(text))) == UnotifyStep::Done(
            Flow::Break(Err(Error::SeccompRecv(text))),
        ),
        round_flow(Round::Failed(errno)) == Flow::Break(Err(Error::Epoll(errno))),
        run_step(flow) is Some <==> flow is Break,
        flow matches Flow::Break(outcome) ==> run_step(flow) == Some(outcome),
{
}

/// In a round, every ready descriptor is handled once, in the order in which polling brought
/// them, until one of them ends the notifier: then no more are, and the round ends as that one
/// did. A round in which none does goes on to the next.
pub proof fn law_ready_descriptors_are_handled_in_order(
    ready: Seq<(u64, Readiness)>,
    handled: int,
    outcome: Result<(), Error>,
)
    requires
        marks_known(ready),
        0 <= handled <= ready.len(),
    ensures
        handled < ready.len() ==> tick_step(ready, handled, Flow::Continue) == (
            TickStep::Handle(
                if ready[handled].0 == EPOLL_SEMAPHORE_DATA {
                    Source::Semaphore
                } else {
                    Source::SeccompUnotify
                },
                ready[handled].1,
            ),
            handled + 1,
        ),
        tick_step(ready, ready.len() as int, Flow::Continue).0 == TickStep::Done(Flow::Continue),
        tick_step(ready, handled, Flow::Break(outcome)).0 == TickStep::Done(Flow::Break(outcome)),
{
    if handled < ready.len() {
        assert(ready[handled].0 == EPOLL_SEMAPHORE_DATA || ready[handled].0
            == EPOLL_SECCOMP_UNOTIFY_DATA);
    }
}

/// What is answered is what was decided, under the ID of the notification: the very value, the
/// very error, a copy of the very descriptor, or that the call goes on. Two decisions are
/// answered alike only if they are the same.
pub proof fn law_a_decision_is_carried_out(a: Action, to_a: Response, b: Action, to_b: Response)
    requires
        a.action matches ActionInner::ReturnError(error) ==> error > 0,
        b.action matches ActionInner::ReturnError(error) ==> error > 0,
        call_ensures(respond_to, (a,), to_a),
        call_ensures(respond_to, (b,), to_b),
    ensures
        to_a == to_b <==> a == b,
        a.action matches ActionInner::ReturnValue(decided) ==> to_a == (Response::Value {
            id: a.notification,
            value: decided,
        }),
        a.action matches ActionInner::ReturnError(decided) ==> (to_a matches Response::Error {
            id,
            error,
        } && id == a.notification && error + decided == 0),
        a.action matches ActionInner::ReturnFd(decided) ==> (to_a matches Response::AddFd(added)
            && added.id == a.notification && added.srcfd == decided),
        a.action is LetThrough ==> to_a == (Response::Continue { id: a.notification }),
{
}

/// The decision that is sent is the one that was made, after a permit was added for it. It
/// counts as sent exactly if both went well, and else what went wrong is told.
pub proof fn law_a_decision_is_sent_after_its_permit(
    decided: Action,
    first: RespondStep,
    added: Result<(), Errno>,
    second: RespondStep,
    arrived: bool,
    third: RespondStep,
)
    requires
        call_ensures(NotifierHandle::respond, (RespondEvent::Decided(decided),), first),
        first matches RespondStep::AddPermit(for_what) ==> call_ensures(
            NotifierHandle::respond,
            (RespondEvent::PermitAdded(for_what, added),),
            second,
        ),
        call_ensures(NotifierHandle::respond, (RespondEvent::Sent(arrived),), third),
    ensures
        first is AddPermit,
        added is Ok <==> second == RespondStep::Send(decided),
        added matches Err(errno) ==> second == RespondStep::Done(Err(Error::Semaphore(errno))),
        arrived <==> (third matches RespondStep::Done(Ok(_))),
        !arrived ==> third == RespondStep::Done(Err(Error::ActionSend)),
{
}

/// After a permit was taken a decision is received, after a decision it is answered, and after
/// an answer another permit is tried, until there is none. Where a notification was passed on,
/// the notifier goes on exactly if there was someone to take it.
pub proof fn law_decisions_are_answered_one_by_one(action: Action, taken: bool)
    ensures
        semaphore_step(SemaphoreEvent::Permit(Permit::Taken)) is Receive,
        semaphore_step(SemaphoreEvent::Received(Some(action))) matches SemaphoreStep::Respond(
            answer,
        ) && answer == response_to(action),
        semaphore_step(SemaphoreEvent::Responded) is TakePermit,
        semaphore_step(SemaphoreEvent::Permit(Permit::Unavailable)) == SemaphoreStep::Done(
            Flow::Continue,
        ),
        semaphore_step(SemaphoreEvent::Received(None)) == SemaphoreStep::Done(Flow::Break(Ok(()))),
        unotify_step(UnotifyEvent::Forwarded(taken)) == UnotifyStep::Done(
            if taken {
                Flow::Continue
            } else {
                Flow::Break(Ok(()))
            },
        ),
{
}

/// A round handles what polling found ready, all of it and in the same order; an interrupted
/// one changes nothing, and one that failed ends the notifier with the error. What is polled
/// are the two sources, each under a mark of its own.
pub proof fn law_a_round_handles_what_is_ready(
    polled: Polled,
    round: Result<Tick, Flow>,
    polls: (Registration, Registration),
)
    requires
        call_ensures(Notifier::tick, (polled,), round),
        call_ensures(Notifier::new, (), polls),
    ensures
        polled matches Polled::Ready(ready) ==> (round matches Ok(tick) && tick.ready@ == ready@
            && tick.handled == 0),
        polled is Interrupted ==> round == Err::<Tick, Flow>(Flow::Continue),
        polled matches Polled::Failed(errno) ==> round == Err::<Tick, Flow>(
            Flow::Break(Err(Error::Epoll(errno))),
        ),
        polls.0.mark != polls.1.mark,
        polls.0.source is Semaphore && polls.1.source is SeccompUnotify,
        source_of(polls.0.mark) is Semaphore && source_of(polls.1.mark) is SeccompUnotify,
        polls.0.readable && polls.1.readable && polls.1.hung_up,
{
}

} // verus!
