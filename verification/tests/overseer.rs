//! Shared descriptors and system call notifications.

use mirrord_core::fd_share::{checked, received, ControlMessage, Error as FdError};
use mirrord_core::notifier::addfd::{ScmpNotifAddfd, SeccompNotifAddfd};
use mirrord_core::notifier::{
    Action, ActionInner, Error, Flow, Notifier, NotifierHandle, Permit, Polled, Readiness,
    Reception, RespondEvent, RespondStep, Response, SemaphoreEvent, SemaphoreStep, Source,
    TickStep, UnotifyEvent, UnotifyStep,
};

const READABLE: Readiness = Readiness { readable: true, error: false, hung_up: false };
const IDLE: Readiness = Readiness { readable: false, error: false, hung_up: false };
const HUNG_UP: Readiness = Readiness { readable: true, error: false, hung_up: true };

#[test]
fn the_first_descriptor_counts() {
    let rights = |fds: &[i32]| ControlMessage::ScmRights(fds.to_vec());
    assert_eq!(
        received(Ok(vec![ControlMessage::Other, rights(&[]), rights(&[7, 8]), rights(&[9])])),
        Ok(7)
    );
    assert_eq!(received(Ok(vec![rights(&[])])), Err(FdError::NoFd));
    assert_eq!(received(Ok(vec![])), Err(FdError::NoFd));
    assert_eq!(received(Err(11)), Err(FdError::SocketIo(11)));
    assert_eq!(checked(7, Ok(1)), Ok(7));
    assert_eq!(checked(7, Err(9)), Err(FdError::FdCheck(9)));
}

#[test]
fn descriptors_are_added() {
    let plain = ScmpNotifAddfd::new(1, 2, None, true, true);
    assert_eq!((plain.flags, plain.newfd_flags), (2, 0o2000000));
    assert_eq!(
        plain.to_sys(),
        SeccompNotifAddfd { id: 1, flags: 2, srcfd: 2, newfd: 0, newfd_flags: 0o2000000 }
    );
    let numbered = ScmpNotifAddfd::new(1, 2, Some(5), true, false);
    assert_eq!((numbered.flags, numbered.newfd_flags), (3, 0));
    assert_eq!(numbered.to_sys().newfd, 5);
    assert_eq!(ScmpNotifAddfd::new(1, 2, Some(5), false, false).flags, 1);
    assert_eq!(ScmpNotifAddfd::new(1, 2, None, false, false).flags, 0);
    assert_eq!(ScmpNotifAddfd::new(1, -1, None, false, false).to_sys().srcfd, u32::MAX);
}

#[test]
fn decisions_become_answers() {
    let respond = |action| {
        let action = Action { notification: 3, action };
        Notifier::handle_semaphore_ready(SemaphoreEvent::Received(Some(action)))
    };
    assert_eq!(
        respond(ActionInner::LetThrough),
        SemaphoreStep::Respond(Response::Continue { id: 3 })
    );
    assert_eq!(
        respond(ActionInner::ReturnValue(-5)),
        SemaphoreStep::Respond(Response::Value { id: 3, value: -5 })
    );
    assert_eq!(
        respond(ActionInner::ReturnError(13)),
        SemaphoreStep::Respond(Response::Error { id: 3, error: -13 })
    );
    assert_eq!(
        respond(ActionInner::ReturnFd(8)),
        SemaphoreStep::Respond(Response::AddFd(ScmpNotifAddfd::new(3, 8, None, true, true)))
    );
}

#[test]
fn every_permit_is_used() {
    let step = Notifier::handle_semaphore_ready;
    assert_eq!(step(SemaphoreEvent::Ready(IDLE)), SemaphoreStep::Done(Flow::Continue));
    assert_eq!(step(SemaphoreEvent::Ready(READABLE)), SemaphoreStep::TakePermit);
    assert_eq!(step(SemaphoreEvent::Permit(Permit::Taken)), SemaphoreStep::Receive);
    assert_eq!(step(SemaphoreEvent::Responded), SemaphoreStep::TakePermit);
    assert_eq!(
        step(SemaphoreEvent::Permit(Permit::Unavailable)),
        SemaphoreStep::Done(Flow::Continue)
    );
    assert_eq!(
        step(SemaphoreEvent::Permit(Permit::Failed(5))),
        SemaphoreStep::Done(Flow::Break(Err(Error::Semaphore(5))))
    );
    assert_eq!(
        step(SemaphoreEvent::Received(None)),
        SemaphoreStep::Done(Flow::Break(Ok(())))
    );
}

#[test]
fn notifications_are_passed_on() {
    let step = Notifier::handle_seccomp_unotify_ready;
    assert_eq!(
        step(UnotifyEvent::Ready(HUNG_UP)),
        UnotifyStep::Done(Flow::Break(Ok(())))
    );
    assert_eq!(step(UnotifyEvent::Ready(IDLE)), UnotifyStep::Done(Flow::Continue));
    assert_eq!(step(UnotifyEvent::Ready(READABLE)), UnotifyStep::Receive);
    assert_eq!(step(UnotifyEvent::Reception(Reception::Received)), UnotifyStep::Forward);
    assert_eq!(
        step(UnotifyEvent::Reception(Reception::Gone)),
        UnotifyStep::Done(Flow::Continue)
    );
    assert_eq!(
        step(UnotifyEvent::Reception(Reception::Failed("x".to_owned()))),
        UnotifyStep::Done(Flow::Break(Err(Error::SeccompRecv("x".to_owned()))))
    );
    assert_eq!(step(UnotifyEvent::Forwarded(true)), UnotifyStep::Done(Flow::Continue));
    assert_eq!(
        step(UnotifyEvent::Forwarded(false)),
        UnotifyStep::Done(Flow::Break(Ok(())))
    );
}

#[test]
fn a_round_handles_what_is_ready() {
    let ready = vec![(2, READABLE), (1, IDLE)];
    let mut tick = match Notifier::tick(Polled::Ready(ready)) {
        Ok(tick) => tick,
        Err(flow) => panic!("{flow:?}"),
    };
    assert_eq!(tick.proceed(Flow::Continue), TickStep::Handle(Source::SeccompUnotify, READABLE));
    assert_eq!(tick.proceed(Flow::Continue), TickStep::Handle(Source::Semaphore, IDLE));
    assert_eq!(tick.proceed(Flow::Continue), TickStep::Done(Flow::Continue));
    assert_eq!(
        tick.proceed(Flow::Break(Err(Error::Epoll(1)))),
        TickStep::Done(Flow::Break(Err(Error::Epoll(1))))
    );
    assert_eq!(Notifier::tick(Polled::Interrupted).err(), Some(Flow::Continue));
    assert_eq!(
        Notifier::tick(Polled::Failed(9)).err(),
        Some(Flow::Break(Err(Error::Epoll(9))))
    );
    assert_eq!(Notifier::run(Flow::Continue), None);
    assert_eq!(Notifier::run(Flow::Break(Ok(()))), Some(Ok(())));
}

/// The outcome of a round in which permits bring these decisions, or the end of them.
fn round(ready: Vec<(u64, Readiness)>, brought: Vec<Option<Action>>) -> Flow {
    let mut tick = match Notifier::tick(Polled::Ready(ready)) {
        Ok(tick) => tick,
        Err(flow) => return flow,
    };
    let mut brought = brought.into_iter();
    let mut flow = Flow::Continue;
    loop {
        flow = match tick.proceed(flow) {
            TickStep::Done(flow) => return flow,
            TickStep::Handle(Source::SeccompUnotify, readiness) => {
                let mut event = UnotifyEvent::Ready(readiness);
                loop {
                    event = match Notifier::handle_seccomp_unotify_ready(event) {
                        UnotifyStep::Receive => UnotifyEvent::Reception(Reception::Received),
                        UnotifyStep::Forward => UnotifyEvent::Forwarded(true),
                        UnotifyStep::Done(flow) => break flow,
                    };
                }
            }
            TickStep::Handle(Source::Semaphore, readiness) => {
                let mut event = SemaphoreEvent::Ready(readiness);
                let mut received = None;
                loop {
                    event = match Notifier::handle_semaphore_ready(event) {
                        SemaphoreStep::TakePermit => {
                            received = brought.next();
                            SemaphoreEvent::Permit(match received {
                                Some(_) => Permit::Taken,
                                None => Permit::Unavailable,
                            })
                        }
                        SemaphoreStep::Receive => SemaphoreEvent::Received(received.unwrap()),
                        SemaphoreStep::Respond(_) => SemaphoreEvent::Responded,
                        SemaphoreStep::Done(flow) => break flow,
                    };
                }
            }
        };
    }
}

#[test]
fn a_run_ends_well() {
    let action = Some(Action { notification: 1, action: ActionInner::LetThrough });
    let busy = || round(vec![(2, READABLE), (1, READABLE)], vec![action, action]);
    assert_eq!(Notifier::run(busy()), None);
    // All processes have exited.
    let exited = round(vec![(1, READABLE), (2, HUNG_UP)], vec![action]);
    assert_eq!(Notifier::run(exited), Some(Ok(())));
    // The handle is dropped, with a decision left.
    let dropped = round(vec![(2, READABLE), (1, READABLE)], vec![action, None]);
    assert_eq!(Notifier::run(dropped), Some(Ok(())));
}

#[test]
fn a_permit_comes_before_the_decision() {
    let action = Action { notification: 1, action: ActionInner::LetThrough };
    let step = NotifierHandle::respond;
    assert_eq!(step(RespondEvent::Decided(action)), RespondStep::AddPermit(action));
    assert_eq!(step(RespondEvent::PermitAdded(action, Ok(()))), RespondStep::Send(action));
    assert_eq!(
        step(RespondEvent::PermitAdded(action, Err(4))),
        RespondStep::Done(Err(Error::Semaphore(4)))
    );
    assert_eq!(step(RespondEvent::Sent(true)), RespondStep::Done(Ok(())));
    assert_eq!(step(RespondEvent::Sent(false)), RespondStep::Done(Err(Error::ActionSend)));
}

#[test]
fn two_descriptors_are_polled() {
    let (semaphore, unotify) = Notifier::new();
    assert_eq!((semaphore.source, semaphore.mark), (Source::Semaphore, 1));
    assert!(semaphore.readable && !semaphore.hung_up);
    assert_eq!((unotify.source, unotify.mark), (Source::SeccompUnotify, 2));
    assert!(unotify.readable && unotify.hung_up);
}
