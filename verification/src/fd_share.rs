//! A channel for sending file descriptors between processes, over a UNIX domain datagram
//! socket: which descriptor a received message brings.

use vstd::prelude::*;

verus! {

/// The number of an open file.
pub type RawFd = i32;

/// The number of an error of the operating system.
pub type Errno = i32;

/// Errors of the channel.
#[derive(Debug, Clone, Copy, PartialEq, Eq)]
pub enum Error {
    /// The socket failed.
    SocketIo(Errno),
    /// The received descriptor is not valid.
    FdCheck(Errno),
    /// A message came without a descriptor.
    NoFd,
}

/// Ancillary data of a received message.
#[derive(Debug, PartialEq, Eq)]
pub enum ControlMessage {
    /// File descriptors.
    ScmRights(Vec<RawFd>),
    Other,
}

/// The first descriptor that ancillary data holds.
pub open spec fn fd_in(messages: Seq<ControlMessage>) -> Option<RawFd>
    decreases messages.len(),
{
    if messages.len() == 0 {
        None
    } else {
        match messages[0] {
            ControlMessage::ScmRights(fds) if fds@.len() > 0 => Some(fds@[0]),
            _ => fd_in(messages.skip(1)),
        }
    }
}

/// The first descriptor that ancillary data holds.
pub fn first_fd(messages: &Vec<ControlMessage>) -> (r: Option<RawFd>)
    ensures
        r == fd_in(messages@),
{
    let mut i: usize = 0;
    assert(messages@.skip(0) =~= messages@);
    while i < messages.len()
        invariant
            i <= messages.len(),
            fd_in(messages@) == fd_in(messages@.skip(i as int)),
        decreases messages.len() - i,
    {
        assert(messages@.skip(i as int)[0] == messages@[i as int]);
        assert(messages@.skip(i as int).skip(1) =~= messages@.skip(i + 1));
        if let ControlMessage::ScmRights(fds) = &messages[i] {
            if fds.len() > 0 {
                return Some(fds[0]);
            }
        }
        i = i + 1;
    }
    None
}

/// The descriptor that a message brings. It is still to be checked.
pub fn received(outcome: Result<Vec<ControlMessage>, Errno>) -> (r: Result<RawFd, Error>)
    ensures
        r == match outcome {
            Err(errno) => Err(Error::SocketIo(errno)),
            Ok(messages) => match fd_in(messages@) {
                Some(fd) => Ok(fd),
                None => Err(Error::NoFd),
            },
        },
{
    match outcome {
        Err(errno) => Err(Error::SocketIo(errno)),
        Ok(messages) => match first_fd(&messages) {
            Some(fd) => Ok(fd),
            None => Err(Error::NoFd),
        },
    }
}

/// The descriptor, after it was checked whether it is valid: where a process would have
/// more open files than it may, the excess ones are closed as they are received.
pub fn checked(fd: RawFd, check: Result<i32, Errno>) -> (r: Result<RawFd, Error>)
    ensures
        r == match check {
            Ok(_) => Ok(fd),
            Err(errno) => Err(Error::FdCheck(errno)),
        },
{
    match check {
        Ok(_) => Ok(fd),
        Err(errno) => Err(Error::FdCheck(errno)),
    }
}

/// The descriptors of a list of ancillary data, in order.
pub open spec fn all_fds(messages: Seq<ControlMessage>) -> Seq<RawFd>
    decreases messages.len(),
{
    if messages.len() == 0 {
        Seq::empty()
    } else {
        (match messages[0] {
            ControlMessage::ScmRights(fds) => fds@,
            ControlMessage::Other => Seq::empty(),
        }) + all_fds(messages.skip(1))
    }
}

/// A message brings a descriptor exactly if there is one anywhere in it, and it is the
/// first of them.
pub proof fn law_the_first_descriptor_counts(messages: Seq<ControlMessage>)
    ensures
        fd_in(messages) == if all_fds(messages).len() > 0 {
            Some(all_fds(messages)[0])
        } else {
            None
        },
    decreases messages.len(),
{
    if messages.len() > 0 {
        law_the_first_descriptor_counts(messages.skip(1));
    }
}

/// A message that came brings the first descriptor in it, wherever that is; one without a
/// descriptor is an error of its own, and so is a socket that failed. The descriptor that is
/// handed on is the one that was received, once it is known to be valid.
pub proof fn law_the_received_descriptor_is_handed_on(
    outcome: Result<Vec<ControlMessage>, Errno>,
    fd: Result<RawFd, Error>,
    check: Result<i32, Errno>,
    handed_on: Result<RawFd, Error>,
)
    requires
        call_ensures(received, (outcome,), fd),
        fd matches Ok(number) ==> call_ensures(checked, (number, check), handed_on),
    ensures
        outcome matches Err(errno) ==> fd == Err::<RawFd, Error>(Error::SocketIo(errno)),
        outcome matches Ok(messages) ==> {
            &&& all_fds(messages@).len() == 0 ==> fd == Err::<RawFd, Error>(Error::NoFd)
            &&& all_fds(messages@).len() > 0 ==> fd == Ok::<RawFd, Error>(all_fds(messages@)[0])
        },
        fd is Ok && check is Ok ==> handed_on == fd,
        fd is Ok ==> (check matches Err(errno) ==> handed_on == Err::<RawFd, Error>(
            Error::FdCheck(errno),
        )),
{
    if let Ok(messages) = outcome {
        law_the_first_descriptor_counts(messages@);
    }
}

} // verus!
