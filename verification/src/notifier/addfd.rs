//! The answer to a system call that hands a file descriptor to the caller.

use crate::fd_share::RawFd;
use vstd::prelude::*;

verus! {

/// The new descriptor has a given number.
pub const SECCOMP_ADDFD_FLAG_SETFD: u32 = 1;

/// The descriptor is the result of the system call.
pub const SECCOMP_ADDFD_FLAG_SEND: u32 = 2;

/// The request that adds a descriptor, on the descriptor that notifications come from.
pub const SECCOMP_IOCTL_NOTIF_ADDFD: u64 = 1075323139;

/// The descriptor is closed when another program is executed.
pub const O_CLOEXEC: i32 = 0o2000000;

/// Adds a file descriptor to the process that made a system call.
#[derive(Debug, Clone, Copy, PartialEq, Eq, Hash)]
pub struct ScmpNotifAddfd {
    pub id: u64,
    pub flags: u32,
    pub srcfd: RawFd,
    pub newfd: Option<RawFd>,
    pub newfd_flags: i32,
}

/// The same, as the kernel reads it.
#[derive(Debug, Clone, Copy, PartialEq, Eq)]
pub struct SeccompNotifAddfd {
    pub id: u64,
    pub flags: u32,
    pub srcfd: u32,
    pub newfd: u32,
    pub newfd_flags: u32,
}

/// The flags of a request to add a descriptor.
pub open spec fn addfd_flags(newfd: Option<RawFd>, send: bool) -> int {
    (if newfd is Some {
        SECCOMP_ADDFD_FLAG_SETFD as int
    } else {
        0
    }) + (if send {
        SECCOMP_ADDFD_FLAG_SEND as int
    } else {
        0
    })
}

impl ScmpNotifAddfd {
    /// The form that the kernel reads: a number that is not given is zero.
    pub fn to_sys(self) -> (r: SeccompNotifAddfd)
        ensures
            r == (SeccompNotifAddfd {
                id: self.id,
                flags: self.flags,
                srcfd: self.srcfd as u32,
                newfd: match self.newfd {
                    Some(fd) => fd as u32,
                    None => 0,
                },
                newfd_flags: self.newfd_flags as u32,
            }),
    {
        SeccompNotifAddfd {
            id: self.id,
            flags: self.flags,
            srcfd: self.srcfd as u32,
            newfd: match self.newfd {
                Some(fd) => fd as u32,
                None => 0,
            },
            newfd_flags: self.newfd_flags as u32,
        }
    }

    /// Answers the notification `id` with a copy of `srcfd`, which gets the number `newfd`
    /// if that is given.
    pub fn new(id: u64, srcfd: RawFd, newfd: Option<RawFd>, send: bool, close_on_exec: bool) -> (r:
        ScmpNotifAddfd)
        ensures
            r.id == id,
            r.srcfd == srcfd,
            r.newfd == newfd,
            r.flags == addfd_flags(newfd, send),
            r.newfd_flags == if close_on_exec {
                O_CLOEXEC
            } else {
                0
            },
    {
        let set: u32 = if newfd.is_some() {
            SECCOMP_ADDFD_FLAG_SETFD
        } else {
            0
        };
        let sent: u32 = if send {
            SECCOMP_ADDFD_FLAG_SEND
        } else {
            0
        };
        let flags: u32 = set | sent;
        assert(flags == set + sent) by (bit_vector)
            requires
                flags == set | sent,
                set == 0 || set == 1,
                sent == 0 || sent == 2,
        ;
        let newfd_flags: i32 = if close_on_exec {
            O_CLOEXEC
        } else {
            0
        };
        ScmpNotifAddfd { id, flags, srcfd, newfd, newfd_flags }
    }
}

/// The flags tell exactly what is asked for: one whether a number is given for the
/// descriptor, the other whether the descriptor is the result of the system call.
pub proof fn law_flags_tell_what_is_asked_for(newfd: Option<RawFd>, send: bool)
    ensures
        addfd_flags(newfd, send) % 2 == 1 <==> newfd is Some,
        addfd_flags(newfd, send) / 2 == 1 <==> send,
        0 <= addfd_flags(newfd, send) < 4,
{
}

/// A request is for what it was made with, in the form that the kernel reads too: the flags
/// say whether a number is given and whether the descriptor is the result, and a number that is
/// not given is zero.
pub proof fn law_the_kernel_reads_what_was_asked_for(
    id: u64,
    srcfd: RawFd,
    newfd: Option<RawFd>,
    send: bool,
    close_on_exec: bool,
    request: ScmpNotifAddfd,
    read: SeccompNotifAddfd,
)
    requires
        srcfd >= 0,
        newfd matches Some(fd) ==> fd >= 0,
        call_ensures(ScmpNotifAddfd::new, (id, srcfd, newfd, send, close_on_exec), request),
        call_ensures(ScmpNotifAddfd::to_sys, (request,), read),
    ensures
        read.id == id,
        read.srcfd == srcfd,
        newfd matches Some(fd) ==> read.newfd == fd,
        newfd is None ==> read.newfd == 0,
        read.flags % 2 == 1 <==> newfd is Some,
        read.flags / 2 == 1 <==> send,
        read.newfd_flags == if close_on_exec {
            0o2000000int
        } else {
            0
        },
{
}

} // verus!
