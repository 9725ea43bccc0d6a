//! What is asked of the kernel, and what it answers.
//!
//! A file descriptor is held as its number.

use crate::events::RawEvent;
use crate::time::{Itimerspec, Timespec};
use vstd::multiset::Multiset;
use vstd::prelude::*;

verus! {

/// The number of an error that the kernel reported.
#[derive(Debug, Clone, Copy, PartialEq, Eq)]
pub struct Errno(pub i32);

/// A system call to perform.
#[derive(Debug, Clone, Copy, PartialEq, Eq)]
pub enum Request {
    /// Create an epoll instance.
    EpollCreate { cloexec: bool },
    /// Create an event descriptor with the given count.
    EventFdCreate { initial: u32, cloexec: bool, nonblock: bool },
    /// Create a timer, on the monotonic clock or on that of the time of day.
    TimerFdCreate { monotonic: bool, cloexec: bool, nonblock: bool },
    /// Create a pipe with flags.
    PipeWith { cloexec: bool },
    /// Create a pipe without flags.
    Pipe,
    /// Get the descriptor flags.
    GetFdFlags { fd: i32 },
    /// Set the descriptor flags.
    SetFdFlags { fd: i32, flags: u32 },
    /// Get the file status flags.
    GetStatusFlags { fd: i32 },
    /// Set the file status flags.
    SetStatusFlags { fd: i32, flags: u32 },
    /// Set a timer to a time that is relative to now, or to an absolute one.
    SetTimer { fd: i32, absolute: bool, value: Itimerspec },
    /// Register a descriptor with an epoll instance.
    Add { epoll_fd: i32, fd: i32, data: u64, flags: u32 },
    /// Change the registration of a descriptor.
    Modify { epoll_fd: i32, fd: i32, data: u64, flags: u32 },
    /// Remove the registration of a descriptor.
    Delete { epoll_fd: i32, fd: i32 },
    /// Wait for up to `room` events, for no longer than `timeout`.
    Wait { epoll_fd: i32, room: usize, timeout: Option<Timespec> },
    /// Read up to `len` bytes and forget them.
    Read { fd: i32, len: usize },
    /// Close a descriptor.
    Close { fd: i32 },
}

/// The answer to a request.
#[derive(Debug, PartialEq, Eq)]
pub enum Reply {
    /// It was done.
    Done,
    /// A descriptor was opened.
    Descriptor(i32),
    /// A pipe was opened: its read end and its write end.
    Pair(i32, i32),
    /// The flags that were asked for.
    Flags(u32),
    /// The number of bytes that were read.
    Count(usize),
    /// The events that were waited for.
    Ready(Vec<RawEvent>),
    /// It failed.
    Failed(Errno),
}

impl Request {
    /// Whether `reply` is of the kind that answers this request. A failure
    /// answers every request, and a wait gets no more events than it has room
    /// for.
    pub open spec fn is_answered_by(self, reply: Reply) -> bool {
        ||| reply is Failed
        ||| match self {
            Request::EpollCreate { .. } => reply is Descriptor,
            Request::EventFdCreate { .. } => reply is Descriptor,
            Request::TimerFdCreate { .. } => reply is Descriptor,
            Request::PipeWith { .. } => reply is Pair,
            Request::Pipe => reply is Pair,
            Request::GetFdFlags { .. } => reply is Flags,
            Request::SetFdFlags { .. } => reply is Done,
            Request::GetStatusFlags { .. } => reply is Flags,
            Request::SetStatusFlags { .. } => reply is Done,
            Request::SetTimer { .. } => reply is Done,
            Request::Add { .. } => reply is Done,
            Request::Modify { .. } => reply is Done,
            Request::Delete { .. } => reply is Done,
            Request::Wait { room, .. } => reply matches Reply::Ready(list) && list@.len() <= room,
            Request::Read { .. } => reply is Count,
            Request::Close { .. } => reply is Done,
        }
    }

    /// Tells if `reply` is of the kind that answers this request.
    pub fn answered_by(&self, reply: &Reply) -> (r: bool)
        ensures
            r == self.is_answered_by(*reply),
    {
        match (self, reply) {
            (_, Reply::Failed(_)) => true,
            (Request::EpollCreate { .. }, Reply::Descriptor(_)) => true,
            (Request::EventFdCreate { .. }, Reply::Descriptor(_)) => true,
            (Request::TimerFdCreate { .. }, Reply::Descriptor(_)) => true,
            (Request::PipeWith { .. }, Reply::Pair(_, _)) => true,
            (Request::Pipe, Reply::Pair(_, _)) => true,
            (Request::GetFdFlags { .. }, Reply::Flags(_)) => true,
            (Request::SetFdFlags { .. }, Reply::Done) => true,
            (Request::GetStatusFlags { .. }, Reply::Flags(_)) => true,
            (Request::SetStatusFlags { .. }, Reply::Done) => true,
            (Request::SetTimer { .. }, Reply::Done) => true,
            (Request::Add { .. }, Reply::Done) => true,
            (Request::Modify { .. }, Reply::Done) => true,
            (Request::Delete { .. }, Reply::Done) => true,
            (Request::Wait { room, .. }, Reply::Ready(list)) => list.len() <= *room,
            (Request::Read { .. }, Reply::Count(_)) => true,
            (Request::Close { .. }, Reply::Done) => true,
            _ => false,
        }
    }

    /// The descriptor that the request closes. It is closed whatever the
    /// answer.
    pub open spec fn closed(self) -> Multiset<i32> {
        match self {
            Request::Close { fd } => Multiset::singleton(fd),
            _ => Multiset::empty(),
        }
    }
}

impl Reply {
    /// The descriptors that the answer hands over.
    pub open spec fn opened(self) -> Multiset<i32> {
        match self {
            Reply::Descriptor(fd) => Multiset::singleton(fd),
            Reply::Pair(read, write) => Multiset::singleton(read).insert(write),
            _ => Multiset::empty(),
        }
    }

    /// The error, if it failed.
    pub open spec fn error(self) -> Option<Errno> {
        match self {
            Reply::Failed(e) => Some(e),
            _ => None,
        }
    }

    /// What a caller learns of a request that hands nothing over: the error if
    /// it failed.
    pub fn result(&self) -> (r: Result<(), Errno>)
        ensures
            r == (match *self {
                Reply::Failed(e) => Err::<(), Errno>(e),
                _ => Ok::<(), Errno>(()),
            }),
            r is Err <==> self.error() is Some,
            r matches Err(e) ==> self.error() == Some(e),
    {
        match self {
            Reply::Failed(e) => Err(*e),
            _ => Ok(()),
        }
    }
}

/// Every request can fail, and a failure is the only error. Other than that, a descriptor answers what opens one,
/// a pair what opens a pipe, flags what gets flags, a count a read, and events a
/// wait that has room for them; whatever hands nothing over is answered by its
/// being done.
pub proof fn law_answers_fit_requests(request: Request, reply: Reply)
    ensures
        match reply {
            Reply::Failed(e) => request.is_answered_by(reply) && reply.error() == Some(e),
            Reply::Descriptor(_) => request.is_answered_by(reply) <==> (request is EpollCreate
                || request is EventFdCreate || request is TimerFdCreate),
            Reply::Pair(_, _) => request.is_answered_by(reply) <==> (request is PipeWith
                || request is Pipe),
            Reply::Flags(_) => request.is_answered_by(reply) <==> (request is GetFdFlags
                || request is GetStatusFlags),
            Reply::Count(_) => request.is_answered_by(reply) <==> request is Read,
            Reply::Ready(list) => request.is_answered_by(reply) <==> (request is Wait && list@.len()
                <= request->Wait_room),
            Reply::Done => request.is_answered_by(reply) <==> (request is SetFdFlags
                || request is SetStatusFlags || request is SetTimer || request is Add
                || request is Modify || request is Delete || request is Close),
        },
        reply.error() is Some ==> reply is Failed,
{
}

} // verus!
