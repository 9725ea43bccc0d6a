//! The notifier that wakes up a wait: an event descriptor, or a pipe where
//! event descriptors are not to be had.

use crate::request::{Errno, Reply, Request};
use rustix::fs::OFlags;
use rustix::io::FdFlags;
use vstd::array::array_as_slice;
use vstd::bytes::{spec_u64_to_le_bytes, spec_u64_to_le_bytes_to_open};
use vstd::multiset::Multiset;
use vstd::prelude::*;
use vstd::slice::slice_to_vec;

verus! {

/// The number of bytes that clear an event descriptor.
pub const EVENT_LEN: usize = 8;

/// The number of bytes that are read from a pipe at a time.
pub const PIPE_LEN: usize = 1024;

/// The notifier.
#[derive(Debug, Clone, Copy, PartialEq, Eq)]
pub enum Notifier {
    /// The primary notifier, an event descriptor.
    EventFd(i32),
    /// The fallback notifier, a pipe.
    Pipe {
        /// The read end of the pipe.
        read_pipe: i32,
        /// The write end of the pipe.
        write_pipe: i32,
    },
}

/// Bytes to write to a descriptor. Whether they were written does not matter.
#[derive(Debug, PartialEq, Eq)]
pub struct Notification {
    /// The descriptor.
    pub fd: i32,
    /// The bytes.
    pub bytes: Vec<u8>,
}

/// `<FdFlags as BitOr>::bitor`: the bits of either set of descriptor flags.
#[verifier::external_body]
fn fd_flags_union(flags: u32, other: u32) -> (r: u32)
    ensures
        r == flags | other,
{
    (FdFlags::from_bits_retain(flags) | FdFlags::from_bits_retain(other)).bits()
}

/// `<OFlags as BitOr>::bitor`: the bits of either set of file status flags.
#[verifier::external_body]
fn status_flags_union(flags: u32, other: u32) -> (r: u32)
    ensures
        r == flags | other,
{
    (OFlags::from_bits_retain(flags) | OFlags::from_bits_retain(other)).bits()
}

/// `u64::to_ne_bytes`: the eight bytes of the word, in the byte order of the
/// machine, so from the lowest byte to the highest or the other way round.
/// Which of the two it is depends on the machine and is not stated.
#[verifier::external_body]
fn to_ne_bytes(word: u64) -> (r: [u8; 8])
    ensures
        r@ == spec_u64_to_le_bytes(word) || r@ == spec_u64_to_le_bytes(word).reverse(),
{
    word.to_ne_bytes()
}

impl Notifier {
    /// The descriptor to register in the poller.
    pub open spec fn poll_fd(self) -> i32 {
        match self {
            Notifier::EventFd(fd) => fd,
            Notifier::Pipe { read_pipe, .. } => read_pipe,
        }
    }

    /// The descriptor that a notification is written to.
    pub open spec fn wake_fd(self) -> i32 {
        match self {
            Notifier::EventFd(fd) => fd,
            Notifier::Pipe { write_pipe, .. } => write_pipe,
        }
    }

    /// The read that takes notifications away.
    pub open spec fn clear_request(self) -> Request {
        match self {
            Notifier::EventFd(fd) => Request::Read { fd, len: EVENT_LEN },
            Notifier::Pipe { read_pipe, .. } => Request::Read { fd: read_pipe, len: PIPE_LEN },
        }
    }

    /// Whether, after that read got `reply`, there may be more to take away. An
    /// event descriptor is cleared by a single read; a pipe is read until a
    /// read fails.
    pub open spec fn more_to_clear(self, reply: Reply) -> bool {
        self is Pipe && !(reply is Failed)
    }

    /// The descriptors that the notifier owns.
    pub open spec fn fds(self) -> Multiset<i32> {
        match self {
            Notifier::EventFd(fd) => Multiset::singleton(fd),
            Notifier::Pipe { read_pipe, write_pipe } => Multiset::singleton(read_pipe).insert(
                write_pipe,
            ),
        }
    }

    /// Starts to create a notifier. It is an event descriptor, if `eventfd`
    /// says that the platform has them and one can be had, and a pipe
    /// otherwise. `cloexec` is the platform's word for the descriptor flag that
    /// closes on execution, and `nonblock` that for the file status flag that
    /// makes reads non-blocking.
    pub fn new(eventfd: bool, cloexec: u32, nonblock: u32) -> (r: NotifierSetup)
        ensures
            r == NotifierSetup::start(eventfd, cloexec, nonblock),
    {
        if eventfd {
            NotifierSetup { cloexec, nonblock, stage: NotifierStage::CreatingEventFd }
        } else {
            NotifierSetup { cloexec, nonblock, stage: NotifierStage::CreatingPipeWith }
        }
    }

    /// The descriptor to register in the poller.
    pub fn as_fd(&self) -> (r: i32)
        ensures
            r == self.poll_fd(),
    {
        match self {
            Notifier::EventFd(fd) => *fd,
            Notifier::Pipe { read_pipe, .. } => *read_pipe,
        }
    }

    /// What to write to notify the poller, where `one` is the number one as a
    /// word in the byte order of the machine: that word to an event descriptor,
    /// a zero byte to a pipe.
    pub fn notification(&self, one: &[u8]) -> (r: Notification)
        ensures
            r.fd == self.wake_fd(),
            self is EventFd ==> r.bytes@ == one@,
            self is Pipe ==> r.bytes@ == seq![0u8],
    {
        match self {
            Notifier::EventFd(fd) => Notification { fd: *fd, bytes: slice_to_vec(one) },
            Notifier::Pipe { write_pipe, .. } => {
                let mut bytes: Vec<u8> = Vec::new();
                bytes.push(0u8);
                proof {
                    assert(bytes@ =~= seq![0u8]);
                }
                Notification { fd: *write_pipe, bytes }
            },
        }
    }

    /// What to write to notify the poller.
    pub fn notify(&self) -> (r: Notification)
        ensures
            r.fd == self.wake_fd(),
            self is EventFd ==> (r.bytes@ == seq![1u8, 0, 0, 0, 0, 0, 0, 0] || r.bytes@
                == seq![0u8, 0, 0, 0, 0, 0, 0, 1]),
            self is Pipe ==> r.bytes@ == seq![0u8],
    {
        let one = to_ne_bytes(1);
        proof {
            spec_u64_to_le_bytes_to_open(1);
            assert({
                &&& (1u64 & 0xff) as u8 == 1u8
                &&& ((1u64 >> 8) & 0xff) as u8 == 0u8
                &&& ((1u64 >> 16) & 0xff) as u8 == 0u8
                &&& ((1u64 >> 24) & 0xff) as u8 == 0u8
                &&& ((1u64 >> 32) & 0xff) as u8 == 0u8
                &&& ((1u64 >> 40) & 0xff) as u8 == 0u8
                &&& ((1u64 >> 48) & 0xff) as u8 == 0u8
                &&& ((1u64 >> 56) & 0xff) as u8 == 0u8
            }) by (bit_vector);
            let low_first = spec_u64_to_le_bytes(1);
            assert(low_first =~= seq![1u8, 0, 0, 0, 0, 0, 0, 0]);
            assert(low_first.reverse() =~= seq![0u8, 0, 0, 0, 0, 0, 0, 1]);
        }
        self.notification(array_as_slice(&one))
    }

    /// The read that takes notifications away.
    pub fn clear(&self) -> (r: Request)
        ensures
            r == self.clear_request(),
    {
        match self {
            Notifier::EventFd(fd) => Request::Read { fd: *fd, len: EVENT_LEN },
            Notifier::Pipe { read_pipe, .. } => Request::Read { fd: *read_pipe, len: PIPE_LEN },
        }
    }

    /// Tells if, after the read of `clear` got `reply`, it is to be repeated.
    pub fn clear_again(&self, reply: &Reply) -> (r: bool)
        ensures
            r == self.more_to_clear(*reply),
    {
        match (self, reply) {
            (Notifier::EventFd(_), _) => false,
            (Notifier::Pipe { .. }, Reply::Failed(_)) => false,
            (Notifier::Pipe { .. }, _) => true,
        }
    }
}

/// The two ends of a pipe.
#[derive(Debug, Clone, Copy, PartialEq, Eq)]
pub struct Ends {
    /// The read end.
    pub read: i32,
    /// The write end.
    pub write: i32,
}

/// How far the creation of a notifier has come.
#[derive(Debug, Clone, Copy, PartialEq, Eq)]
pub enum NotifierStage {
    /// An event descriptor is being created.
    CreatingEventFd,
    /// A pipe that closes on execution is being created.
    CreatingPipeWith,
    /// A plain pipe is being created.
    CreatingPipe,
    /// The descriptor flags of the read end are being read.
    GettingReadFlags(Ends),
    /// The descriptor flags of the read end are being set.
    SettingReadFlags(Ends, u32),
    /// The descriptor flags of the write end are being read.
    GettingWriteFlags(Ends),
    /// The descriptor flags of the write end are being set.
    SettingWriteFlags(Ends, u32),
    /// The file status flags of the read end are being read.
    GettingStatus(Ends),
    /// The file status flags of the read end are being set.
    SettingStatus(Ends, u32),
    /// The write end is being closed after an error.
    ClosingWrite(Ends, Errno),
    /// The read end is being closed after an error.
    ClosingRead(i32, Errno),
    /// The notifier is there.
    Ready(Notifier),
    /// No notifier could be created.
    Failed(Errno),
}

/// The creation of a notifier.
#[derive(Debug, Clone, Copy, PartialEq, Eq)]
pub struct NotifierSetup {
    /// The platform's word for the descriptor flag that closes on execution.
    pub cloexec: u32,
    /// The platform's word for the file status flag that makes reads
    /// non-blocking.
    pub nonblock: u32,
    /// How far it has come.
    pub stage: NotifierStage,
}

impl NotifierSetup {
    /// The start of the creation.
    pub open spec fn start(eventfd: bool, cloexec: u32, nonblock: u32) -> NotifierSetup {
        NotifierSetup {
            cloexec,
            nonblock,
            stage: if eventfd {
                NotifierStage::CreatingEventFd
            } else {
                NotifierStage::CreatingPipeWith
            },
        }
    }

    /// The request that waits for an answer, until the creation has ended.
    pub open spec fn pending(self) -> Option<Request> {
        match self.stage {
            NotifierStage::CreatingEventFd => Some(
                Request::EventFdCreate { initial: 0, cloexec: true, nonblock: true },
            ),
            NotifierStage::CreatingPipeWith => Some(Request::PipeWith { cloexec: true }),
            NotifierStage::CreatingPipe => Some(Request::Pipe),
            NotifierStage::GettingReadFlags(ends) => Some(Request::GetFdFlags { fd: ends.read }),
            NotifierStage::SettingReadFlags(ends, flags) => Some(
                Request::SetFdFlags { fd: ends.read, flags },
            ),
            NotifierStage::GettingWriteFlags(ends) => Some(Request::GetFdFlags { fd: ends.write }),
            NotifierStage::SettingWriteFlags(ends, flags) => Some(
                Request::SetFdFlags { fd: ends.write, flags },
            ),
            NotifierStage::GettingStatus(ends) => Some(Request::GetStatusFlags { fd: ends.read }),
            NotifierStage::SettingStatus(ends, flags) => Some(
                Request::SetStatusFlags { fd: ends.read, flags },
            ),
            NotifierStage::ClosingWrite(ends, _) => Some(Request::Close { fd: ends.write }),
            NotifierStage::ClosingRead(read, _) => Some(Request::Close { fd: read }),
            NotifierStage::Ready(_) => None,
            NotifierStage::Failed(_) => None,
        }
    }

    /// The two ends of the pipe, while the creation works on one.
    pub open spec fn ends(self) -> Option<Ends> {
        match self.stage {
            NotifierStage::GettingReadFlags(ends) => Some(ends),
            NotifierStage::SettingReadFlags(ends, _) => Some(ends),
            NotifierStage::GettingWriteFlags(ends) => Some(ends),
            NotifierStage::SettingWriteFlags(ends, _) => Some(ends),
            NotifierStage::GettingStatus(ends) => Some(ends),
            NotifierStage::SettingStatus(ends, _) => Some(ends),
            NotifierStage::ClosingWrite(ends, _) => Some(ends),
            _ => None,
        }
    }

    /// The stage after the pending request failed. Without an event descriptor
    /// there is a pipe, and a pipe that could not be created with its flags is
    /// created without them. Any other error ends the creation, once both ends
    /// of a pipe that was created are closed.
    pub open spec fn stage_on_failure(self, e: Errno) -> NotifierStage {
        match self.stage {
            NotifierStage::CreatingEventFd => NotifierStage::CreatingPipeWith,
            NotifierStage::CreatingPipeWith => NotifierStage::CreatingPipe,
            NotifierStage::CreatingPipe => NotifierStage::Failed(e),
            NotifierStage::ClosingWrite(ends, cause) => NotifierStage::ClosingRead(ends.read, cause),
            NotifierStage::ClosingRead(_, cause) => NotifierStage::Failed(cause),
            stage => match self.ends() {
                Some(ends) => NotifierStage::ClosingWrite(ends, e),
                None => stage,
            },
        }
    }

    /// The stage after the pending request got an answer that is no failure. A
    /// plain pipe gets the flag that closes on execution added to the flags of
    /// both ends. The read end of any pipe is made non-blocking.
    pub open spec fn stage_on_success(self, reply: Reply) -> NotifierStage {
        match (self.stage, reply) {
            (NotifierStage::CreatingEventFd, Reply::Descriptor(fd)) => NotifierStage::Ready(
                Notifier::EventFd(fd),
            ),
            (NotifierStage::CreatingPipeWith, Reply::Pair(read, write)) =>
                NotifierStage::GettingStatus(Ends { read, write }),
            (NotifierStage::CreatingPipe, Reply::Pair(read, write)) =>
                NotifierStage::GettingReadFlags(Ends { read, write }),
            (NotifierStage::GettingReadFlags(ends), Reply::Flags(flags)) =>
                NotifierStage::SettingReadFlags(ends, flags | self.cloexec),
            (NotifierStage::SettingReadFlags(ends, _), Reply::Done) =>
                NotifierStage::GettingWriteFlags(ends),
            (NotifierStage::GettingWriteFlags(ends), Reply::Flags(flags)) =>
                NotifierStage::SettingWriteFlags(ends, flags | self.cloexec),
            (NotifierStage::SettingWriteFlags(ends, _), Reply::Done) =>
                NotifierStage::GettingStatus(ends),
            (NotifierStage::GettingStatus(ends), Reply::Flags(flags)) =>
                NotifierStage::SettingStatus(ends, flags | self.nonblock),
            (NotifierStage::SettingStatus(ends, _), Reply::Done) => NotifierStage::Ready(
                Notifier::Pipe { read_pipe: ends.read, write_pipe: ends.write },
            ),
            (NotifierStage::ClosingWrite(ends, cause), Reply::Done) => NotifierStage::ClosingRead(
                ends.read,
                cause,
            ),
            (NotifierStage::ClosingRead(_, cause), Reply::Done) => NotifierStage::Failed(cause),
            (stage, _) => stage,
        }
    }

    /// The creation after the pending request got `reply`.
    pub open spec fn after(self, reply: Reply) -> NotifierSetup {
        NotifierSetup {
            stage: match reply {
                Reply::Failed(e) => self.stage_on_failure(e),
                _ => self.stage_on_success(reply),
            },
            ..self
        }
    }

    /// The request that waits for an answer, until the creation has ended.
    pub fn request(&self) -> (r: Option<Request>)
        ensures
            r == self.pending(),
    {
        match self.stage {
            NotifierStage::CreatingEventFd => Some(
                Request::EventFdCreate { initial: 0, cloexec: true, nonblock: true },
            ),
            NotifierStage::CreatingPipeWith => Some(Request::PipeWith { cloexec: true }),
            NotifierStage::CreatingPipe => Some(Request::Pipe),
            NotifierStage::GettingReadFlags(ends) => Some(Request::GetFdFlags { fd: ends.read }),
            NotifierStage::SettingReadFlags(ends, flags) => Some(
                Request::SetFdFlags { fd: ends.read, flags },
            ),
            NotifierStage::GettingWriteFlags(ends) => Some(Request::GetFdFlags { fd: ends.write }),
            NotifierStage::SettingWriteFlags(ends, flags) => Some(
                Request::SetFdFlags { fd: ends.write, flags },
            ),
            NotifierStage::GettingStatus(ends) => Some(Request::GetStatusFlags { fd: ends.read }),
            NotifierStage::SettingStatus(ends, flags) => Some(
                Request::SetStatusFlags { fd: ends.read, flags },
            ),
            NotifierStage::ClosingWrite(ends, _) => Some(Request::Close { fd: ends.write }),
            NotifierStage::ClosingRead(read, _) => Some(Request::Close { fd: read }),
            NotifierStage::Ready(_) => None,
            NotifierStage::Failed(_) => None,
        }
    }

    /// Takes the answer to the pending request. An answer of another kind is
    /// refused and changes nothing.
    pub fn step(&mut self, reply: &Reply) -> (r: bool)
        ensures
            r == (old(self).pending() matches Some(request) && request.is_answered_by(*reply)),
            r ==> *final(self) == old(self).after(*reply),
            !r ==> *final(self) == *old(self),
    {
        let accepted = match self.request() {
            Some(request) => request.answered_by(reply),
            None => false,
        };
        if !accepted {
            return false;
        }
        self.stage = match (self.stage, reply) {
            (NotifierStage::CreatingEventFd, Reply::Descriptor(fd)) => NotifierStage::Ready(
                Notifier::EventFd(*fd),
            ),
            (NotifierStage::CreatingEventFd, _) => NotifierStage::CreatingPipeWith,
            (NotifierStage::CreatingPipeWith, Reply::Pair(read, write)) =>
                NotifierStage::GettingStatus(Ends { read: *read, write: *write }),
            (NotifierStage::CreatingPipeWith, _) => NotifierStage::CreatingPipe,
            (NotifierStage::CreatingPipe, Reply::Pair(read, write)) =>
                NotifierStage::GettingReadFlags(Ends { read: *read, write: *write }),
            (NotifierStage::CreatingPipe, Reply::Failed(e)) => NotifierStage::Failed(*e),
            (NotifierStage::GettingReadFlags(ends), Reply::Flags(flags)) =>
                NotifierStage::SettingReadFlags(ends, fd_flags_union(*flags, self.cloexec)),
            (NotifierStage::SettingReadFlags(ends, _), Reply::Done) =>
                NotifierStage::GettingWriteFlags(ends),
            (NotifierStage::GettingWriteFlags(ends), Reply::Flags(flags)) =>
                NotifierStage::SettingWriteFlags(ends, fd_flags_union(*flags, self.cloexec)),
            (NotifierStage::SettingWriteFlags(ends, _), Reply::Done) =>
                NotifierStage::GettingStatus(ends),
            (NotifierStage::GettingStatus(ends), Reply::Flags(flags)) =>
                NotifierStage::SettingStatus(ends, status_flags_union(*flags, self.nonblock)),
            (NotifierStage::SettingStatus(ends, _), Reply::Done) => NotifierStage::Ready(
                Notifier::Pipe { read_pipe: ends.read, write_pipe: ends.write },
            ),
            (NotifierStage::GettingReadFlags(ends), Reply::Failed(e)) =>
                NotifierStage::ClosingWrite(ends, *e),
            (NotifierStage::SettingReadFlags(ends, _), Reply::Failed(e)) =>
                NotifierStage::ClosingWrite(ends, *e),
            (NotifierStage::GettingWriteFlags(ends), Reply::Failed(e)) =>
                NotifierStage::ClosingWrite(ends, *e),
            (NotifierStage::SettingWriteFlags(ends, _), Reply::Failed(e)) =>
                NotifierStage::ClosingWrite(ends, *e),
            (NotifierStage::GettingStatus(ends), Reply::Failed(e)) =>
                NotifierStage::ClosingWrite(ends, *e),
            (NotifierStage::SettingStatus(ends, _), Reply::Failed(e)) =>
                NotifierStage::ClosingWrite(ends, *e),
            (NotifierStage::ClosingWrite(ends, e), _) => NotifierStage::ClosingRead(ends.read, e),
            (NotifierStage::ClosingRead(_, e), _) => NotifierStage::Failed(e),
            (stage, _) => stage,
        };
        true
    }

    /// The notifier, or the error that kept it from being created, once the
    /// creation has ended.
    pub fn outcome(&self) -> (r: Option<Result<Notifier, Errno>>)
        ensures
            r == (match self.stage {
                NotifierStage::Ready(notifier) => Some(Ok::<Notifier, Errno>(notifier)),
                NotifierStage::Failed(e) => Some(Err::<Notifier, Errno>(e)),
                _ => None,
            }),
    {
        match self.stage {
            NotifierStage::Ready(notifier) => Some(Ok(notifier)),
            NotifierStage::Failed(e) => Some(Err(e)),
            _ => None,
        }
    }

    /// The descriptors that the creation owns at this point.
    pub open spec fn held(self) -> Multiset<i32> {
        match self.stage {
            NotifierStage::ClosingRead(read, _) => Multiset::singleton(read),
            NotifierStage::Ready(notifier) => notifier.fds(),
            _ => match self.ends() {
                Some(ends) => Multiset::singleton(ends.read).insert(ends.write),
                None => Multiset::empty(),
            },
        }
    }
}

/// A notification goes to where it is watched for and taken away from: to the
/// event descriptor itself, or into the pipe whose read end is watched and read.
pub proof fn law_notification_is_seen_and_taken(notifier: Notifier)
    ensures
        match notifier {
            Notifier::EventFd(fd) => {
                &&& notifier.wake_fd() == fd
                &&& notifier.poll_fd() == fd
                &&& notifier.clear_request()->Read_fd == fd
            },
            Notifier::Pipe { read_pipe, write_pipe } => {
                &&& notifier.wake_fd() == write_pipe
                &&& notifier.poll_fd() == read_pipe
                &&& notifier.clear_request()->Read_fd == read_pipe
            },
        },
{
}

/// An event descriptor is cleared by one read of the eight bytes of its count,
/// whatever that gets. A pipe is read in blocks of its read end until a read
/// fails, and no longer.
pub proof fn law_clear_reads(notifier: Notifier, reply: Reply)
    ensures
        match notifier {
            Notifier::EventFd(fd) => {
                &&& notifier.clear_request() == (Request::Read { fd, len: 8 })
                &&& !notifier.more_to_clear(reply)
            },
            Notifier::Pipe { read_pipe, .. } => {
                &&& notifier.clear_request() == (Request::Read { fd: read_pipe, len: 1024 })
                &&& notifier.more_to_clear(reply) <==> !(reply is Failed)
            },
        },
{
}

} // verus!
