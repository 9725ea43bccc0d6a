//! The poller: its descriptors, the registration of sources, and the order in
//! which it is taken down.

use crate::event::{Event, EventExtra, PollMode, NOTIFY_KEY};
use crate::events::{event_of, from_sources, Events, RawEvent};
use crate::flags::{
    epoll_flags, flags_union, has_all, interest_bits, law_registered_flags_tell_mode_and_interest,
    mode_bits, read_bits, write_bits, EPOLLERR, EPOLLET, EPOLLHUP, EPOLLIN, EPOLLONESHOT, EPOLLOUT,
    EPOLLPRI,
};
use crate::notifier::{Notification, Notifier};
use crate::request::Request;
use crate::setup::{PollerSetup, SetupStage, Target};
use crate::time::Timeout;
use crate::wait::{WaitTask, WaitView};
use vstd::multiset::Multiset;
use vstd::prelude::*;

verus! {

/// The interface to epoll.
#[derive(Debug, Clone, Copy, PartialEq, Eq)]
pub struct Poller {
    /// The descriptor of the epoll instance.
    pub epoll_fd: i32,
    /// The notifier that wakes up a wait.
    pub notifier: Notifier,
    /// The descriptor of the timer that produces timeouts, where there is one.
    pub timer_fd: Option<i32>,
}

/// The flags that a source is registered with: those of the mode, those of the
/// interest, and the extra ones.
pub open spec fn registration_bits(ev: Event, mode: PollMode) -> u32 {
    (mode_bits(mode) | interest_bits(ev.readable, ev.writable)) | ev.extra.flags
}

/// The interest in the notifier, and in the timer while a wait goes on: one
/// readability event under the poller's own key.
pub open spec fn own_interest() -> Event {
    Event {
        key: NOTIFY_KEY,
        readable: true,
        writable: false,
        extra: EventExtra { flags: 0 },
    }
}

/// The interest in the timer while no wait goes on: none.
pub open spec fn no_interest() -> Event {
    Event {
        key: NOTIFY_KEY,
        readable: false,
        writable: false,
        extra: EventExtra { flags: 0 },
    }
}

impl Poller {
    /// The request that registers a descriptor.
    pub open spec fn add_request(self, fd: i32, ev: Event, mode: PollMode) -> Request {
        Request::Add {
            epoll_fd: self.epoll_fd,
            fd,
            data: ev.key as u64,
            flags: registration_bits(ev, mode),
        }
    }

    /// The request that changes the registration of a descriptor.
    pub open spec fn modify_request(self, fd: i32, ev: Event, mode: PollMode) -> Request {
        Request::Modify {
            epoll_fd: self.epoll_fd,
            fd,
            data: ev.key as u64,
            flags: registration_bits(ev, mode),
        }
    }

    /// The request that sets the interest in the notifier again.
    pub open spec fn rearm_request(self) -> Request {
        self.modify_request(self.notifier.poll_fd(), own_interest(), PollMode::Oneshot)
    }

    /// The descriptors that the poller owns.
    pub open spec fn fds(self) -> Multiset<i32> {
        match self.timer_fd {
            Some(timer_fd) => self.notifier.fds().insert(self.epoll_fd).insert(timer_fd),
            None => self.notifier.fds().insert(self.epoll_fd),
        }
    }

    /// What takes the poller down, in order: the timer is unregistered and
    /// closed, the notifier is unregistered, the epoll instance is closed, and
    /// then the notifier.
    pub open spec fn teardown_requests(self) -> Seq<Request> {
        let timer = match self.timer_fd {
            Some(timer_fd) => seq![
                Request::Delete { epoll_fd: self.epoll_fd, fd: timer_fd },
                Request::Close { fd: timer_fd },
            ],
            None => Seq::<Request>::empty(),
        };
        let notifier = match self.notifier {
            Notifier::EventFd(fd) => seq![Request::Close { fd }],
            Notifier::Pipe { read_pipe, write_pipe } => seq![
                Request::Close { fd: read_pipe },
                Request::Close { fd: write_pipe },
            ],
        };
        timer + seq![
            Request::Delete { epoll_fd: self.epoll_fd, fd: self.notifier.poll_fd() },
            Request::Close { fd: self.epoll_fd },
        ] + notifier
    }

    /// Starts to create a poller on the given platform.
    pub fn new(target: Target) -> (r: PollerSetup)
        ensures
            r == PollerSetup::start(target),
    {
        PollerSetup { target, stage: SetupStage::CreatingEpoll }
    }

    /// Whether this poller supports level-triggered events.
    pub fn supports_level(&self) -> (r: bool)
        ensures
            r,
    {
        true
    }

    /// Whether the poller supports edge-triggered events.
    pub fn supports_edge(&self) -> (r: bool)
        ensures
            r,
    {
        true
    }

    /// The request that adds a new file descriptor. Its answer is the result.
    pub fn add(&self, fd: i32, ev: Event, mode: PollMode) -> (r: Request)
        ensures
            r == self.add_request(fd, ev, mode),
    {
        Request::Add {
            epoll_fd: self.epoll_fd,
            fd,
            data: ev.key as u64,
            flags: flags_union(epoll_flags(&ev, mode), ev.extra.flags),
        }
    }

    /// The request that modifies an existing file descriptor. Its answer is the
    /// result.
    pub fn modify(&self, fd: i32, ev: Event, mode: PollMode) -> (r: Request)
        ensures
            r == self.modify_request(fd, ev, mode),
    {
        Request::Modify {
            epoll_fd: self.epoll_fd,
            fd,
            data: ev.key as u64,
            flags: flags_union(epoll_flags(&ev, mode), ev.extra.flags),
        }
    }

    /// The request that deletes a file descriptor. Its answer is the result.
    pub fn delete(&self, fd: i32) -> (r: Request)
        ensures
            r == (Request::Delete { epoll_fd: self.epoll_fd, fd }),
    {
        Request::Delete { epoll_fd: self.epoll_fd, fd }
    }

    /// Starts a wait for I/O events with an optional timeout. The events are
    /// appended to the list, which must have been made to hold some.
    pub fn wait(&self, events: Events, timeout: Option<Timeout>) -> (r: WaitTask)
        requires
            events.limit() > 0,
        ensures
            r@ == WaitView::start(*self, events@, events.limit(), timeout),
    {
        WaitTask::begin(*self, events, timeout)
    }

    /// What to write to wake up the current or next wait. Notifying succeeds
    /// whatever becomes of the write.
    pub fn notify(&self) -> (r: Notification)
        ensures
            r.fd == self.notifier.wake_fd(),
            self.notifier is EventFd ==> (r.bytes@ == seq![1u8, 0, 0, 0, 0, 0, 0, 0] || r.bytes@
                == seq![0u8, 0, 0, 0, 0, 0, 0, 1]),
            self.notifier is Pipe ==> r.bytes@ == seq![0u8],
    {
        self.notifier.notify()
    }

    /// The descriptor of the epoll instance.
    pub fn as_raw_fd(&self) -> (r: i32)
        ensures
            r == self.epoll_fd,
    {
        self.epoll_fd
    }

    /// What to request when the poller is dropped, in order. The answers do not
    /// matter.
    pub fn teardown(&self) -> (r: Vec<Request>)
        ensures
            r@ == self.teardown_requests(),
    {
        let mut requests: Vec<Request> = Vec::new();
        if let Some(timer_fd) = self.timer_fd {
            requests.push(self.delete(timer_fd));
            requests.push(Request::Close { fd: timer_fd });
        }
        requests.push(self.delete(self.notifier.as_fd()));
        requests.push(Request::Close { fd: self.epoll_fd });
        match self.notifier {
            Notifier::EventFd(fd) => {
                requests.push(Request::Close { fd });
            },
            Notifier::Pipe { read_pipe, write_pipe } => {
                requests.push(Request::Close { fd: read_pipe });
                requests.push(Request::Close { fd: write_pipe });
            },
        }
        proof {
            assert(requests@ =~= self.teardown_requests());
        }
        requests
    }
}

/// The descriptors that a sequence of requests closes.
pub open spec fn closed_by(requests: Seq<Request>) -> Multiset<i32>
    decreases requests.len(),
{
    if requests.len() == 0 {
        Multiset::empty()
    } else {
        requests[0].closed().add(closed_by(requests.drop_first()))
    }
}

/// Taking a poller down closes every descriptor that it owns once, and nothing
/// else.
pub proof fn law_teardown_closes_what_is_owned(poller: Poller)
    ensures
        closed_by(poller.teardown_requests()) =~= poller.fds(),
{
    let requests = poller.teardown_requests();
    reveal_with_fuel(closed_by, 8);
    let r1 = requests.drop_first();
    let r2 = r1.drop_first();
    let r3 = r2.drop_first();
    let r4 = r3.drop_first();
    if requests.len() > 4 {
        let r5 = r4.drop_first();
        if requests.len() > 5 {
            let r6 = r5.drop_first();
            assert(r6.len() == 0);
        }
    }
}

/// A registered source reports under its own key, whatever flags occur. With
/// any other key than the poller's own it is among the events of sources; what
/// is registered under the poller's own key never is.
pub proof fn law_reports_under_registered_key(
    poller: Poller,
    fd: i32,
    ev: Event,
    mode: PollMode,
    flags: u32,
)
    ensures
        ({
            let data = poller.add_request(fd, ev, mode)->Add_data;
            let reported = event_of(RawEvent { flags, data });
            &&& data == poller.modify_request(fd, ev, mode)->Modify_data
            &&& reported.key == ev.key
            &&& ev.key != NOTIFY_KEY ==> from_sources(seq![reported]) == seq![reported]
            &&& ev.key == NOTIFY_KEY ==> from_sources(seq![reported]) == Seq::<Event>::empty()
        }),
{
    crate::events::law_key_comes_back(ev.key, flags);
    let reported = event_of(RawEvent { flags, data: ev.key as u64 });
    reveal(Seq::filter);
    reveal_with_fuel(Seq::filter, 2);
    assert(seq![reported].drop_last() =~= Seq::<Event>::empty());
    assert(Seq::<Event>::empty().push(reported) =~= seq![reported]);
}

/// The flags that a source is registered with hold the mode, the interest and
/// every extra flag, and without extra flags the mode and the interest can be
/// read back from them.
pub proof fn law_registration_flags(ev: Event, mode: PollMode)
    ensures
        ({
            let flags = registration_bits(ev, mode);
            &&& has_all(flags, ev.extra.flags)
            &&& (mode is Oneshot || mode is EdgeOneshot) ==> has_all(flags, EPOLLONESHOT)
            &&& (mode is Edge || mode is EdgeOneshot) ==> has_all(flags, EPOLLET)
            &&& ev.readable ==> has_all(flags, read_bits())
            &&& ev.writable ==> has_all(flags, write_bits())
            &&& ev.extra.flags == 0 ==> {
                &&& has_all(flags, EPOLLONESHOT) ==> (mode is Oneshot || mode is EdgeOneshot)
                &&& has_all(flags, EPOLLET) ==> (mode is Edge || mode is EdgeOneshot)
                &&& has_all(flags, read_bits()) ==> ev.readable
                &&& has_all(flags, write_bits()) ==> ev.writable
            }
        }),
{
    law_registered_flags_tell_mode_and_interest(mode, ev.readable, ev.writable);
    let base = mode_bits(mode) | interest_bits(ev.readable, ev.writable);
    let extra = ev.extra.flags;
    assert((base | extra) & extra == extra) by (bit_vector);
    assert(base | 0u32 == base) by (bit_vector);
    assert forall|m: u32| base & m == m implies (base | extra) & m == m by {
        assert(base & m == m ==> (base | extra) & m == m) by (bit_vector);
    }
}

/// To add and to modify a descriptor ask for the same: on the poller's own epoll
/// instance, for that descriptor, under the key of the event. Readability is
/// asked for by its four flags and writability by its three; the mode chooses the
/// flags for a single event and for changes only. Any of these flags is there if
/// and only if it is asked for in that way or is an extra flag, and any other if
/// and only if it is an extra flag.
pub proof fn law_add_and_modify_ask_for_event(poller: Poller, fd: i32, ev: Event, mode: PollMode)
    ensures
        ({
            let flags = poller.add_request(fd, ev, mode)->Add_flags;
            let extra = ev.extra.flags;
            &&& poller.add_request(fd, ev, mode) == (Request::Add {
                epoll_fd: poller.epoll_fd,
                fd,
                data: ev.key as u64,
                flags,
            })
            &&& poller.modify_request(fd, ev, mode) == (Request::Modify {
                epoll_fd: poller.epoll_fd,
                fd,
                data: ev.key as u64,
                flags,
            })
            &&& flags & EPOLLIN == EPOLLIN <==> ev.readable || extra & EPOLLIN == EPOLLIN
            &&& flags & EPOLLPRI == EPOLLPRI <==> ev.readable || extra & EPOLLPRI == EPOLLPRI
            &&& flags & EPOLLOUT == EPOLLOUT <==> ev.writable || extra & EPOLLOUT == EPOLLOUT
            &&& flags & EPOLLERR == EPOLLERR <==> ev.readable || ev.writable || extra & EPOLLERR
                == EPOLLERR
            &&& flags & EPOLLHUP == EPOLLHUP <==> ev.readable || ev.writable || extra & EPOLLHUP
                == EPOLLHUP
            &&& flags & EPOLLONESHOT == EPOLLONESHOT <==> mode is Oneshot || mode is EdgeOneshot
                || extra & EPOLLONESHOT == EPOLLONESHOT
            &&& flags & EPOLLET == EPOLLET <==> mode is Edge || mode is EdgeOneshot || extra
                & EPOLLET == EPOLLET
            &&& flags & !(EPOLLIN | EPOLLPRI | EPOLLOUT | EPOLLERR | EPOLLHUP | EPOLLONESHOT
                | EPOLLET) == extra & !(EPOLLIN | EPOLLPRI | EPOLLOUT | EPOLLERR | EPOLLHUP
                | EPOLLONESHOT | EPOLLET)
        }),
{
    law_registered_flags_tell_mode_and_interest(mode, ev.readable, ev.writable);
    let base = mode_bits(mode) | interest_bits(ev.readable, ev.writable);
    let extra = ev.extra.flags;
    let known = EPOLLIN | EPOLLPRI | EPOLLOUT | EPOLLERR | EPOLLHUP | EPOLLONESHOT | EPOLLET;
    assert({
        &&& ((base | extra) & EPOLLIN == EPOLLIN) == (base & EPOLLIN == EPOLLIN || extra & EPOLLIN
            == EPOLLIN)
        &&& ((base | extra) & EPOLLPRI == EPOLLPRI) == (base & EPOLLPRI == EPOLLPRI || extra
            & EPOLLPRI == EPOLLPRI)
        &&& ((base | extra) & EPOLLOUT == EPOLLOUT) == (base & EPOLLOUT == EPOLLOUT || extra
            & EPOLLOUT == EPOLLOUT)
        &&& ((base | extra) & EPOLLERR == EPOLLERR) == (base & EPOLLERR == EPOLLERR || extra
            & EPOLLERR == EPOLLERR)
        &&& ((base | extra) & EPOLLHUP == EPOLLHUP) == (base & EPOLLHUP == EPOLLHUP || extra
            & EPOLLHUP == EPOLLHUP)
        &&& ((base | extra) & EPOLLONESHOT == EPOLLONESHOT) == (base & EPOLLONESHOT == EPOLLONESHOT
            || extra & EPOLLONESHOT == EPOLLONESHOT)
        &&& ((base | extra) & EPOLLET == EPOLLET) == (base & EPOLLET == EPOLLET || extra & EPOLLET
            == EPOLLET)
        &&& base & !known == 0 ==> (base | extra) & !known == extra & !known
    }) by (bit_vector);
}

/// What the poller registers of its own: the notifier, and the timer during a
/// wait, for one readability event under its own key, and the timer at first for
/// nothing.
pub proof fn law_own_registrations(poller: Poller, fd: i32)
    ensures
        ({
            let once = EPOLLONESHOT | EPOLLIN | EPOLLPRI | EPOLLERR | EPOLLHUP;
            let epoll_fd = poller.epoll_fd;
            let data = usize::MAX as u64;
            &&& poller.add_request(fd, own_interest(), PollMode::Oneshot) == (Request::Add {
                epoll_fd,
                fd,
                data,
                flags: once,
            })
            &&& poller.modify_request(fd, own_interest(), PollMode::Oneshot) == (Request::Modify {
                epoll_fd,
                fd,
                data,
                flags: once,
            })
            &&& poller.add_request(fd, no_interest(), PollMode::Oneshot) == (Request::Add {
                epoll_fd,
                fd,
                data,
                flags: EPOLLONESHOT,
            })
            &&& poller.rearm_request() == (Request::Modify {
                epoll_fd,
                fd: match poller.notifier {
                    Notifier::EventFd(event_fd) => event_fd,
                    Notifier::Pipe { read_pipe, .. } => read_pipe,
                },
                data,
                flags: once,
            })
        }),
{
    let read = read_bits();
    assert({
        &&& (EPOLLONESHOT | (read | 0u32)) | 0u32 == EPOLLONESHOT | EPOLLIN | EPOLLPRI | EPOLLERR
            | EPOLLHUP
        &&& (EPOLLONESHOT | (0u32 | 0u32)) | 0u32 == EPOLLONESHOT
    }) by (bit_vector)
        requires
            read == EPOLLIN | EPOLLHUP | EPOLLERR | EPOLLPRI,
    ;
}

/// The order in which a poller is taken down. What it registered of its own is
/// unregistered before it is closed, the timer first. The epoll instance is
/// closed when nothing of the poller's own is registered any more, and the
/// notifier last.
pub proof fn law_teardown_order(poller: Poller)
    ensures
        ({
            let requests = poller.teardown_requests();
            let epoll_fd = poller.epoll_fd;
            let n: int = if poller.timer_fd is Some {
                2
            } else {
                0
            };
            &&& poller.timer_fd matches Some(timer_fd) ==> requests[0] == (Request::Delete {
                epoll_fd,
                fd: timer_fd,
            }) && requests[1] == (Request::Close { fd: timer_fd })
            &&& requests[n + 1] == (Request::Close { fd: epoll_fd })
            &&& match poller.notifier {
                Notifier::EventFd(fd) => {
                    &&& requests.len() == n + 3
                    &&& requests[n] == (Request::Delete { epoll_fd, fd })
                    &&& requests[n + 2] == (Request::Close { fd })
                },
                Notifier::Pipe { read_pipe, write_pipe } => {
                    &&& requests.len() == n + 4
                    &&& requests[n] == (Request::Delete { epoll_fd, fd: read_pipe })
                    &&& requests[n + 2] == (Request::Close { fd: read_pipe })
                    &&& requests[n + 3] == (Request::Close { fd: write_pipe })
                },
            }
        }),
{
}

} // verus!
