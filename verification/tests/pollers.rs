//! Pollers at work on real sockets. The driver below performs the requests of
//! the library and hands the answers back.

use polling::event::{Event, PollMode, NOTIFY_KEY};
use polling::events::{Events, RawEvent};
use polling::notifier::Notifier;
use polling::poller::Poller;
use polling::request::{Errno, Reply, Request};
use polling::setup::Target;
use polling::time::Timeout;
use rustix::event::{epoll, eventfd, EventfdFlags};
use rustix::fd::{AsFd, AsRawFd, BorrowedFd, OwnedFd};
use rustix::fs::{fcntl_getfl, fcntl_setfl, OFlags};
use rustix::io::{fcntl_getfd, fcntl_setfd, read, FdFlags};
use rustix::net::{socketpair, AddressFamily, SocketFlags, SocketType};
use rustix::pipe::{pipe, pipe_with, PipeFlags};
use rustix::time::{
    timerfd_create, timerfd_settime, TimerfdClockId, TimerfdFlags, TimerfdTimerFlags,
};
use std::collections::BTreeMap;
use std::mem::MaybeUninit;

/// The open descriptors by their numbers.
struct Kernel {
    open: BTreeMap<i32, OwnedFd>,
}

fn timespec(ts: polling::time::Timespec) -> rustix::event::Timespec {
    rustix::event::Timespec { tv_sec: ts.tv_sec, tv_nsec: ts.tv_nsec }
}

fn done(result: rustix::io::Result<()>) -> Reply {
    match result {
        Ok(()) => Reply::Done,
        Err(e) => failed(e),
    }
}

fn failed(e: rustix::io::Errno) -> Reply {
    Reply::Failed(Errno(e.raw_os_error()))
}

impl Kernel {
    fn new() -> Kernel {
        Kernel { open: BTreeMap::new() }
    }

    fn adopt(&mut self, fd: OwnedFd) -> i32 {
        let number = fd.as_raw_fd();
        self.open.insert(number, fd);
        number
    }

    fn fd(&self, number: i32) -> BorrowedFd<'_> {
        self.open[&number].as_fd()
    }

    fn opened(&mut self, result: rustix::io::Result<OwnedFd>) -> Reply {
        match result {
            Ok(fd) => Reply::Descriptor(self.adopt(fd)),
            Err(e) => failed(e),
        }
    }

    fn opened_pair(&mut self, result: rustix::io::Result<(OwnedFd, OwnedFd)>) -> Reply {
        match result {
            Ok((read, write)) => Reply::Pair(self.adopt(read), self.adopt(write)),
            Err(e) => failed(e),
        }
    }

    fn perform(&mut self, request: Request) -> Reply {
        match request {
            Request::EpollCreate { cloexec } => {
                assert!(cloexec);
                let result = epoll::create(epoll::CreateFlags::CLOEXEC);
                self.opened(result)
            }
            Request::EventFdCreate { initial, cloexec, nonblock } => {
                assert!(cloexec && nonblock);
                let result = eventfd(initial, EventfdFlags::CLOEXEC | EventfdFlags::NONBLOCK);
                self.opened(result)
            }
            Request::TimerFdCreate { monotonic, cloexec, nonblock } => {
                assert!(monotonic && cloexec && nonblock);
                let result = timerfd_create(
                    TimerfdClockId::Monotonic,
                    TimerfdFlags::CLOEXEC | TimerfdFlags::NONBLOCK,
                );
                self.opened(result)
            }
            Request::PipeWith { cloexec } => {
                assert!(cloexec);
                let result = pipe_with(PipeFlags::CLOEXEC);
                self.opened_pair(result)
            }
            Request::Pipe => {
                let result = pipe();
                self.opened_pair(result)
            }
            Request::GetFdFlags { fd } => match fcntl_getfd(self.fd(fd)) {
                Ok(flags) => Reply::Flags(flags.bits()),
                Err(e) => failed(e),
            },
            Request::SetFdFlags { fd, flags } => {
                done(fcntl_setfd(self.fd(fd), FdFlags::from_bits_retain(flags)))
            }
            Request::GetStatusFlags { fd } => match fcntl_getfl(self.fd(fd)) {
                Ok(flags) => Reply::Flags(flags.bits()),
                Err(e) => failed(e),
            },
            Request::SetStatusFlags { fd, flags } => {
                done(fcntl_setfl(self.fd(fd), OFlags::from_bits_retain(flags)))
            }
            Request::SetTimer { fd, absolute, value } => {
                assert!(!absolute);
                let value = rustix::time::Itimerspec {
                    it_interval: timespec(value.it_interval),
                    it_value: timespec(value.it_value),
                };
                done(timerfd_settime(self.fd(fd), TimerfdTimerFlags::empty(), &value).map(|_| ()))
            }
            Request::Add { epoll_fd, fd, data, flags } => done(epoll::add(
                self.fd(epoll_fd),
                self.fd(fd),
                epoll::EventData::new_u64(data),
                epoll::EventFlags::from_bits_retain(flags),
            )),
            Request::Modify { epoll_fd, fd, data, flags } => done(epoll::modify(
                self.fd(epoll_fd),
                self.fd(fd),
                epoll::EventData::new_u64(data),
                epoll::EventFlags::from_bits_retain(flags),
            )),
            Request::Delete { epoll_fd, fd } => {
                done(epoll::delete(self.fd(epoll_fd), self.fd(fd)))
            }
            Request::Wait { epoll_fd, room, timeout } => {
                let mut buffer: Vec<MaybeUninit<epoll::Event>> = Vec::new();
                buffer.resize_with(room, MaybeUninit::uninit);
                let limit = timeout.map(timespec);
                match epoll::wait(self.fd(epoll_fd), &mut buffer[..], limit.as_ref()) {
                    Ok((ready, _)) => Reply::Ready(
                        ready
                            .iter()
                            .map(|ev| {
                                let flags = ev.flags;
                                let data = ev.data;
                                RawEvent { flags: flags.bits(), data: data.u64() }
                            })
                            .collect(),
                    ),
                    Err(e) => failed(e),
                }
            }
            Request::Read { fd, len } => {
                let mut buffer = vec![0u8; len];
                match read(self.fd(fd), &mut buffer[..]) {
                    Ok(n) => Reply::Count(n),
                    Err(e) => failed(e),
                }
            }
            Request::Close { fd } => {
                assert!(self.open.remove(&fd).is_some());
                Reply::Done
            }
        }
    }

    fn poller_on(&mut self, target: Target) -> Result<Poller, Errno> {
        let mut setup = Poller::new(target);
        while let Some(request) = setup.request() {
            let reply = self.perform(request);
            assert!(setup.step(&reply));
        }
        setup.outcome().unwrap()
    }

    fn poller(&mut self) -> Poller {
        self.poller_on(linux()).unwrap()
    }

    fn add(
        &mut self,
        poller: &Poller,
        fd: i32,
        ev: Event,
        mode: PollMode,
    ) -> Result<(), Errno> {
        self.perform(poller.add(fd, ev, mode)).result()
    }

    fn delete(&mut self, poller: &Poller, fd: i32) -> Result<(), Errno> {
        self.perform(poller.delete(fd)).result()
    }

    /// Waits, and tells how many events of sources the list holds.
    fn wait(
        &mut self,
        poller: &Poller,
        events: &mut Events,
        timeout: Option<Timeout>,
    ) -> Result<usize, Errno> {
        let list = std::mem::replace(events, Events::with_capacity(0));
        let mut task = poller.wait(list, timeout);
        while let Some(request) = task.request() {
            let reply = self.perform(request);
            assert!(task.step(reply));
        }
        let outcome = task.outcome().unwrap();
        *events = task.into_events();
        outcome?;
        Ok(events.delivered().len())
    }

    fn notify(&mut self, poller: &Poller) {
        let notification = poller.notify();
        let _ = rustix::io::write(self.fd(notification.fd), &notification.bytes);
    }

    fn write_all(&self, fd: i32, bytes: &[u8]) {
        assert_eq!(rustix::io::write(self.fd(fd), bytes).unwrap(), bytes.len());
    }

    fn read_exact(&self, fd: i32, bytes: &mut [u8]) {
        let mut got = 0;
        while got < bytes.len() {
            let n = read(self.fd(fd), &mut bytes[got..]).unwrap();
            assert!(n > 0);
            got += n;
        }
    }

    /// A connected pair of stream sockets.
    fn stream_pair(&mut self) -> (i32, i32) {
        let (a, b) =
            socketpair(AddressFamily::UNIX, SocketType::STREAM, SocketFlags::empty(), None)
                .unwrap();
        (self.adopt(a), self.adopt(b))
    }
}

fn linux() -> Target {
    Target {
        eventfd: true,
        timerfd: true,
        cloexec: FdFlags::CLOEXEC.bits(),
        nonblock: OFlags::NONBLOCK.bits(),
    }
}

fn secs(n: u64) -> Option<Timeout> {
    Timeout::new(n, 0)
}

#[test]
fn many_connections() {
    let mut kernel = Kernel::new();

    // Create 100 connections.
    let mut connections = Vec::new();
    for i in 0..100usize {
        let (reader, writer) = kernel.stream_pair();
        connections.push((i, reader, writer));
    }

    // Create a poller and add all the connections.
    let poller = kernel.poller();
    for (i, reader, _) in connections.iter() {
        kernel.add(&poller, *reader, Event::readable(*i), PollMode::Oneshot).unwrap();
    }

    let mut events = Events::with_capacity(1024);
    while !connections.is_empty() {
        // Choose a random connection to write to.
        let i = fastrand::usize(..connections.len());
        let (id, reader, writer) = connections.remove(i);

        // Write a byte to the connection.
        kernel.write_all(writer, &[1]);

        // Wait for the connection to become readable.
        kernel.wait(&poller, &mut events, secs(10)).unwrap();

        // Check that the connection is readable.
        let current_events = events.delivered();
        assert_eq!(current_events.len(), 1, "events: {:?}", current_events);
        assert_eq!(current_events[0].with_no_extra(), Event::readable(id));

        // Read the byte from the connection.
        let mut buf = [0];
        kernel.read_exact(reader, &mut buf);
        assert_eq!(buf, [1]);
        kernel.delete(&poller, reader).unwrap();
        events.clear();
    }
}

#[test]
fn level_triggered() {
    let mut kernel = Kernel::new();
    let poller1 = kernel.poller();
    let poller2 = kernel.poller();
    let mut events = Events::with_capacity(1024);

    if !poller1.supports_level() || !poller2.supports_level() {
        return;
    }

    // Register the source into both pollers.
    let (reader, writer) = kernel.stream_pair();
    kernel.add(&poller1, reader, Event::readable(1), PollMode::Level).unwrap();
    kernel.add(&poller2, reader, Event::readable(2), PollMode::Level).unwrap();

    // Neither poller should have any events.
    assert_eq!(kernel.wait(&poller1, &mut events, secs(1)).unwrap(), 0);
    assert!(events.delivered().is_empty());
    assert_eq!(kernel.wait(&poller2, &mut events, secs(1)).unwrap(), 0);
    assert!(events.delivered().is_empty());

    // Write to the source.
    kernel.write_all(writer, &[1]);

    // At least one poller should have an event.
    assert_eq!(kernel.wait(&poller1, &mut events, secs(1)).unwrap(), 1);
    assert_eq!(events.delivered().len(), 1);
    assert_eq!(events.delivered()[0].with_no_extra(), Event::readable(1));

    events.clear();
    // poller2 should have zero or one events.
    match kernel.wait(&poller2, &mut events, secs(1)) {
        Ok(1) => {
            assert_eq!(events.delivered().len(), 1);
            assert_eq!(events.delivered()[0].with_no_extra(), Event::readable(2));
        }
        Ok(0) => assert!(events.delivered().is_empty()),
        _ => panic!("unexpected error"),
    }

    // Writing more data should cause the same event.
    kernel.write_all(writer, &[1]);
    events.clear();
    assert_eq!(kernel.wait(&poller1, &mut events, secs(1)).unwrap(), 1);
    assert_eq!(events.delivered().len(), 1);
    assert_eq!(events.delivered()[0].with_no_extra(), Event::readable(1));

    // poller2 should have zero or one events.
    events.clear();
    match kernel.wait(&poller2, &mut events, secs(1)) {
        Ok(1) => {
            assert_eq!(events.delivered().len(), 1);
            assert_eq!(events.delivered()[0].with_no_extra(), Event::readable(2));
        }
        Ok(0) => assert!(events.delivered().is_empty()),
        _ => panic!("unexpected error"),
    }

    // Read from the source.
    kernel.read_exact(reader, &mut [0; 2]);

    // Both pollers should not have any events.
    events.clear();
    assert_eq!(kernel.wait(&poller1, &mut events, secs(1)).unwrap(), 0);
    assert!(events.delivered().is_empty());
    assert_eq!(kernel.wait(&poller2, &mut events, secs(1)).unwrap(), 0);
    assert!(events.delivered().is_empty());

    // Dereference the pollers.
    kernel.delete(&poller1, reader).unwrap();
    kernel.delete(&poller2, reader).unwrap();
}

#[test]
fn edge_triggered() {
    let mut kernel = Kernel::new();
    let poller1 = kernel.poller();
    let poller2 = kernel.poller();
    let mut events = Events::with_capacity(1024);

    if !poller1.supports_edge() || !poller2.supports_edge() {
        return;
    }

    // Register the source into both pollers.
    let (reader, writer) = kernel.stream_pair();
    kernel.add(&poller1, reader, Event::readable(1), PollMode::Edge).unwrap();
    kernel.add(&poller2, reader, Event::readable(2), PollMode::Edge).unwrap();

    // Neither poller should have any events.
    assert_eq!(kernel.wait(&poller1, &mut events, secs(1)).unwrap(), 0);
    assert!(events.delivered().is_empty());
    assert_eq!(kernel.wait(&poller2, &mut events, secs(1)).unwrap(), 0);
    assert!(events.delivered().is_empty());

    // Write to the source.
    kernel.write_all(writer, &[1]);

    // Both pollers should have an event.
    assert_eq!(kernel.wait(&poller1, &mut events, secs(1)).unwrap(), 1);
    assert_eq!(events.delivered().len(), 1);
    assert_eq!(events.delivered()[0].with_no_extra(), Event::readable(1));

    events.clear();
    assert_eq!(kernel.wait(&poller2, &mut events, secs(1)).unwrap(), 1);
    assert_eq!(events.delivered().len(), 1);
    assert_eq!(events.delivered()[0].with_no_extra(), Event::readable(2));

    // Writing to the poller again should cause an event.
    kernel.write_all(writer, &[1]);

    // Both pollers should have one event.
    events.clear();
    assert_eq!(kernel.wait(&poller1, &mut events, secs(1)).unwrap(), 1);
    assert_eq!(events.delivered().len(), 1);
    assert_eq!(events.delivered()[0].with_no_extra(), Event::readable(1));

    events.clear();
    assert_eq!(kernel.wait(&poller2, &mut events, secs(1)).unwrap(), 1);
    assert_eq!(events.delivered().len(), 1);
    assert_eq!(events.delivered()[0].with_no_extra(), Event::readable(2));

    // Read from the source.
    kernel.read_exact(reader, &mut [0; 2]);

    // Both pollers should not have any events.
    events.clear();
    assert_eq!(kernel.wait(&poller1, &mut events, secs(1)).unwrap(), 0);
    assert!(events.delivered().is_empty());
    assert_eq!(kernel.wait(&poller2, &mut events, secs(1)).unwrap(), 0);
    assert!(events.delivered().is_empty());

    // Dereference the pollers.
    kernel.delete(&poller1, reader).unwrap();
    kernel.delete(&poller2, reader).unwrap();
}

#[test]
fn oneshot_triggered() {
    let mut kernel = Kernel::new();
    let poller1 = kernel.poller();
    let poller2 = kernel.poller();
    let mut events = Events::with_capacity(1024);

    // Register the source into both pollers.
    let (reader, writer) = kernel.stream_pair();
    kernel.add(&poller1, reader, Event::readable(1), PollMode::Oneshot).unwrap();
    kernel.add(&poller2, reader, Event::readable(2), PollMode::Oneshot).unwrap();

    // Neither poller should have any events.
    assert_eq!(kernel.wait(&poller1, &mut events, secs(1)).unwrap(), 0);
    assert!(events.delivered().is_empty());
    assert_eq!(kernel.wait(&poller2, &mut events, secs(1)).unwrap(), 0);
    assert!(events.delivered().is_empty());

    // Write to the source.
    kernel.write_all(writer, &[1]);

    // Sources should have either one or no events.
    match kernel.wait(&poller1, &mut events, secs(1)) {
        Ok(1) => {
            assert_eq!(events.delivered().len(), 1);
            assert_eq!(events.delivered()[0].with_no_extra(), Event::readable(1));
        }
        Ok(0) => assert!(events.delivered().is_empty()),
        _ => panic!("unexpected error"),
    }
    events.clear();

    match kernel.wait(&poller2, &mut events, secs(1)) {
        Ok(1) => {
            assert_eq!(events.delivered().len(), 1);
            assert_eq!(events.delivered()[0].with_no_extra(), Event::readable(2));
        }
        Ok(0) => assert!(events.delivered().is_empty()),
        _ => panic!("unexpected error"),
    }
    events.clear();

    // Writing more data should not cause an event.
    kernel.write_all(writer, &[1]);

    // Sources should have no events.
    assert_eq!(kernel.wait(&poller1, &mut events, secs(1)).unwrap(), 0);
    assert!(events.delivered().is_empty());
    assert_eq!(kernel.wait(&poller2, &mut events, secs(1)).unwrap(), 0);
    assert!(events.delivered().is_empty());

    // Read from the source.
    kernel.read_exact(reader, &mut [0; 2]);

    // Sources should have no events.
    assert_eq!(kernel.wait(&poller1, &mut events, secs(1)).unwrap(), 0);
    assert!(events.delivered().is_empty());
    assert_eq!(kernel.wait(&poller2, &mut events, secs(1)).unwrap(), 0);
    assert!(events.delivered().is_empty());
}

/// A notification ends a wait without a timeout, again and again.
#[test]
fn notification_wakes_every_wait() {
    for eventfd in [true, false] {
        for timerfd in [true, false] {
            let mut kernel = Kernel::new();
            let poller = kernel.poller_on(Target { eventfd, timerfd, ..linux() }).unwrap();
            assert_eq!(matches!(poller.notifier, Notifier::EventFd(_)), eventfd);
            assert_eq!(poller.timer_fd.is_some(), timerfd);
            let mut events = Events::with_capacity(4);
            for _ in 0..3 {
                kernel.notify(&poller);
                kernel.notify(&poller);
                assert_eq!(kernel.wait(&poller, &mut events, None).unwrap(), 0);
                assert_eq!(events.iter().len(), 1);
                assert_eq!(events.iter()[0].with_no_extra(), Event::readable(NOTIFY_KEY));
                events.clear();
                // The notification was taken away.
                assert_eq!(kernel.wait(&poller, &mut events, secs(0)).unwrap(), 0);
                assert_eq!(events.iter().len(), 0);
            }
        }
    }
}

/// A timeout ends a wait with a timer and without one; only a timer reports.
#[test]
fn timeout_ends_wait() {
    for timerfd in [true, false] {
        let mut kernel = Kernel::new();
        let poller = kernel.poller_on(Target { timerfd, ..linux() }).unwrap();
        let mut events = Events::with_capacity(4);
        assert_eq!(kernel.wait(&poller, &mut events, Timeout::new(0, 20_000_000)).unwrap(), 0);
        assert_eq!(events.iter().len(), if timerfd { 1 } else { 0 });
    }
}

/// Taking a poller down leaves no descriptor of it open.
#[test]
fn teardown_closes_everything() {
    for eventfd in [true, false] {
        let mut kernel = Kernel::new();
        let poller = kernel.poller_on(Target { eventfd, ..linux() }).unwrap();
        assert_eq!(kernel.open.len(), if eventfd { 3 } else { 4 });
        for request in poller.teardown() {
            assert_eq!(kernel.perform(request), Reply::Done);
        }
        assert!(kernel.open.is_empty());
    }
}

/// Both ends of the fallback pipe close on execution, and reads of it do not
/// block.
#[test]
fn pipe_has_its_flags() {
    let mut kernel = Kernel::new();
    let poller = kernel.poller_on(Target { eventfd: false, ..linux() }).unwrap();
    if let Notifier::Pipe { read_pipe, write_pipe } = poller.notifier {
        assert!(fcntl_getfl(kernel.fd(read_pipe)).unwrap().contains(OFlags::NONBLOCK));
        assert!(fcntl_getfd(kernel.fd(read_pipe)).unwrap().contains(FdFlags::CLOEXEC));
        assert!(fcntl_getfd(kernel.fd(write_pipe)).unwrap().contains(FdFlags::CLOEXEC));
    } else {
        panic!("no pipe");
    }
}

/// A full list makes the wait fail and keeps its events.
#[test]
fn full_list_is_refused() {
    let mut kernel = Kernel::new();
    let poller = kernel.poller();
    let mut events = Events::with_capacity(1);
    kernel.notify(&poller);
    assert_eq!(kernel.wait(&poller, &mut events, None).unwrap(), 0);
    assert_eq!(events.room(), 0);
    let invalid = Errno(rustix::io::Errno::INVAL.raw_os_error());
    assert_eq!(kernel.wait(&poller, &mut events, None), Err(invalid));
    assert_eq!(events.iter().len(), 1);
}

/// The kernel refuses to register a descriptor twice, and to change or remove
/// one that is not registered.
#[test]
fn registration_errors() {
    let mut kernel = Kernel::new();
    let poller = kernel.poller();
    let (reader, _) = kernel.stream_pair();
    let exists = Errno(rustix::io::Errno::EXIST.raw_os_error());
    let missing = Errno(rustix::io::Errno::NOENT.raw_os_error());
    assert_eq!(kernel.delete(&poller, reader), Err(missing));
    let change = poller.modify(reader, Event::readable(1), PollMode::Level);
    assert_eq!(kernel.perform(change).result(), Err(missing));
    assert_eq!(kernel.add(&poller, reader, Event::readable(1), PollMode::Level), Ok(()));
    assert_eq!(
        kernel.add(&poller, reader, Event::readable(1), PollMode::Level),
        Err(exists)
    );
    assert_eq!(kernel.perform(change).result(), Ok(()));
    assert_eq!(kernel.delete(&poller, reader), Ok(()));
}

/// However many notifications there were since the last wait, the next one
/// reports one event of the poller's own; without any it reports none.
#[test]
fn notifications_are_reported_once() {
    for eventfd in [true, false] {
        for timerfd in [true, false] {
            let mut kernel = Kernel::new();
            let poller = kernel.poller_on(Target { eventfd, timerfd, ..linux() }).unwrap();
            let (reader, writer) = kernel.stream_pair();
            kernel.add(&poller, reader, Event::readable(7), PollMode::Level).unwrap();
            kernel.write_all(writer, &[1]);
            let mut events = Events::with_capacity(2);
            for times in [0, 1, 2, 0, 1500, 0] {
                kernel.wait(&poller, &mut events, secs(0)).unwrap();
                events.clear();
                for _ in 0..times {
                    kernel.notify(&poller);
                }
                assert_eq!(kernel.wait(&poller, &mut events, secs(0)), Ok(1));
                let own = events.iter().iter().filter(|ev| ev.key == NOTIFY_KEY).count();
                assert_eq!(own, if times > 0 { 1 } else { 0 });
                events.clear();
            }
        }
    }
}

/// The answers to the reads of one clear.
fn clear(kernel: &mut Kernel, notifier: &Notifier) -> Vec<Reply> {
    let mut replies = Vec::new();
    loop {
        let reply = kernel.perform(notifier.clear());
        let again = notifier.clear_again(&reply);
        replies.push(reply);
        if !again {
            return replies;
        }
    }
}

/// A clear takes every notification away, another one finds nothing, and a new
/// notification is there again.
#[test]
fn clear_leaves_nothing() {
    let nothing = failed(rustix::io::Errno::AGAIN);
    for eventfd in [true, false] {
        let mut kernel = Kernel::new();
        let poller = kernel.poller_on(Target { eventfd, ..linux() }).unwrap();
        for times in [0usize, 1, 1023, 1024, 1025, 3000] {
            for _ in 0..times {
                kernel.notify(&poller);
            }
            let replies = clear(&mut kernel, &poller.notifier);
            if eventfd {
                assert_eq!(replies.len(), 1);
                assert_eq!(replies[0] == Reply::Count(8), times > 0);
            } else {
                assert_eq!(replies.len(), (times + 1023) / 1024 + 1);
                assert_eq!(replies.last(), Some(&nothing));
            }
            let replies = clear(&mut kernel, &poller.notifier);
            assert_eq!(replies.len(), 1);
            assert_eq!(replies[0], nothing);
            kernel.notify(&poller);
            let reply = kernel.perform(poller.notifier.clear());
            assert_eq!(reply, Reply::Count(if eventfd { 8 } else { 1 }));
        }
    }
}

/// A descriptor that was added, modified and deleted can be added again, and
/// reports as if it had never been there.
#[test]
fn delete_undoes_add() {
    let mut kernel = Kernel::new();
    let poller = kernel.poller();
    let (reader, writer) = kernel.stream_pair();
    kernel.write_all(writer, &[1]);
    let mut events = Events::with_capacity(4);
    for changes in 0..3 {
        kernel.add(&poller, reader, Event::readable(1), PollMode::Level).unwrap();
        for key in 0..changes {
            let change = poller.modify(reader, Event::readable(key + 2), PollMode::Edge);
            assert_eq!(kernel.perform(change).result(), Ok(()));
        }
        assert_eq!(kernel.wait(&poller, &mut events, secs(0)), Ok(1));
        assert_eq!(events.delivered()[0].with_no_extra(), Event::readable(changes + 1));
        kernel.delete(&poller, reader).unwrap();
        events.clear();
        assert_eq!(kernel.wait(&poller, &mut events, secs(0)), Ok(0));
    }
}

/// The first wait of a poller sees a notification, whatever its time limit.
#[test]
fn first_wait_sees_notification() {
    for eventfd in [true, false] {
        for timerfd in [true, false] {
            for limit in [None, secs(0), secs(10)] {
                let mut kernel = Kernel::new();
                let poller = kernel.poller_on(Target { eventfd, timerfd, ..linux() }).unwrap();
                kernel.notify(&poller);
                let mut events = Events::with_capacity(2);
                assert_eq!(kernel.wait(&poller, &mut events, limit), Ok(0));
                assert_eq!(events.iter().len(), 1);
                assert_eq!(events.iter()[0].with_no_extra(), Event::readable(NOTIFY_KEY));
            }
        }
    }
}

/// A notification that arrives during a wait is seen by that wait if events were
/// not reported yet, or else by the next one unless it was taken away.
#[test]
fn notification_during_wait() {
    for eventfd in [true, false] {
        let mut kernel = Kernel::new();
        let poller = kernel.poller_on(Target { eventfd, ..linux() }).unwrap();
        let last = if eventfd { 4 } else { 5 };
        for at in 0..last + 1 {
            let mut task = poller.wait(Events::with_capacity(2), secs(0));
            let mut asked = 0;
            while let Some(request) = task.request() {
                if asked == at {
                    kernel.notify(&poller);
                }
                let reply = kernel.perform(request);
                assert!(task.step(reply));
                asked += 1;
            }
            assert_eq!(task.outcome(), Some(Ok(())));
            assert_eq!(task.into_events().iter().len(), if at <= 2 { 1 } else { 0 });
            let mut events = Events::with_capacity(2);
            assert_eq!(kernel.wait(&poller, &mut events, secs(0)), Ok(0));
            // Only what arrived behind the last read is left.
            let left = asked - 1 == at;
            assert_eq!(events.iter().len(), if left { 1 } else { 0 });
        }
    }
}

/// A wait that fails leaves the notification for the next one.
#[test]
fn failed_wait_keeps_notification() {
    for eventfd in [true, false] {
        let mut kernel = Kernel::new();
        let poller = kernel.poller_on(Target { eventfd, ..linux() }).unwrap();
        let mut events = Events::with_capacity(1);
        kernel.notify(&poller);
        assert_eq!(kernel.wait(&poller, &mut events, None), Ok(0));
        kernel.notify(&poller);
        let invalid = Errno(rustix::io::Errno::INVAL.raw_os_error());
        assert_eq!(kernel.wait(&poller, &mut events, None), Err(invalid));
        events.clear();
        assert_eq!(kernel.wait(&poller, &mut events, None), Ok(0));
        assert_eq!(events.iter().len(), 1);
    }
}
