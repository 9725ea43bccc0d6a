//! The requests of creations and waits against scripted answers.

use polling::event::{Event, PollMode, NOTIFY_KEY};
use polling::events::{Events, RawEvent};
use polling::notifier::Notifier;
use polling::poller::Poller;
use polling::request::{Errno, Reply, Request};
use polling::setup::Target;
use polling::time::{Itimerspec, Timeout, Timespec};
use polling::wait::WaitTask;

const FULL: Target = Target { eventfd: true, timerfd: true, cloexec: 0x1, nonblock: 0x800 };
const BARE: Target = Target { eventfd: false, timerfd: false, cloexec: 0x1, nonblock: 0x800 };

fn failed(n: i32) -> Reply {
    Reply::Failed(Errno(n))
}

/// The requests of a creation against the given answers, and its outcome.
fn create(
    target: Target,
    replies: Vec<Reply>,
) -> (Vec<Request>, Option<Result<Poller, Errno>>) {
    let mut setup = Poller::new(target);
    let mut requests = Vec::new();
    for reply in replies {
        requests.push(setup.request().unwrap());
        assert!(setup.step(&reply));
    }
    assert_eq!(setup.request().is_none(), setup.outcome().is_some());
    (requests, setup.outcome())
}

fn run(task: &mut WaitTask, replies: Vec<Reply>) -> Vec<Request> {
    let mut requests = Vec::new();
    for reply in replies {
        requests.push(task.request().unwrap());
        assert!(task.step(reply));
    }
    assert_eq!(task.request().is_none(), task.outcome().is_some());
    requests
}

const TIMED: Poller = Poller { epoll_fd: 3, notifier: Notifier::EventFd(4), timer_fd: Some(5) };
const PIPED: Poller = Poller {
    epoll_fd: 3,
    notifier: Notifier::Pipe { read_pipe: 4, write_pipe: 5 },
    timer_fd: None,
};
const OWN: u64 = NOTIFY_KEY as u64;

#[test]
fn creation_succeeds() {
    let (requests, outcome) = create(
        FULL,
        vec![
            Reply::Descriptor(3),
            Reply::Descriptor(4),
            Reply::Descriptor(5),
            Reply::Done,
            Reply::Done,
        ],
    );
    assert_eq!(
        requests,
        vec![
            Request::EpollCreate { cloexec: true },
            Request::EventFdCreate { initial: 0, cloexec: true, nonblock: true },
            Request::TimerFdCreate { monotonic: true, cloexec: true, nonblock: true },
            Request::Add { epoll_fd: 3, fd: 5, data: OWN, flags: 0x4000_0000 },
            Request::Add { epoll_fd: 3, fd: 4, data: OWN, flags: 0x4000_001b },
        ]
    );
    assert_eq!(outcome, Some(Ok(TIMED)));
}

#[test]
fn creation_falls_back_to_plain_pipe_and_no_timer() {
    let (requests, outcome) = create(
        FULL,
        vec![
            Reply::Descriptor(3),
            failed(38),
            failed(22),
            Reply::Pair(4, 5),
            Reply::Flags(0x40),
            Reply::Done,
            Reply::Flags(0x80),
            Reply::Done,
            Reply::Flags(0x1),
            Reply::Done,
            failed(24),
            Reply::Done,
        ],
    );
    assert_eq!(
        requests,
        vec![
            Request::EpollCreate { cloexec: true },
            Request::EventFdCreate { initial: 0, cloexec: true, nonblock: true },
            Request::PipeWith { cloexec: true },
            Request::Pipe,
            Request::GetFdFlags { fd: 4 },
            Request::SetFdFlags { fd: 4, flags: 0x41 },
            Request::GetFdFlags { fd: 5 },
            Request::SetFdFlags { fd: 5, flags: 0x81 },
            Request::GetStatusFlags { fd: 4 },
            Request::SetStatusFlags { fd: 4, flags: 0x801 },
            Request::TimerFdCreate { monotonic: true, cloexec: true, nonblock: true },
            Request::Add { epoll_fd: 3, fd: 4, data: OWN, flags: 0x4000_001b },
        ]
    );
    assert_eq!(outcome, Some(Ok(PIPED)));
}

#[test]
fn creation_adds_the_words_of_the_platform() {
    let target = Target { cloexec: 0x0100_0000, nonblock: 0x4, ..BARE };
    let (requests, outcome) = create(
        target,
        vec![
            Reply::Descriptor(3),
            failed(22),
            Reply::Pair(4, 5),
            Reply::Flags(0),
            Reply::Done,
            Reply::Flags(0x2),
            Reply::Done,
            Reply::Flags(0x1),
            Reply::Done,
            Reply::Done,
        ],
    );
    assert_eq!(requests[4], Request::SetFdFlags { fd: 4, flags: 0x0100_0000 });
    assert_eq!(requests[6], Request::SetFdFlags { fd: 5, flags: 0x0100_0002 });
    assert_eq!(requests[8], Request::SetStatusFlags { fd: 4, flags: 0x5 });
    assert_eq!(outcome, Some(Ok(PIPED)));
}

#[test]
fn creation_on_a_bare_platform() {
    let (requests, outcome) = create(
        BARE,
        vec![
            Reply::Descriptor(3),
            Reply::Pair(4, 5),
            Reply::Flags(0x2),
            Reply::Done,
            Reply::Done,
        ],
    );
    assert_eq!(
        requests,
        vec![
            Request::EpollCreate { cloexec: true },
            Request::PipeWith { cloexec: true },
            Request::GetStatusFlags { fd: 4 },
            Request::SetStatusFlags { fd: 4, flags: 0x802 },
            Request::Add { epoll_fd: 3, fd: 4, data: OWN, flags: 0x4000_001b },
        ]
    );
    assert_eq!(outcome, Some(Ok(PIPED)));
}

#[test]
fn creation_without_epoll_fails() {
    let (requests, outcome) = create(FULL, vec![failed(24)]);
    assert_eq!(requests, vec![Request::EpollCreate { cloexec: true }]);
    assert_eq!(outcome, Some(Err(Errno(24))));
}

#[test]
fn creation_without_pipe_closes_epoll() {
    let (requests, outcome) = create(
        FULL,
        vec![Reply::Descriptor(3), failed(1), failed(2), failed(24), Reply::Done],
    );
    assert_eq!(requests[4], Request::Close { fd: 3 });
    assert_eq!(outcome, Some(Err(Errno(24))));
}

#[test]
fn failures_on_the_pipe_close_both_ends() {
    let answers: [fn() -> Reply; 6] = [
        || Reply::Flags(0),
        || Reply::Done,
        || Reply::Flags(0),
        || Reply::Done,
        || Reply::Flags(0),
        || Reply::Done,
    ];
    for at in 0..6 {
        let mut replies = vec![Reply::Descriptor(3), failed(1), failed(2), Reply::Pair(4, 5)];
        for answer in &answers[..at] {
            replies.push(answer());
        }
        replies.push(failed(9));
        let n = replies.len();
        replies.push(failed(5));
        replies.push(Reply::Done);
        replies.push(Reply::Done);
        let (requests, outcome) = create(FULL, replies);
        assert_eq!(
            requests[n..],
            [Request::Close { fd: 5 }, Request::Close { fd: 4 }, Request::Close { fd: 3 }]
        );
        assert_eq!(outcome, Some(Err(Errno(9))));
    }
}

#[test]
fn failed_registration_of_the_timer_takes_down() {
    let (requests, outcome) = create(
        FULL,
        vec![
            Reply::Descriptor(3),
            Reply::Descriptor(4),
            Reply::Descriptor(5),
            failed(28),
            failed(2),
            Reply::Done,
            failed(2),
            Reply::Done,
            Reply::Done,
        ],
    );
    assert_eq!(
        requests[4..],
        [
            Request::Delete { epoll_fd: 3, fd: 5 },
            Request::Close { fd: 5 },
            Request::Delete { epoll_fd: 3, fd: 4 },
            Request::Close { fd: 3 },
            Request::Close { fd: 4 },
        ]
    );
    assert_eq!(outcome, Some(Err(Errno(28))));
}

#[test]
fn failed_registration_of_the_notifier_takes_down() {
    let (requests, outcome) = create(
        BARE,
        vec![
            Reply::Descriptor(3),
            Reply::Pair(4, 5),
            Reply::Flags(0),
            Reply::Done,
            failed(28),
            failed(2),
            Reply::Done,
            Reply::Done,
            Reply::Done,
        ],
    );
    assert_eq!(requests[5..], PIPED.teardown()[..]);
    assert_eq!(
        requests[5..],
        [
            Request::Delete { epoll_fd: 3, fd: 4 },
            Request::Close { fd: 3 },
            Request::Close { fd: 4 },
            Request::Close { fd: 5 },
        ]
    );
    assert_eq!(outcome, Some(Err(Errno(28))));
}

#[test]
fn longest_creation() {
    let (requests, outcome) = create(
        FULL,
        vec![
            Reply::Descriptor(3),
            failed(1),
            failed(1),
            Reply::Pair(4, 5),
            Reply::Flags(0),
            Reply::Done,
            Reply::Flags(0),
            Reply::Done,
            Reply::Flags(0),
            Reply::Done,
            Reply::Descriptor(6),
            Reply::Done,
            failed(12),
            Reply::Done,
            Reply::Done,
            Reply::Done,
            Reply::Done,
            Reply::Done,
            Reply::Done,
        ],
    );
    assert_eq!(requests.len(), 19);
    assert_eq!(outcome, Some(Err(Errno(12))));
}

#[test]
fn answers_of_another_kind_are_refused() {
    let mut setup = Poller::new(FULL);
    let before = setup;
    assert!(!setup.step(&Reply::Done));
    assert!(!setup.step(&Reply::Pair(1, 2)));
    assert!(!setup.step(&Reply::Flags(1)));
    assert!(!setup.step(&Reply::Count(1)));
    assert!(!setup.step(&Reply::Ready(Vec::new())));
    assert_eq!(setup, before);
    let mut task = PIPED.wait(Events::with_capacity(1), None);
    let event = RawEvent { flags: 1, data: 1 };
    assert!(!task.step(Reply::Done));
    assert!(!task.step(Reply::Ready(vec![event, event])));
    assert!(task.step(Reply::Ready(vec![event])));
    assert!(!task.step(Reply::Done));
}

#[test]
fn registration_requests() {
    let mut ev = Event::readable(7);
    ev.extra.set_hup(true);
    assert_eq!(
        TIMED.add(9, ev, PollMode::Level),
        Request::Add { epoll_fd: 3, fd: 9, data: 7, flags: 0x1b }
    );
    let mut ev = Event::none(7);
    ev.extra.set_pri(true);
    assert_eq!(
        TIMED.modify(9, ev, PollMode::EdgeOneshot),
        Request::Modify { epoll_fd: 3, fd: 9, data: 7, flags: 0xc000_0002 }
    );
    assert_eq!(TIMED.delete(9), Request::Delete { epoll_fd: 3, fd: 9 });
    assert_eq!(TIMED.as_raw_fd(), 3);
    assert!(TIMED.supports_level());
    assert!(TIMED.supports_edge());
}

#[test]
fn results_of_replies() {
    assert_eq!(Reply::Done.result(), Ok(()));
    assert_eq!(failed(9).result(), Err(Errno(9)));
}

#[test]
fn wait_with_timer() {
    let mut task = TIMED.wait(Events::with_capacity(8), Timeout::new(1, 5));
    let event = RawEvent { flags: 1, data: 7 };
    let requests = run(
        &mut task,
        vec![Reply::Done, Reply::Done, Reply::Ready(vec![event]), failed(11), Reply::Done],
    );
    let zero = Timespec { tv_sec: 0, tv_nsec: 0 };
    assert_eq!(
        requests,
        vec![
            Request::SetTimer {
                fd: 5,
                absolute: false,
                value: Itimerspec {
                    it_interval: zero,
                    it_value: Timespec { tv_sec: 1, tv_nsec: 5 },
                },
            },
            Request::Modify { epoll_fd: 3, fd: 5, data: OWN, flags: 0x4000_001b },
            Request::Wait { epoll_fd: 3, room: 8, timeout: None },
            Request::Read { fd: 4, len: 8 },
            Request::Modify { epoll_fd: 3, fd: 4, data: OWN, flags: 0x4000_001b },
        ]
    );
    assert_eq!(task.outcome(), Some(Ok(())));
    let events = task.into_events();
    assert_eq!(events.iter().len(), 1);
    assert_eq!(events.iter()[0].with_no_extra(), Event::readable(7));
    assert_eq!(events.capacity(), 8);
    assert_eq!(events.room(), 7);
}

#[test]
fn wait_reads_a_pipe_until_it_fails() {
    let mut task = PIPED.wait(Events::with_capacity(8), Timeout::new(1, 5));
    let requests = run(
        &mut task,
        vec![
            Reply::Ready(Vec::new()),
            Reply::Count(1024),
            Reply::Count(0),
            Reply::Count(3),
            failed(11),
            Reply::Done,
        ],
    );
    let drain = Request::Read { fd: 4, len: 1024 };
    assert_eq!(
        requests,
        vec![
            Request::Wait {
                epoll_fd: 3,
                room: 8,
                timeout: Some(Timespec { tv_sec: 1, tv_nsec: 5 }),
            },
            drain,
            drain,
            drain,
            drain,
            Request::Modify { epoll_fd: 3, fd: 4, data: OWN, flags: 0x4000_001b },
        ]
    );
    assert_eq!(task.outcome(), Some(Ok(())));
}

#[test]
fn failures_end_a_wait() {
    let event = RawEvent { flags: 1, data: 7 };
    let mut task = TIMED.wait(Events::with_capacity(8), None);
    run(&mut task, vec![failed(22)]);
    assert_eq!(task.outcome(), Some(Err(Errno(22))));
    let mut task = TIMED.wait(Events::with_capacity(8), None);
    run(&mut task, vec![Reply::Done, failed(2)]);
    assert_eq!(task.outcome(), Some(Err(Errno(2))));
    let mut task = TIMED.wait(Events::with_capacity(8), None);
    run(&mut task, vec![Reply::Done, Reply::Done, failed(4)]);
    assert_eq!(task.outcome(), Some(Err(Errno(4))));
    assert!(task.into_events().iter().is_empty());
    let mut task = TIMED.wait(Events::with_capacity(8), None);
    run(
        &mut task,
        vec![Reply::Done, Reply::Done, Reply::Ready(vec![event]), Reply::Count(8), failed(9)],
    );
    assert_eq!(task.outcome(), Some(Err(Errno(9))));
    assert_eq!(task.into_events().iter().len(), 1);
}

#[test]
fn waits_append_to_the_list() {
    let mut events = Events::with_capacity(3);
    for key in 0..2u64 {
        let mut task = PIPED.wait(events, None);
        let ready = vec![RawEvent { flags: 4, data: key }];
        run(&mut task, vec![Reply::Ready(ready), failed(11), Reply::Done]);
        events = task.into_events();
    }
    let own = vec![RawEvent { flags: 1, data: OWN }];
    let mut task = PIPED.wait(events, None);
    assert_eq!(task.request(), Some(Request::Wait { epoll_fd: 3, room: 1, timeout: None }));
    run(&mut task, vec![Reply::Ready(own), failed(11), Reply::Done]);
    events = task.into_events();
    let keys: Vec<usize> = events.iter().iter().map(|ev| ev.key).collect();
    assert_eq!(keys, vec![0, 1, NOTIFY_KEY]);
    let keys: Vec<usize> = events.delivered().iter().map(|ev| ev.key).collect();
    assert_eq!(keys, vec![0, 1]);
    events.clear();
    assert!(events.iter().is_empty());
    assert_eq!(events.room(), 3);
}

#[test]
fn notifications() {
    let notification = TIMED.notify();
    assert_eq!(notification.fd, 4);
    assert_eq!(notification.bytes, 1u64.to_ne_bytes().to_vec());
    let notification = PIPED.notify();
    assert_eq!(notification.fd, 5);
    assert_eq!(notification.bytes, vec![0]);
}

#[test]
fn clearing() {
    let event = Notifier::EventFd(4);
    assert_eq!(event.as_fd(), 4);
    assert_eq!(event.clear(), Request::Read { fd: 4, len: 8 });
    assert!(!event.clear_again(&Reply::Count(8)));
    assert!(!event.clear_again(&failed(11)));
    let pipe = Notifier::Pipe { read_pipe: 4, write_pipe: 5 };
    assert_eq!(pipe.as_fd(), 4);
    assert_eq!(pipe.clear(), Request::Read { fd: 4, len: 1024 });
    assert!(pipe.clear_again(&Reply::Count(1)));
    assert!(pipe.clear_again(&Reply::Count(0)));
    assert!(!pipe.clear_again(&failed(11)));
}

#[test]
fn limit_of_the_list_stays() {
    let event = RawEvent { flags: 1, data: 7 };
    let mut events = Events::with_capacity(2);
    for round in 0..3 {
        for used in 0..2 {
            let mut task = PIPED.wait(events, None);
            assert!(!task.step(Reply::Ready(vec![event; 3 - used])));
            run(&mut task, vec![Reply::Ready(vec![event]), failed(11), Reply::Done]);
            events = task.into_events();
            assert_eq!(events.capacity(), 2);
            assert_eq!(events.room(), 1 - used);
        }
        if round == 1 {
            // A wait that is given up in the middle gives the list back as well.
            let task = PIPED.wait(events, None);
            events = task.into_events();
            assert_eq!(events.iter().len(), 2);
        }
        events.clear();
        assert_eq!(events.capacity(), 2);
        assert_eq!(events.room(), 2);
    }
}
