//! The flags, the events and the time limits on given values.

use polling::event::{Event, EventExtra, PollMode, NOTIFY_KEY};
use polling::events::{interpret, Events, RawEvent};
use polling::flags::{epoll_flags, read_flags, write_flags};
use polling::flags::{EPOLLERR, EPOLLET, EPOLLHUP, EPOLLIN, EPOLLONESHOT, EPOLLOUT, EPOLLPRI};
use polling::time::{timer_setting, wait_timeout, Timeout, Timespec};

#[test]
fn readiness_flags() {
    assert_eq!(read_flags(), 0x1b);
    assert_eq!(write_flags(), 0x1c);
}

#[test]
fn constants_are_those_of_the_kernel() {
    assert_eq!(EPOLLIN, rustix::event::epoll::EventFlags::IN.bits());
    assert_eq!(EPOLLPRI, rustix::event::epoll::EventFlags::PRI.bits());
    assert_eq!(EPOLLOUT, rustix::event::epoll::EventFlags::OUT.bits());
    assert_eq!(EPOLLERR, rustix::event::epoll::EventFlags::ERR.bits());
    assert_eq!(EPOLLHUP, rustix::event::epoll::EventFlags::HUP.bits());
    assert_eq!(EPOLLONESHOT, rustix::event::epoll::EventFlags::ONESHOT.bits());
    assert_eq!(EPOLLET, rustix::event::epoll::EventFlags::ET.bits());
}

#[test]
fn flags_of_modes_and_interests() {
    let none = Event::none(7);
    assert_eq!(epoll_flags(&none, PollMode::Oneshot), 0x4000_0000);
    assert_eq!(epoll_flags(&none, PollMode::Level), 0);
    assert_eq!(epoll_flags(&none, PollMode::Edge), 0x8000_0000);
    assert_eq!(epoll_flags(&none, PollMode::EdgeOneshot), 0xc000_0000);
    assert_eq!(epoll_flags(&Event::readable(7), PollMode::Level), 0x1b);
    assert_eq!(epoll_flags(&Event::new(7, false, true), PollMode::Level), 0x1c);
    assert_eq!(epoll_flags(&Event::new(7, true, true), PollMode::Oneshot), 0x4000_001f);
}

#[test]
fn extra_starts_empty() {
    let extra = EventExtra::empty();
    assert_eq!(extra.flags, 0);
    assert!(!extra.is_hup());
    assert!(!extra.is_pri());
    assert_eq!(extra.is_err(), Some(false));
    assert_eq!(extra.is_connect_failed(), Some(false));
}

#[test]
fn extra_flags_are_set_and_taken_away() {
    let mut extra = EventExtra::empty();
    extra.set_hup(true);
    assert!(extra.is_hup());
    assert!(!extra.is_pri());
    assert_eq!(extra.flags, 0x10);
    extra.set_pri(true);
    assert!(extra.is_hup());
    assert!(extra.is_pri());
    assert_eq!(extra.flags, 0x12);
    extra.set_hup(false);
    assert!(!extra.is_hup());
    assert!(extra.is_pri());
    extra.set_pri(false);
    assert_eq!(extra, EventExtra::empty());
    extra.set_pri(false);
    assert_eq!(extra, EventExtra::empty());
}

#[test]
fn setting_keeps_other_flags() {
    let mut extra = EventExtra { flags: 0xffff_ffff };
    extra.set_pri(false);
    assert_eq!(extra.flags, 0xffff_fffd);
    extra.set_hup(false);
    assert_eq!(extra.flags, 0xffff_ffed);
}

#[test]
fn failed_connection_needs_both_flags() {
    assert_eq!(EventExtra { flags: EPOLLERR }.is_connect_failed(), Some(false));
    assert_eq!(EventExtra { flags: EPOLLHUP }.is_connect_failed(), Some(false));
    assert_eq!(EventExtra { flags: EPOLLERR | EPOLLHUP }.is_connect_failed(), Some(true));
    assert_eq!(EventExtra { flags: EPOLLERR }.is_err(), Some(true));
    assert_eq!(EventExtra { flags: EPOLLHUP }.is_err(), Some(false));
}

#[test]
fn reported_events() {
    let event = interpret(&RawEvent { flags: EPOLLIN, data: 5 });
    assert_eq!(event.with_no_extra(), Event::readable(5));
    assert_eq!(event.extra.flags, EPOLLIN);
    let event = interpret(&RawEvent { flags: EPOLLOUT, data: 6 });
    assert_eq!(event.with_no_extra(), Event::new(6, false, true));
    let event = interpret(&RawEvent { flags: EPOLLPRI, data: 7 });
    assert_eq!(event.with_no_extra(), Event::readable(7));
    let event = interpret(&RawEvent { flags: EPOLLERR, data: 8 });
    assert_eq!(event.with_no_extra(), Event::new(8, true, true));
    assert_eq!(event.is_err(), Some(true));
    let event = interpret(&RawEvent { flags: EPOLLHUP, data: 9 });
    assert_eq!(event.with_no_extra(), Event::new(9, true, true));
    assert_eq!(event.is_err(), Some(false));
    let event = interpret(&RawEvent { flags: 0x2000, data: 10 });
    assert_eq!(event.with_no_extra(), Event::none(10));
    assert_eq!(event.extra.flags, 0x2000);
}

#[test]
fn keys_come_back() {
    for key in [0, 1, 100, usize::MAX - 1, NOTIFY_KEY] {
        assert_eq!(interpret(&RawEvent { flags: 0, data: key as u64 }).key, key);
    }
}

#[test]
fn empty_list() {
    let mut events = Events::with_capacity(16);
    assert_eq!(events.capacity(), 16);
    assert_eq!(events.room(), 16);
    assert!(events.iter().is_empty());
    assert!(events.delivered().is_empty());
    events.clear();
    assert_eq!(events.capacity(), 16);
}

#[test]
fn timeouts_have_less_than_a_second_of_nanoseconds() {
    assert!(Timeout::new(0, 999_999_999).is_some());
    assert!(Timeout::new(0, 1_000_000_000).is_none());
    assert!(Timeout::new(0, 0).unwrap().is_zero());
    assert!(!Timeout::new(0, 1).unwrap().is_zero());
    assert!(!Timeout::new(1, 0).unwrap().is_zero());
}

#[test]
fn timer_settings() {
    let setting = timer_setting(Timeout::new(3, 4));
    assert_eq!(setting.it_interval, Timespec { tv_sec: 0, tv_nsec: 0 });
    assert_eq!(setting.it_value, Timespec { tv_sec: 3, tv_nsec: 4 });
    let setting = timer_setting(None);
    assert_eq!(setting.it_interval, Timespec::zero());
    assert_eq!(setting.it_value, Timespec::zero());
    let setting = timer_setting(Timeout::new(u64::MAX, 0));
    assert_eq!(setting.it_value, Timespec { tv_sec: -1, tv_nsec: 0 });
}

#[test]
fn limits_of_waits() {
    let zero = Some(Timespec { tv_sec: 0, tv_nsec: 0 });
    assert_eq!(wait_timeout(true, None), None);
    assert_eq!(wait_timeout(false, None), None);
    assert_eq!(wait_timeout(true, Timeout::new(0, 0)), zero);
    assert_eq!(wait_timeout(false, Timeout::new(0, 0)), zero);
    assert_eq!(wait_timeout(true, Timeout::new(3, 4)), None);
    assert_eq!(
        wait_timeout(false, Timeout::new(3, 4)),
        Some(Timespec { tv_sec: 3, tv_nsec: 4 })
    );
    assert_eq!(
        wait_timeout(false, Timeout::new(i64::MAX as u64, 999_999_999)),
        Some(Timespec { tv_sec: i64::MAX, tv_nsec: 999_999_999 })
    );
    assert_eq!(wait_timeout(false, Timeout::new(i64::MAX as u64 + 1, 0)), None);
}
