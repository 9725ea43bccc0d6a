//! A wait for events.

use crate::event::{Event, PollMode, NOTIFY_KEY};
use crate::events::{Events, RawEvent};
use crate::poller::{own_interest, Poller};
use crate::request::{Errno, Reply, Request};
use crate::time::{timer_setting, timer_value, wait_limit, wait_timeout, Timeout};
use vstd::prelude::*;

verus! {

/// How far a wait has come.
#[derive(Debug, Clone, Copy, PartialEq, Eq)]
pub enum WaitStage {
    /// The timer is being set to the timeout.
    SettingTimer(i32),
    /// The interest in the timer is being set.
    ArmingTimer(i32),
    /// Events are being waited for.
    Waiting,
    /// Notifications are being taken away.
    Clearing,
    /// The interest in the notifier is being set again.
    Rearming,
    /// The wait has ended.
    Finished(Result<(), Errno>),
}

/// A wait for I/O events, which appends them to a list.
#[derive(Debug)]
pub struct WaitTask {
    poller: Poller,
    timeout: Option<Timeout>,
    events: Events,
    stage: WaitStage,
}

/// The state of a wait.
pub struct WaitView {
    /// The poller.
    pub poller: Poller,
    /// The timeout.
    pub timeout: Option<Timeout>,
    /// The list of events.
    pub events: Seq<RawEvent>,
    /// The number of events that the list can hold.
    pub limit: usize,
    /// How far it has come.
    pub stage: WaitStage,
}

impl View for WaitTask {
    type V = WaitView;

    closed spec fn view(&self) -> WaitView {
        WaitView {
            poller: self.poller,
            timeout: self.timeout,
            events: self.events@,
            limit: self.events.limit(),
            stage: self.stage,
        }
    }
}

impl WaitView {
    /// Whether the list is within its limit.
    pub open spec fn wf(self) -> bool {
        self.events.len() <= self.limit
    }

    /// The start of a wait. With a timer, that is set first.
    pub open spec fn start(
        poller: Poller,
        events: Seq<RawEvent>,
        limit: usize,
        timeout: Option<Timeout>,
    ) -> WaitView {
        WaitView {
            poller,
            timeout,
            events,
            limit,
            stage: match poller.timer_fd {
                Some(timer_fd) => WaitStage::SettingTimer(timer_fd),
                None => WaitStage::Waiting,
            },
        }
    }

    /// The request that sets the timer to the timeout.
    pub open spec fn set_timer_request(self, timer_fd: i32) -> Request {
        Request::SetTimer { fd: timer_fd, absolute: false, value: timer_value(self.timeout) }
    }

    /// The request that sets the interest in the timer.
    pub open spec fn arm_timer_request(self, timer_fd: i32) -> Request {
        self.poller.modify_request(timer_fd, own_interest(), PollMode::Oneshot)
    }

    /// The request that waits for as many events as the list has room for.
    pub open spec fn wait_request(self) -> Request {
        Request::Wait {
            epoll_fd: self.poller.epoll_fd,
            room: (self.limit - self.events.len()) as usize,
            timeout: wait_limit(self.poller.timer_fd is Some, self.timeout),
        }
    }

    /// The request that waits for an answer, until the wait has ended.
    pub open spec fn pending(self) -> Option<Request> {
        match self.stage {
            WaitStage::SettingTimer(timer_fd) => Some(self.set_timer_request(timer_fd)),
            WaitStage::ArmingTimer(timer_fd) => Some(self.arm_timer_request(timer_fd)),
            WaitStage::Waiting => Some(self.wait_request()),
            WaitStage::Clearing => Some(self.poller.notifier.clear_request()),
            WaitStage::Rearming => Some(self.poller.rearm_request()),
            WaitStage::Finished(_) => None,
        }
    }

    /// Whether the wait goes on to its next stage, or to which result it ends,
    /// once the pending request got `reply`. What a read of the notifier gets
    /// never ends the wait; any other failure does.
    pub open spec fn next_stage(self, reply: Reply) -> WaitStage {
        match (self.stage, reply) {
            (WaitStage::Clearing, _) => if self.poller.notifier.more_to_clear(reply) {
                WaitStage::Clearing
            } else {
                WaitStage::Rearming
            },
            (WaitStage::Finished(result), _) => WaitStage::Finished(result),
            (_, Reply::Failed(e)) => WaitStage::Finished(Err(e)),
            (WaitStage::SettingTimer(timer_fd), _) => WaitStage::ArmingTimer(timer_fd),
            (WaitStage::ArmingTimer(_), _) => WaitStage::Waiting,
            (WaitStage::Waiting, _) => WaitStage::Clearing,
            (WaitStage::Rearming, _) => WaitStage::Finished(Ok(())),
        }
    }

    /// The events that `reply` adds to the list.
    pub open spec fn added(self, reply: Reply) -> Seq<RawEvent> {
        match (self.stage, reply) {
            (WaitStage::Waiting, Reply::Ready(list)) => list@,
            _ => Seq::empty(),
        }
    }

    /// The result, once the wait has ended.
    pub open spec fn result(self) -> Option<Result<(), Errno>> {
        match self.stage {
            WaitStage::Finished(result) => Some(result),
            _ => None,
        }
    }

    /// The wait after the pending request got `reply`.
    pub open spec fn after(self, reply: Reply) -> WaitView {
        WaitView {
            stage: self.next_stage(reply),
            events: self.events + self.added(reply),
            ..self
        }
    }
}

impl WaitTask {
    /// Starts a wait.
    pub(crate) fn begin(poller: Poller, events: Events, timeout: Option<Timeout>) -> (r: WaitTask)
        ensures
            r@ == WaitView::start(poller, events@, events.limit(), timeout),
    {
        let stage = match poller.timer_fd {
            Some(timer_fd) => WaitStage::SettingTimer(timer_fd),
            None => WaitStage::Waiting,
        };
        WaitTask { poller, timeout, events, stage }
    }

    /// The request that waits for an answer, until the wait has ended.
    pub fn request(&self) -> (r: Option<Request>)
        ensures
            r == self@.pending(),
            self@.wf(),
    {
        let room = self.events.room();
        match self.stage {
            WaitStage::SettingTimer(timer_fd) => Some(
                Request::SetTimer {
                    fd: timer_fd,
                    absolute: false,
                    value: timer_setting(self.timeout),
                },
            ),
            WaitStage::ArmingTimer(timer_fd) => Some(
                self.poller.modify(timer_fd, Event::readable(NOTIFY_KEY), PollMode::Oneshot),
            ),
            WaitStage::Waiting => Some(
                Request::Wait {
                    epoll_fd: self.poller.epoll_fd,
                    room,
                    timeout: wait_timeout(self.poller.timer_fd.is_some(), self.timeout),
                },
            ),
            WaitStage::Clearing => Some(self.poller.notifier.clear()),
            WaitStage::Rearming => Some(
                self.poller.modify(
                    self.poller.notifier.as_fd(),
                    Event::readable(NOTIFY_KEY),
                    PollMode::Oneshot,
                ),
            ),
            WaitStage::Finished(_) => None,
        }
    }

    /// Takes the answer to the pending request. An answer of another kind is
    /// refused and changes nothing.
    pub fn step(&mut self, reply: Reply) -> (r: bool)
        ensures
            r == (old(self)@.pending() matches Some(request) && request.is_answered_by(reply)),
            r ==> final(self)@ == old(self)@.after(reply),
            !r ==> final(self)@ == old(self)@,
    {
        let accepted = match self.request() {
            Some(request) => request.answered_by(&reply),
            None => false,
        };
        if !accepted {
            return false;
        }
        let next = match (self.stage, &reply) {
            (WaitStage::Clearing, _) => if self.poller.notifier.clear_again(&reply) {
                WaitStage::Clearing
            } else {
                WaitStage::Rearming
            },
            (WaitStage::Finished(result), _) => WaitStage::Finished(result),
            (_, Reply::Failed(e)) => WaitStage::Finished(Err(*e)),
            (WaitStage::SettingTimer(timer_fd), _) => WaitStage::ArmingTimer(timer_fd),
            (WaitStage::ArmingTimer(_), _) => WaitStage::Waiting,
            (WaitStage::Waiting, _) => WaitStage::Clearing,
            (WaitStage::Rearming, _) => WaitStage::Finished(Ok(())),
        };
        if let Reply::Ready(list) = reply {
            self.events.extend(list);
        }
        self.stage = next;
        proof {
            assert(self@.events =~= old(self)@.events + old(self)@.added(reply));
        }
        true
    }

    /// The result of the wait, once it has ended.
    pub fn outcome(&self) -> (r: Option<Result<(), Errno>>)
        ensures
            r == (match self@.stage {
                WaitStage::Finished(result) => Some(result),
                _ => None,
            }),
            r == self@.result(),
    {
        match self.stage {
            WaitStage::Finished(result) => Some(result),
            _ => None,
        }
    }

    /// Gives the list of events back.
    pub fn into_events(self) -> (r: Events)
        ensures
            r@ == self@.events,
            r.limit() == self@.limit,
    {
        self.events
    }
}

} // verus!
