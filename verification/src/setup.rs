//! The creation of a poller.

use crate::event::{Event, PollMode, NOTIFY_KEY};
use crate::notifier::{Notifier, NotifierSetup, NotifierStage};
use crate::poller::{no_interest, own_interest, Poller};
use crate::request::{Errno, Reply, Request};
use vstd::prelude::*;

verus! {

/// What the platform has.
#[derive(Debug, Clone, Copy, PartialEq, Eq)]
pub struct Target {
    /// Whether event descriptors are to be used.
    pub eventfd: bool,
    /// Whether timers are to be used.
    pub timerfd: bool,
    /// The word for the descriptor flag that closes on execution.
    pub cloexec: u32,
    /// The word for the file status flag that makes reads non-blocking.
    pub nonblock: u32,
}

/// How far the creation of a poller has come.
#[derive(Debug, Clone, Copy, PartialEq, Eq)]
pub enum SetupStage {
    /// The epoll instance is being created.
    CreatingEpoll,
    /// The notifier is being created.
    CreatingNotifier { epoll_fd: i32, setup: NotifierSetup },
    /// The timer is being created.
    CreatingTimer { epoll_fd: i32, notifier: Notifier },
    /// The timer is being registered.
    AddingTimer { poller: Poller, timer_fd: i32 },
    /// The notifier is being registered.
    AddingNotifier { poller: Poller },
    /// The poller is being taken down after an error, up to the request with
    /// this number.
    TakingDown { poller: Poller, at: usize, error: Errno },
    /// The epoll instance is being closed after an error.
    ClosingEpoll { epoll_fd: i32, error: Errno },
    /// The creation has ended.
    Finished(Result<Poller, Errno>),
}

/// The creation of a poller.
#[derive(Debug, Clone, Copy, PartialEq, Eq)]
pub struct PollerSetup {
    /// What the platform has.
    pub target: Target,
    /// How far it has come.
    pub stage: SetupStage,
}

impl PollerSetup {
    /// The start of the creation.
    pub open spec fn start(target: Target) -> PollerSetup {
        PollerSetup { target, stage: SetupStage::CreatingEpoll }
    }

    /// The request that waits for an answer, until the creation has ended.
    pub open spec fn pending(self) -> Option<Request> {
        match self.stage {
            SetupStage::CreatingEpoll => Some(Request::EpollCreate { cloexec: true }),
            SetupStage::CreatingNotifier { setup, .. } => setup.pending(),
            SetupStage::CreatingTimer { .. } => Some(
                Request::TimerFdCreate { monotonic: true, cloexec: true, nonblock: true },
            ),
            SetupStage::AddingTimer { poller, timer_fd } => Some(
                poller.add_request(timer_fd, no_interest(), PollMode::Oneshot),
            ),
            SetupStage::AddingNotifier { poller } => Some(
                poller.add_request(poller.notifier.poll_fd(), own_interest(), PollMode::Oneshot),
            ),
            SetupStage::TakingDown { poller, at, .. } => if at < poller.teardown_requests().len() {
                Some(poller.teardown_requests()[at as int])
            } else {
                None
            },
            SetupStage::ClosingEpoll { epoll_fd, .. } => Some(Request::Close { fd: epoll_fd }),
            SetupStage::Finished(_) => None,
        }
    }

    /// The stage once the notifier is there: the timer is next, where the
    /// platform has timers.
    pub open spec fn stage_with_notifier(self, epoll_fd: i32, notifier: Notifier) -> SetupStage {
        if self.target.timerfd {
            SetupStage::CreatingTimer { epoll_fd, notifier }
        } else {
            SetupStage::AddingNotifier { poller: Poller { epoll_fd, notifier, timer_fd: None } }
        }
    }

    /// The stage after the creation of the notifier made a step.
    pub open spec fn stage_of_notifier(self, epoll_fd: i32, setup: NotifierSetup) -> SetupStage {
        match setup.stage {
            NotifierStage::Ready(notifier) => self.stage_with_notifier(epoll_fd, notifier),
            NotifierStage::Failed(error) => SetupStage::ClosingEpoll { epoll_fd, error },
            _ => SetupStage::CreatingNotifier { epoll_fd, setup },
        }
    }

    /// The stage after the pending request got `reply`.
    ///
    /// A timer that cannot be had is done without. When a registration fails
    /// the poller is taken down.
    pub open spec fn next_stage(self, reply: Reply) -> SetupStage {
        match self.stage {
            SetupStage::CreatingEpoll => match reply {
                Reply::Descriptor(epoll_fd) => SetupStage::CreatingNotifier {
                    epoll_fd,
                    setup: NotifierSetup::start(
                        self.target.eventfd,
                        self.target.cloexec,
                        self.target.nonblock,
                    ),
                },
                Reply::Failed(e) => SetupStage::Finished(Err(e)),
                _ => self.stage,
            },
            SetupStage::CreatingNotifier { epoll_fd, setup } => self.stage_of_notifier(
                epoll_fd,
                setup.after(reply),
            ),
            SetupStage::CreatingTimer { epoll_fd, notifier } => match reply {
                Reply::Descriptor(timer_fd) => SetupStage::AddingTimer {
                    poller: Poller { epoll_fd, notifier, timer_fd: Some(timer_fd) },
                    timer_fd,
                },
                _ => SetupStage::AddingNotifier {
                    poller: Poller { epoll_fd, notifier, timer_fd: None },
                },
            },
            SetupStage::AddingTimer { poller, .. } => match reply {
                Reply::Failed(error) => SetupStage::TakingDown { poller, at: 0, error },
                _ => SetupStage::AddingNotifier { poller },
            },
            SetupStage::AddingNotifier { poller } => match reply {
                Reply::Failed(error) => SetupStage::TakingDown { poller, at: 0, error },
                _ => SetupStage::Finished(Ok(poller)),
            },
            SetupStage::TakingDown { poller, at, error } => if at + 1
                < poller.teardown_requests().len() {
                SetupStage::TakingDown { poller, at: (at + 1) as usize, error }
            } else {
                SetupStage::Finished(Err(error))
            },
            SetupStage::ClosingEpoll { error, .. } => SetupStage::Finished(Err(error)),
            SetupStage::Finished(_) => self.stage,
        }
    }

    /// The poller, or the error that kept it from being created, once the
    /// creation has ended.
    pub open spec fn result(self) -> Option<Result<Poller, Errno>> {
        match self.stage {
            SetupStage::Finished(result) => Some(result),
            _ => None,
        }
    }

    /// The creation after the pending request got `reply`.
    pub open spec fn after(self, reply: Reply) -> PollerSetup {
        PollerSetup { stage: self.next_stage(reply), ..self }
    }

    /// The request that waits for an answer, until the creation has ended.
    pub fn request(&self) -> (r: Option<Request>)
        ensures
            r == self.pending(),
    {
        match self.stage {
            SetupStage::CreatingEpoll => Some(Request::EpollCreate { cloexec: true }),
            SetupStage::CreatingNotifier { setup, .. } => setup.request(),
            SetupStage::CreatingTimer { .. } => Some(
                Request::TimerFdCreate { monotonic: true, cloexec: true, nonblock: true },
            ),
            SetupStage::AddingTimer { poller, timer_fd } => Some(
                poller.add(timer_fd, Event::none(NOTIFY_KEY), PollMode::Oneshot),
            ),
            SetupStage::AddingNotifier { poller } => Some(
                poller.add(
                    poller.notifier.as_fd(),
                    Event::readable(NOTIFY_KEY),
                    PollMode::Oneshot,
                ),
            ),
            SetupStage::TakingDown { poller, at, .. } => {
                let requests = poller.teardown();
                if at < requests.len() {
                    Some(requests[at])
                } else {
                    None
                }
            },
            SetupStage::ClosingEpoll { epoll_fd, .. } => Some(Request::Close { fd: epoll_fd }),
            SetupStage::Finished(_) => None,
        }
    }

    /// The stage once the notifier is there.
    fn with_notifier(&self, epoll_fd: i32, notifier: Notifier) -> (r: SetupStage)
        ensures
            r == self.stage_with_notifier(epoll_fd, notifier),
    {
        if self.target.timerfd {
            SetupStage::CreatingTimer { epoll_fd, notifier }
        } else {
            SetupStage::AddingNotifier { poller: Poller { epoll_fd, notifier, timer_fd: None } }
        }
    }

    /// Takes the answer to the pending request. An answer of another kind is
    /// refused and changes nothing.
    pub fn step(&mut self, reply: &Reply) -> (r: bool)
        ensures
            r == (old(self).pending() matches Some(request) && request.is_answered_by(*reply)),
            r ==> *final(self) == old(self).after(*reply),
            !r ==> *final(self) == *old(self),
    {
        let accepted = match self.request() {
            Some(request) => request.answered_by(reply),
            None => false,
        };
        if !accepted {
            return false;
        }
        self.stage = match (self.stage, reply) {
            (SetupStage::CreatingEpoll, Reply::Descriptor(epoll_fd)) =>
                SetupStage::CreatingNotifier {
                    epoll_fd: *epoll_fd,
                    setup: Notifier::new(
                        self.target.eventfd,
                        self.target.cloexec,
                        self.target.nonblock,
                    ),
                },
            (SetupStage::CreatingEpoll, Reply::Failed(e)) => SetupStage::Finished(Err(*e)),
            (SetupStage::CreatingNotifier { epoll_fd, setup }, _) => {
                let mut setup = setup;
                setup.step(reply);
                match setup.outcome() {
                    Some(Ok(notifier)) => self.with_notifier(epoll_fd, notifier),
                    Some(Err(error)) => SetupStage::ClosingEpoll { epoll_fd, error },
                    None => SetupStage::CreatingNotifier { epoll_fd, setup },
                }
            },
            (SetupStage::CreatingTimer { epoll_fd, notifier }, Reply::Descriptor(timer_fd)) =>
                SetupStage::AddingTimer {
                    poller: Poller { epoll_fd, notifier, timer_fd: Some(*timer_fd) },
                    timer_fd: *timer_fd,
                },
            (SetupStage::CreatingTimer { epoll_fd, notifier }, _) => SetupStage::AddingNotifier {
                poller: Poller { epoll_fd, notifier, timer_fd: None },
            },
            (SetupStage::AddingTimer { poller, .. }, Reply::Failed(e)) => SetupStage::TakingDown {
                poller,
                at: 0,
                error: *e,
            },
            (SetupStage::AddingTimer { poller, .. }, _) => SetupStage::AddingNotifier { poller },
            (SetupStage::AddingNotifier { poller }, Reply::Failed(e)) => SetupStage::TakingDown {
                poller,
                at: 0,
                error: *e,
            },
            (SetupStage::AddingNotifier { poller }, _) => SetupStage::Finished(Ok(poller)),
            (SetupStage::TakingDown { poller, at, error }, _) => {
                if at + 1 < poller.teardown().len() {
                    SetupStage::TakingDown { poller, at: at + 1, error }
                } else {
                    SetupStage::Finished(Err(error))
                }
            },
            (SetupStage::ClosingEpoll { error, .. }, _) => SetupStage::Finished(Err(error)),
            (stage, _) => stage,
        };
        true
    }

    /// The poller, or the error that kept it from being created, once the
    /// creation has ended.
    pub fn outcome(&self) -> (r: Option<Result<Poller, Errno>>)
        ensures
            r == (match self.stage {
                SetupStage::Finished(result) => Some(result),
                _ => None,
            }),
            r == self.result(),
    {
        match self.stage {
            SetupStage::Finished(result) => Some(result),
            _ => None,
        }
    }
}

} // verus!
