//! What holds of every wait, whatever the kernel answers.

use crate::events::RawEvent;
use crate::flags::{EPOLLERR, EPOLLHUP, EPOLLIN, EPOLLONESHOT, EPOLLPRI};
use crate::notifier::{law_clear_reads, Notifier};
use crate::poller::{law_own_registrations, Poller};
use crate::request::{Errno, Reply, Request};
use crate::time::{law_timer_is_set_to_limit, law_wait_is_given_limit, Timeout};
use crate::wait::{WaitStage, WaitView};
use vstd::prelude::*;

verus! {

impl WaitView {
    /// The wait after a sequence of answers.
    pub open spec fn run(self, replies: Seq<Reply>) -> WaitView
        decreases replies.len(),
    {
        if replies.len() == 0 {
            self
        } else {
            self.run(replies.drop_last()).after(replies.last())
        }
    }

    /// Whether each answer is of the kind that its request asks for.
    pub open spec fn answered(self, replies: Seq<Reply>) -> bool
        decreases replies.len(),
    {
        replies.len() == 0 || {
            let before = self.run(replies.drop_last());
            &&& self.answered(replies.drop_last())
            &&& before.pending() matches Some(request)
            &&& request.is_answered_by(replies.last())
        }
    }

    /// The requests that a sequence of answers belongs to.
    pub open spec fn asked(self, replies: Seq<Reply>) -> Seq<Request>
        decreases replies.len(),
    {
        if replies.len() == 0 {
            Seq::empty()
        } else {
            self.asked(replies.drop_last()).push(self.run(replies.drop_last()).pending()->0)
        }
    }

    /// Whether this is a wait that has not begun yet.
    pub open spec fn is_start(self) -> bool {
        &&& self.wf()
        &&& self == WaitView::start(self.poller, self.events, self.limit, self.timeout)
    }

    /// The requests before the one that waits: those that set the timer.
    pub open spec fn prelude(self) -> Seq<Request> {
        match self.poller.timer_fd {
            Some(timer_fd) => seq![
                self.set_timer_request(timer_fd),
                self.arm_timer_request(timer_fd),
            ],
            None => Seq::empty(),
        }
    }
}

/// The events that a sequence of answers reports, in order.
pub open spec fn reported_by(replies: Seq<Reply>) -> Seq<RawEvent>
    decreases replies.len(),
{
    if replies.len() == 0 {
        Seq::empty()
    } else {
        reported_by(replies.drop_last()) + match replies.last() {
            Reply::Ready(list) => list@,
            _ => Seq::empty(),
        }
    }
}

/// What the number of answers and the requests so far are at each stage.
spec fn progress(start: WaitView, replies: Seq<Reply>) -> bool {
    let now = start.run(replies);
    let n = start.prelude().len();
    let asked = start.asked(replies);
    let k = replies.len() as int;
    &&& asked.len() == k
    &&& now.poller == start.poller
    &&& now.timeout == start.timeout
    &&& now.limit == start.limit
    &&& now.wf()
    &&& forall|i: int| 0 <= i < k && i < n ==> #[trigger] asked[i] == start.prelude()[i]
    &&& k > n ==> asked[n as int] == start.wait_request()
    &&& match now.stage {
        WaitStage::SettingTimer(fd) => k == 0 && start.poller.timer_fd == Some(fd),
        WaitStage::ArmingTimer(fd) => k == 1 && start.poller.timer_fd == Some(fd),
        WaitStage::Waiting => k == n,
        WaitStage::Clearing => k > n && (k == n + 1 || start.poller.notifier is Pipe),
        WaitStage::Rearming => k >= n + 2 && (k == n + 2 || start.poller.notifier is Pipe),
        WaitStage::Finished(Ok(_)) => k >= n + 3 && (k == n + 3 || start.poller.notifier is Pipe)
            && asked[k - 1] == start.poller.rearm_request() && replies[k - 1] == Reply::Done,
        WaitStage::Finished(Err(e)) => k > 0 && (k <= n + 3 || start.poller.notifier is Pipe)
            && replies[k - 1] == Reply::Failed(e) && !(asked[k - 1] is Read),
    }
    &&& match now.stage {
        WaitStage::Finished(_) => true,
        _ => forall|i: int|
            n < i < k ==> #[trigger] asked[i] == start.poller.notifier.clear_request(),
    }
    &&& forall|i: int|
        n < i < k - 1 ==> #[trigger] asked[i] == start.poller.notifier.clear_request()
    &&& k <= n ==> now.events == start.events
    &&& forall|i: int|
        0 <= i < k && !(asked[i] is Read) && !(now.stage matches WaitStage::Finished(Err(_)) && i
            == k - 1) ==> !(#[trigger] replies[i] is Failed)
}

/// Every wait makes its progress that way.
proof fn lemma_progress(start: WaitView, replies: Seq<Reply>)
    requires
        start.is_start(),
        start.answered(replies),
    ensures
        progress(start, replies),
    decreases replies.len(),
{
    if replies.len() > 0 {
        let shorter = replies.drop_last();
        lemma_progress(start, shorter);
        let before = start.run(shorter);
        let asked = start.asked(replies);
        assert(asked == start.asked(shorter).push(before.pending()->0));
        assert forall|i: int| 0 <= i < shorter.len() implies #[trigger] replies[i]
            == shorter[i] by {}
        assert forall|i: int| 0 <= i < shorter.len() implies #[trigger] asked[i] == start.asked(
            shorter,
        )[i] by {}
    }
}

/// Each answer is of the kind that its request asks for, and none but the last
/// one and those to reads is a failure.
pub(crate) proof fn lemma_answer_fits(start: WaitView, replies: Seq<Reply>, i: int)
    requires
        start.is_start(),
        start.answered(replies),
        0 <= i < replies.len(),
    ensures
        start.asked(replies)[i].is_answered_by(replies[i]),
        i < replies.len() - 1 && !(start.asked(replies)[i] is Read) ==> !(replies[i] is Failed),
    decreases replies.len(),
{
    let shorter = replies.drop_last();
    lemma_progress(start, replies);
    lemma_progress(start, shorter);
    assert(start.asked(replies) == start.asked(shorter).push(start.run(shorter).pending()->0));
    if i < shorter.len() {
        lemma_answer_fits(start, shorter, i);
    }
}

/// A wait only appends to the list: what was there stays, and what follows it is
/// what the kernel reported. The list never outgrows its limit.
pub proof fn law_wait_only_appends(start: WaitView, replies: Seq<Reply>)
    requires
        start.is_start(),
        start.answered(replies),
    ensures
        start.run(replies).events == start.events + reported_by(replies),
        start.run(replies).events.len() <= start.limit,
        start.run(replies).limit == start.limit,
    decreases replies.len(),
{
    lemma_progress(start, replies);
    if replies.len() > 0 {
        let shorter = replies.drop_last();
        law_wait_only_appends(start, shorter);
        lemma_progress(start, shorter);
        assert(start.run(replies).events =~= start.events + reported_by(replies));
    } else {
        assert(start.events =~= start.events + reported_by(replies));
    }
}

/// A use of a list of events: a wait that appends to it, which may be anywhere
/// between its start and its end, or its being cleared.
pub enum ListUse {
    /// A wait, with the answers that it got.
    Wait { poller: Poller, timeout: Option<Timeout>, replies: Seq<Reply> },
    /// The list is cleared.
    Clear,
}

impl ListUse {
    /// Whether a list can be used so.
    pub open spec fn is_possible(self, events: Seq<RawEvent>, limit: usize) -> bool {
        match self {
            ListUse::Wait { poller, timeout, replies } => WaitView::start(
                poller,
                events,
                limit,
                timeout,
            ).answered(replies),
            ListUse::Clear => true,
        }
    }

    /// The list and its limit afterwards.
    pub open spec fn after(self, events: Seq<RawEvent>, limit: usize) -> (Seq<RawEvent>, usize) {
        match self {
            ListUse::Wait { poller, timeout, replies } => {
                let end = WaitView::start(poller, events, limit, timeout).run(replies);
                (end.events, end.limit)
            },
            ListUse::Clear => (Seq::empty(), limit),
        }
    }
}

/// The list and its limit after a sequence of uses.
pub open spec fn list_after(
    events: Seq<RawEvent>,
    limit: usize,
    uses: Seq<ListUse>,
) -> (Seq<RawEvent>, usize)
    decreases uses.len(),
{
    if uses.len() == 0 {
        (events, limit)
    } else {
        let before = list_after(events, limit, uses.drop_last());
        uses.last().after(before.0, before.1)
    }
}

/// Whether a list can be used so, one use after the other.
pub open spec fn are_possible(events: Seq<RawEvent>, limit: usize, uses: Seq<ListUse>) -> bool
    decreases uses.len(),
{
    uses.len() == 0 || {
        let before = list_after(events, limit, uses.drop_last());
        &&& are_possible(events, limit, uses.drop_last())
        &&& uses.last().is_possible(before.0, before.1)
    }
}

/// The limit of a list is that which it was made with, through any sequence of
/// waits and clears, and the list never outgrows it.
pub proof fn law_limit_of_list_stays(events: Seq<RawEvent>, limit: usize, uses: Seq<ListUse>)
    requires
        events.len() <= limit,
        are_possible(events, limit, uses),
    ensures
        list_after(events, limit, uses).1 == limit,
        list_after(events, limit, uses).0.len() <= limit,
    decreases uses.len(),
{
    if uses.len() > 0 {
        law_limit_of_list_stays(events, limit, uses.drop_last());
        let before = list_after(events, limit, uses.drop_last());
        if let ListUse::Wait { poller, timeout, replies } = uses.last() {
            law_wait_only_appends(WaitView::start(poller, before.0, before.1, timeout), replies);
        }
    }
}

/// What the list holds on the way: what it held at the start and, once events
/// were waited for, those that were reported then.
pub proof fn law_wait_reports_once(start: WaitView, replies: Seq<Reply>)
    requires
        start.is_start(),
        start.answered(replies),
    ensures
        ({
            let n = start.prelude().len();
            let now = start.run(replies);
            &&& replies.len() <= n ==> now.events == start.events
            &&& replies.len() > n ==> match replies[n as int] {
                Reply::Ready(list) => now.events == start.events + list@,
                _ => now.events == start.events,
            }
        }),
    decreases replies.len(),
{
    lemma_progress(start, replies);
    if replies.len() > 0 {
        let shorter = replies.drop_last();
        let n = start.prelude().len() as int;
        law_wait_reports_once(start, shorter);
        lemma_progress(start, shorter);
        if shorter.len() > n {
            assert(shorter[n] == replies[n]);
        }
        assert(start.run(shorter).events + Seq::<RawEvent>::empty() =~= start.run(shorter).events);
    }
}

/// The requests of a wait come in one order, as far as it gets: the timer is set
/// and armed, where there is one; events are waited for, once; notifications are
/// taken away; and the interest in the notifier is set again.
pub proof fn law_wait_order(start: WaitView, replies: Seq<Reply>)
    requires
        start.is_start(),
        start.answered(replies),
    ensures
        ({
            let n = start.prelude().len();
            let asked = start.asked(replies);
            &&& asked.len() == replies.len()
            &&& forall|i: int|
                0 <= i < asked.len() && i < n ==> #[trigger] asked[i] == start.prelude()[i]
            &&& asked.len() > n ==> asked[n as int] == start.wait_request()
            &&& forall|i: int|
                n < i < asked.len() - 1 ==> #[trigger] asked[i]
                    == start.poller.notifier.clear_request()
            &&& asked.len() > n + 1 ==> asked.last() == start.poller.notifier.clear_request()
                || asked.last() == start.poller.rearm_request()
        }),
{
    lemma_progress(start, replies);
    if replies.len() > 0 {
        lemma_progress(start, replies.drop_last());
    }
}

/// A wait that succeeded has cleared the notifier and set the interest in it
/// again, so that the next notification is seen; a pipe was read until a read
/// failed. Every request but the reads of the notifier succeeded.
pub proof fn law_wait_success_rearms(start: WaitView, replies: Seq<Reply>)
    requires
        start.is_start(),
        start.answered(replies),
        start.run(replies).stage matches WaitStage::Finished(Ok(_)),
    ensures
        ({
            let n = start.prelude().len();
            let asked = start.asked(replies);
            let k = replies.len();
            &&& k >= n + 3
            &&& start.poller.notifier is EventFd ==> k == n + 3
            &&& asked[k - 2] == start.poller.notifier.clear_request()
            &&& start.poller.notifier is Pipe ==> replies[k - 2] is Failed
            &&& asked[k - 1] == start.poller.rearm_request()
            &&& replies[k - 1] == Reply::Done
            &&& forall|i: int|
                0 <= i < k && !(asked[i] is Read) ==> !(#[trigger] replies[i] is Failed)
        }),
{
    lemma_progress(start, replies);
    let rearming = replies.drop_last();
    lemma_progress(start, rearming);
    let clearing = rearming.drop_last();
    assert(start.answered(rearming));
    lemma_progress(start, clearing);
    assert(start.run(rearming) == start.run(clearing).after(rearming.last()));
    assert(rearming.last() == replies[replies.len() - 2]);
}

/// A wait fails with the first failure of a request other than a read of the
/// notifier, and it does nothing after that.
pub proof fn law_wait_failure_is_first_failure(start: WaitView, replies: Seq<Reply>, e: Errno)
    requires
        start.is_start(),
        start.answered(replies),
        start.run(replies).stage == WaitStage::Finished(Err(e)),
    ensures
        ({
            let asked = start.asked(replies);
            let k = replies.len();
            &&& k > 0
            &&& replies[k - 1] == Reply::Failed(e)
            &&& !(asked[k - 1] is Read)
            &&& forall|i: int|
                0 <= i < k - 1 && !(asked[i] is Read) ==> !(#[trigger] replies[i] is Failed)
        }),
{
    lemma_progress(start, replies);
}

/// A wait whose notifier is an event descriptor ends after three requests, or
/// five with a timer. With a pipe, only reads of the pipe that get something can
/// make it longer.
pub proof fn law_wait_ends(start: WaitView, replies: Seq<Reply>)
    requires
        start.is_start(),
        start.answered(replies),
    ensures
        start.poller.notifier is EventFd ==> replies.len() <= start.prelude().len() + 3,
        start.run(replies).pending() is None <==> start.run(replies).stage is Finished,
        replies.len() > start.prelude().len() + 3 ==> start.poller.notifier is Pipe && forall|
            i: int,
        |
            start.prelude().len() < i < replies.len() - 2 ==> #[trigger] replies[i] is Count,
{
    lemma_progress(start, replies);
    if replies.len() > start.prelude().len() + 3 {
        lemma_reads_got_something(start, replies);
    }
}

/// Every read of the notifier but the last one got something.
proof fn lemma_reads_got_something(start: WaitView, replies: Seq<Reply>)
    requires
        start.is_start(),
        start.answered(replies),
    ensures
        ({
            let n = start.prelude().len();
            let k = replies.len();
            &&& forall|i: int| n < i < k - 2 ==> #[trigger] replies[i] is Count
            &&& start.run(replies).stage is Rearming ==> forall|i: int|
                n < i < k - 1 ==> #[trigger] replies[i] is Count
            &&& start.run(replies).stage is Clearing ==> forall|i: int|
                n < i < k ==> #[trigger] replies[i] is Count
        }),
    decreases replies.len(),
{
    if replies.len() > 0 {
        let shorter = replies.drop_last();
        lemma_reads_got_something(start, shorter);
        lemma_progress(start, shorter);
        lemma_progress(start, replies);
        assert forall|i: int| 0 <= i < shorter.len() implies #[trigger] replies[i]
            == shorter[i] by {}
    }
}

/// A wait starts from what it was given: the poller, the list with its limit, and
/// the time limit.
pub proof fn law_wait_starts_from_arguments(
    poller: Poller,
    events: Seq<RawEvent>,
    limit: usize,
    timeout: Option<Timeout>,
)
    ensures
        ({
            let start = WaitView::start(poller, events, limit, timeout);
            &&& start.poller == poller
            &&& start.events == events
            &&& start.limit == limit
            &&& start.timeout == timeout
            &&& !(start.stage is Finished)
            &&& events.len() <= limit ==> start.is_start()
        }),
{
}

/// Where a wait stands before and after each answer.
proof fn lemma_wait_at(start: WaitView, replies: Seq<Reply>, i: int)
    requires
        start.is_start(),
        start.answered(replies),
        0 <= i < replies.len(),
    ensures
        ({
            let before = start.run(replies.take(i));
            &&& start.answered(replies.take(i))
            &&& start.asked(replies).len() == replies.len()
            &&& before.pending() == Some(start.asked(replies)[i])
            &&& start.run(replies.take(i + 1)) == before.after(replies[i])
        }),
    decreases replies.len(),
{
    let shorter = replies.drop_last();
    lemma_progress(start, replies);
    lemma_progress(start, shorter);
    if i < shorter.len() {
        lemma_wait_at(start, shorter, i);
        assert(shorter.take(i) =~= replies.take(i));
        assert(shorter.take(i + 1) =~= replies.take(i + 1));
    } else {
        assert(replies.take(i) =~= shorter);
        assert(replies.take(i + 1) =~= replies);
    }
}

/// What a wait asks for, from its arguments and the answers. Where there is a
/// timer, that is set to expire once after the time limit, which is relative to
/// now, and watched for one event. Then events are waited for, as many as the
/// list has room for; that has a time limit itself if it is zero, or if there is
/// no timer and it fits. Then the notifier is read, a pipe until a read fails,
/// and watched again.
pub proof fn law_wait_asks_in_turn(
    poller: Poller,
    events: Seq<RawEvent>,
    limit: usize,
    timeout: Option<Timeout>,
    replies: Seq<Reply>,
)
    requires
        events.len() <= limit,
        WaitView::start(poller, events, limit, timeout).answered(replies),
    ensures
        ({
            let asked = WaitView::start(poller, events, limit, timeout).asked(replies);
            let k = replies.len() as int;
            let n: int = if poller.timer_fd is Some {
                2
            } else {
                0
            };
            let epoll_fd = poller.epoll_fd;
            let watched = EPOLLONESHOT | EPOLLIN | EPOLLPRI | EPOLLERR | EPOLLHUP;
            let (fd, len): (i32, usize) = match poller.notifier {
                Notifier::EventFd(event_fd) => (event_fd, 8),
                Notifier::Pipe { read_pipe, .. } => (read_pipe, 1024),
            };
            &&& asked.len() == k
            &&& poller.timer_fd matches Some(timer_fd) ==> {
                &&& k > 0 ==> asked[0] is SetTimer && {
                    let value = asked[0]->SetTimer_value;
                    &&& asked[0]->SetTimer_fd == timer_fd
                    &&& !asked[0]->absolute
                    &&& value.it_interval.tv_sec == 0
                    &&& value.it_interval.tv_nsec == 0
                    &&& match timeout {
                        None => value.it_value.tv_sec == 0 && value.it_value.tv_nsec == 0,
                        Some(t) => {
                            &&& t.secs() <= i64::MAX ==> value.it_value.tv_sec == t.secs()
                            &&& t.secs() > i64::MAX ==> value.it_value.tv_sec == t.secs()
                                - 0x1_0000_0000_0000_0000
                            &&& value.it_value.tv_nsec == t.nanos()
                        },
                    }
                }
                &&& k > 1 ==> asked[1] == (Request::Modify {
                    epoll_fd,
                    fd: timer_fd,
                    data: usize::MAX as u64,
                    flags: watched,
                })
            }
            &&& k > n ==> asked[n] is Wait && {
                &&& asked[n]->Wait_epoll_fd == epoll_fd
                &&& asked[n]->Wait_room == limit - events.len()
                &&& match (timeout, asked[n]->Wait_timeout) {
                    (None, given) => given is None,
                    (Some(t), None) => (t.secs() != 0 || t.nanos() != 0) && (poller.timer_fd is Some
                        || t.secs() > i64::MAX),
                    (Some(t), Some(given)) => {
                        &&& given.tv_sec == t.secs()
                        &&& given.tv_nsec == t.nanos()
                        &&& poller.timer_fd is Some ==> t.secs() == 0 && t.nanos() == 0
                    },
                }
            }
            &&& forall|i: int|
                n < i < k ==> #[trigger] asked[i] == if i > n + 1 && (poller.notifier is EventFd
                    || replies[i - 1] is Failed) {
                    Request::Modify { epoll_fd, fd, data: usize::MAX as u64, flags: watched }
                } else {
                    Request::Read { fd, len }
                }
        }),
{
    let start = WaitView::start(poller, events, limit, timeout);
    let asked = start.asked(replies);
    let k = replies.len() as int;
    let n = start.prelude().len() as int;
    law_wait_starts_from_arguments(poller, events, limit, timeout);
    lemma_progress(start, replies);
    law_timer_is_set_to_limit(timeout);
    law_wait_is_given_limit(poller.timer_fd is Some, timeout);
    if let Some(timer_fd) = poller.timer_fd {
        law_own_registrations(poller, timer_fd);
        assert(k > 0 ==> asked[0] == start.prelude()[0]);
        assert(k > 1 ==> asked[1] == start.prelude()[1]);
    }
    law_own_registrations(poller, poller.notifier.poll_fd());
    assert forall|i: int| n < i < k implies #[trigger] asked[i] == if i > n + 1 && (
    poller.notifier is EventFd || replies[i - 1] is Failed) {
        poller.rearm_request()
    } else {
        poller.notifier.clear_request()
    } by {
        lemma_wait_at(start, replies, i);
        lemma_wait_at(start, replies, i - 1);
        lemma_progress(start, replies.take(i));
        lemma_progress(start, replies.take(i - 1));
        law_clear_reads(poller.notifier, replies[i - 1]);
    }
    law_clear_reads(poller.notifier, Reply::Done);
}

/// How a wait ends: with the error of a request other than a read of the
/// notifier, as soon as one fails, and without one as soon as the notifier is
/// watched again. Otherwise it goes on.
pub proof fn law_wait_outcome(
    poller: Poller,
    events: Seq<RawEvent>,
    limit: usize,
    timeout: Option<Timeout>,
    replies: Seq<Reply>,
)
    requires
        events.len() <= limit,
        WaitView::start(poller, events, limit, timeout).answered(replies),
    ensures
        ({
            let start = WaitView::start(poller, events, limit, timeout);
            let asked = start.asked(replies);
            let k = replies.len() as int;
            let n: int = if poller.timer_fd is Some {
                2
            } else {
                0
            };
            let result = start.run(replies).result();
            &&& (k > 0 && replies[k - 1] is Failed && !(asked[k - 1] is Read)) <==> (
            result is Some && result->0 is Err)
            &&& result matches Some(Err(e)) ==> replies[k - 1] == Reply::Failed(e)
            &&& result == Some(Ok::<(), Errno>(())) <==> k > n && asked[k - 1] is Modify
                && replies[k - 1] == Reply::Done
            &&& start.run(replies).pending() is None <==> result is Some
        }),
{
    let start = WaitView::start(poller, events, limit, timeout);
    let k = replies.len() as int;
    law_wait_starts_from_arguments(poller, events, limit, timeout);
    lemma_progress(start, replies);
    if k > 0 {
        lemma_wait_at(start, replies, k - 1);
        lemma_progress(start, replies.take(k - 1));
        assert(replies.take(k) =~= replies);
        lemma_answer_fits(start, replies, k - 1);
    }
}

} // verus!
