//! What holds of every creation of a notifier and of a poller, whatever the
//! kernel answers.

use crate::event::PollMode;
use crate::flags::{EPOLLERR, EPOLLHUP, EPOLLIN, EPOLLONESHOT, EPOLLPRI};
use crate::notifier::{Ends, Notifier, NotifierSetup, NotifierStage};
use crate::poller::{
    closed_by, law_own_registrations, law_teardown_closes_what_is_owned, law_teardown_order,
    no_interest, own_interest, Poller,
};
use crate::request::{Errno, Reply, Request};
use crate::setup::{PollerSetup, SetupStage, Target};
use vstd::multiset::Multiset;
use vstd::prelude::*;

verus! {

/// The descriptors that a sequence of answers hands over.
pub open spec fn opened_by(replies: Seq<Reply>) -> Multiset<i32>
    decreases replies.len(),
{
    if replies.len() == 0 {
        Multiset::empty()
    } else {
        opened_by(replies.drop_last()).add(replies.last().opened())
    }
}

/// One more request closes what it closes.
proof fn lemma_closed_by_push(requests: Seq<Request>, request: Request)
    ensures
        closed_by(requests.push(request)) =~= closed_by(requests).add(request.closed()),
    decreases requests.len(),
{
    let all = requests.push(request);
    if requests.len() == 0 {
        assert(all.drop_first() =~= requests);
        assert(closed_by(all.drop_first()) =~= Multiset::empty());
    } else {
        lemma_closed_by_push(requests.drop_first(), request);
        assert(all.drop_first() =~= requests.drop_first().push(request));
    }
}

impl NotifierSetup {
    /// The creation after a sequence of answers.
    pub open spec fn run(self, replies: Seq<Reply>) -> NotifierSetup
        decreases replies.len(),
    {
        if replies.len() == 0 {
            self
        } else {
            self.run(replies.drop_last()).after(replies.last())
        }
    }

    /// Whether each answer is of the kind that its request asks for.
    pub open spec fn answered(self, replies: Seq<Reply>) -> bool
        decreases replies.len(),
    {
        replies.len() == 0 || {
            let before = self.run(replies.drop_last());
            &&& self.answered(replies.drop_last())
            &&& before.pending() matches Some(request)
            &&& request.is_answered_by(replies.last())
        }
    }

    /// The requests that a sequence of answers belongs to.
    pub open spec fn asked(self, replies: Seq<Reply>) -> Seq<Request>
        decreases replies.len(),
    {
        if replies.len() == 0 {
            Seq::empty()
        } else {
            self.asked(replies.drop_last()).push(self.run(replies.drop_last()).pending()->0)
        }
    }
}

impl PollerSetup {
    /// The creation after a sequence of answers.
    pub open spec fn run(self, replies: Seq<Reply>) -> PollerSetup
        decreases replies.len(),
    {
        if replies.len() == 0 {
            self
        } else {
            self.run(replies.drop_last()).after(replies.last())
        }
    }

    /// Whether each answer is of the kind that its request asks for.
    pub open spec fn answered(self, replies: Seq<Reply>) -> bool
        decreases replies.len(),
    {
        replies.len() == 0 || {
            let before = self.run(replies.drop_last());
            &&& self.answered(replies.drop_last())
            &&& before.pending() matches Some(request)
            &&& request.is_answered_by(replies.last())
        }
    }

    /// The requests that a sequence of answers belongs to.
    pub open spec fn asked(self, replies: Seq<Reply>) -> Seq<Request>
        decreases replies.len(),
    {
        if replies.len() == 0 {
            Seq::empty()
        } else {
            self.asked(replies.drop_last()).push(self.run(replies.drop_last()).pending()->0)
        }
    }

    /// The descriptors that the creation owns at this point.
    pub open spec fn held(self) -> Multiset<i32> {
        match self.stage {
            SetupStage::CreatingEpoll => Multiset::empty(),
            SetupStage::CreatingNotifier { epoll_fd, setup } => setup.held().insert(epoll_fd),
            SetupStage::CreatingTimer { epoll_fd, notifier } => notifier.fds().insert(epoll_fd),
            SetupStage::AddingTimer { poller, .. } => poller.fds(),
            SetupStage::AddingNotifier { poller } => poller.fds(),
            SetupStage::TakingDown { poller, at, .. } => closed_by(
                poller.teardown_requests().skip(at as int),
            ),
            SetupStage::ClosingEpoll { epoll_fd, .. } => Multiset::singleton(epoll_fd),
            SetupStage::Finished(Ok(poller)) => poller.fds(),
            SetupStage::Finished(Err(_)) => Multiset::empty(),
        }
    }

    /// The largest number of requests that may still follow.
    pub open spec fn rank(self) -> int {
        match self.stage {
            SetupStage::CreatingEpoll => 19,
            SetupStage::CreatingNotifier { setup, .. } => match setup.stage {
                NotifierStage::CreatingEventFd => 18,
                NotifierStage::CreatingPipeWith => 17,
                NotifierStage::CreatingPipe => 16,
                NotifierStage::GettingReadFlags(_) => 15,
                NotifierStage::SettingReadFlags(_, _) => 14,
                NotifierStage::GettingWriteFlags(_) => 13,
                NotifierStage::SettingWriteFlags(_, _) => 12,
                NotifierStage::GettingStatus(_) => 11,
                NotifierStage::SettingStatus(_, _) => 10,
                NotifierStage::ClosingWrite(_, _) => 3,
                NotifierStage::ClosingRead(_, _) => 2,
                NotifierStage::Ready(_) => 0,
                NotifierStage::Failed(_) => 0,
            },
            SetupStage::CreatingTimer { .. } => 9,
            SetupStage::AddingTimer { .. } => 8,
            SetupStage::AddingNotifier { .. } => 7,
            SetupStage::TakingDown { poller, at, .. } => poller.teardown_requests().len() - at,
            SetupStage::ClosingEpoll { .. } => 1,
            SetupStage::Finished(_) => 0,
        }
    }

    /// The error that the creation is going to end with, once there is one.
    pub open spec fn error(self) -> Option<Errno> {
        match self.stage {
            SetupStage::CreatingNotifier { setup, .. } => match setup.stage {
                NotifierStage::ClosingWrite(_, e) => Some(e),
                NotifierStage::ClosingRead(_, e) => Some(e),
                NotifierStage::Failed(e) => Some(e),
                _ => None,
            },
            SetupStage::TakingDown { error, .. } => Some(error),
            SetupStage::ClosingEpoll { error, .. } => Some(error),
            SetupStage::Finished(Err(e)) => Some(e),
            _ => None,
        }
    }

    /// The notifier, once it is there and for as long as the creation has not
    /// failed.
    pub open spec fn notifier(self) -> Option<Notifier> {
        match self.stage {
            SetupStage::CreatingTimer { notifier, .. } => Some(notifier),
            SetupStage::AddingTimer { poller, .. } => Some(poller.notifier),
            SetupStage::AddingNotifier { poller } => Some(poller.notifier),
            SetupStage::Finished(Ok(poller)) => Some(poller.notifier),
            _ => None,
        }
    }

    /// The epoll instance, once it is there and for as long as the creation has
    /// not failed.
    pub open spec fn epoll_fd(self) -> Option<i32> {
        match self.stage {
            SetupStage::CreatingNotifier { epoll_fd, .. } => Some(epoll_fd),
            SetupStage::CreatingTimer { epoll_fd, .. } => Some(epoll_fd),
            SetupStage::AddingTimer { poller, .. } => Some(poller.epoll_fd),
            SetupStage::AddingNotifier { poller } => Some(poller.epoll_fd),
            SetupStage::Finished(Ok(poller)) => Some(poller.epoll_fd),
            _ => None,
        }
    }

    /// Whether the creation works with a pipe.
    pub open spec fn uses_pipe(self) -> bool {
        match self.stage {
            SetupStage::CreatingNotifier { setup, .. } => !(setup.stage is CreatingEventFd) && !(
            setup.stage matches NotifierStage::Ready(Notifier::EventFd(_))),
            SetupStage::CreatingTimer { notifier, .. } => notifier is Pipe,
            SetupStage::AddingTimer { poller, .. } => poller.notifier is Pipe,
            SetupStage::AddingNotifier { poller } => poller.notifier is Pipe,
            SetupStage::Finished(Ok(poller)) => poller.notifier is Pipe,
            _ => false,
        }
    }
}

/// Whether a failure of the request ends the creation. An event descriptor, a
/// pipe with flags and a timer can be done without, and nothing depends on what
/// becomes of taking things down.
pub open spec fn is_essential(request: Request) -> bool {
    match request {
        Request::EventFdCreate { .. } => false,
        Request::PipeWith { .. } => false,
        Request::TimerFdCreate { .. } => false,
        Request::Delete { .. } => false,
        Request::Close { .. } => false,
        _ => true,
    }
}

/// Whether the answer at `i` is the first failure of a request that the creation
/// cannot do without.
pub open spec fn first_essential_failure(
    requests: Seq<Request>,
    replies: Seq<Reply>,
    i: int,
) -> bool {
    &&& 0 <= i < replies.len()
    &&& replies[i] is Failed
    &&& is_essential(requests[i])
    &&& forall|j: int|
        0 <= j < i ==> !(#[trigger] replies[j] is Failed && is_essential(requests[j]))
}

/// One step of the creation of a notifier keeps the account of descriptors.
proof fn lemma_notifier_step(setup: NotifierSetup, reply: Reply)
    requires
        setup.pending() matches Some(request) && request.is_answered_by(reply),
    ensures
        setup.held().add(reply.opened()) =~= setup.pending()->0.closed().add(
            setup.after(reply).held(),
        ),
{
}

/// One step of the creation of a poller keeps the account of descriptors and
/// comes closer to the end.
proof fn lemma_setup_step(setup: PollerSetup, reply: Reply)
    requires
        setup.pending() matches Some(request) && request.is_answered_by(reply),
    ensures
        setup.held().add(reply.opened()) =~= setup.pending()->0.closed().add(
            setup.after(reply).held(),
        ),
        setup.after(reply).rank() < setup.rank(),
        setup.after(reply).rank() >= 0,
{
    match setup.stage {
        SetupStage::CreatingNotifier { setup: inner, .. } => {
            lemma_notifier_step(inner, reply);
        },
        SetupStage::AddingTimer { poller, .. } => {
            law_teardown_closes_what_is_owned(poller);
            assert(poller.teardown_requests().skip(0) =~= poller.teardown_requests());
        },
        SetupStage::AddingNotifier { poller } => {
            law_teardown_closes_what_is_owned(poller);
            assert(poller.teardown_requests().skip(0) =~= poller.teardown_requests());
        },
        SetupStage::TakingDown { poller, at, .. } => {
            let requests = poller.teardown_requests();
            assert(requests.skip(at as int).drop_first() =~= requests.skip(at + 1));
            assert(requests.skip(at as int)[0] == requests[at as int]);
            if at + 1 == requests.len() {
                assert(closed_by(requests.skip(at + 1)) =~= Multiset::empty());
            }
        },
        _ => {},
    }
}

/// No descriptor is lost and none is closed that was not opened: at every point
/// of every creation, what the kernel handed over is what was closed and what
/// the creation still owns. A creation that failed owns nothing, and one that
/// succeeded owns what its poller owns.
pub proof fn law_setup_accounts_for_descriptors(target: Target, replies: Seq<Reply>)
    requires
        PollerSetup::start(target).answered(replies),
    ensures
        ({
            let start = PollerSetup::start(target);
            let closed = closed_by(start.asked(replies));
            &&& opened_by(replies) =~= closed.add(start.run(replies).held())
            &&& start.run(replies).stage matches SetupStage::Finished(Err(_)) ==> opened_by(replies)
                =~= closed
            &&& start.run(replies).stage matches SetupStage::Finished(Ok(poller)) ==> opened_by(
                replies,
            ) =~= closed.add(poller.fds())
        }),
    decreases replies.len(),
{
    let start = PollerSetup::start(target);
    if replies.len() > 0 {
        law_setup_accounts_for_descriptors(target, replies.drop_last());
        let before = start.run(replies.drop_last());
        let reply = replies.last();
        lemma_setup_step(before, reply);
        let request = before.pending()->0;
        let asked = start.asked(replies);
        let asked_before = start.asked(replies.drop_last());
        assert(asked == asked_before.push(request));
        lemma_closed_by_push(asked_before, request);
        assert(start.run(replies) == before.after(reply));
        let closed_before = closed_by(asked_before);
        assert(before.held().add(reply.opened()) == request.closed().add(
            before.after(reply).held(),
        ));
        assert(opened_by(replies) =~= closed_before.add(before.held().add(reply.opened())));
        assert(opened_by(replies) =~= closed_by(asked).add(before.after(reply).held()));
    } else {
        assert(opened_by(replies) =~= closed_by(start.asked(replies)).add(start.held()));
    }
}

/// Every creation ends after at most nineteen requests, and it ends with a
/// result.
pub proof fn law_setup_ends(target: Target, replies: Seq<Reply>)
    requires
        PollerSetup::start(target).answered(replies),
    ensures
        replies.len() <= 19,
        replies.len() == 19 ==> PollerSetup::start(target).run(replies).stage is Finished,
        PollerSetup::start(target).run(replies).pending() is None <==> PollerSetup::start(
            target,
        ).run(replies).stage is Finished,
{
    lemma_setup_rank(target, replies);
}

/// The number of answers and the rank of a creation stay within the rank of its
/// start, and a creation that has not ended has a request.
proof fn lemma_setup_rank(target: Target, replies: Seq<Reply>)
    requires
        PollerSetup::start(target).answered(replies),
    ensures
        ({
            let now = PollerSetup::start(target).run(replies);
            &&& now.rank() >= 0
            &&& replies.len() + now.rank() <= 19
            &&& now.pending() is None <==> now.stage is Finished
            &&& now.rank() == 0 <==> now.stage is Finished
        }),
    decreases replies.len(),
{
    if replies.len() > 0 {
        let start = PollerSetup::start(target);
        lemma_setup_rank(target, replies.drop_last());
        lemma_setup_step(start.run(replies.drop_last()), replies.last());
    }
}

/// A creation fails with the first failure of a request that it cannot do
/// without, and it succeeds only if there is none.
pub proof fn law_setup_result_is_first_essential_failure(target: Target, replies: Seq<Reply>)
    requires
        PollerSetup::start(target).answered(replies),
    ensures
        ({
            let start = PollerSetup::start(target);
            let requests = start.asked(replies);
            match start.run(replies).stage {
                SetupStage::Finished(Err(e)) => exists|i: int|
                    first_essential_failure(requests, replies, i) && replies[i] == Reply::Failed(e),
                SetupStage::Finished(Ok(_)) => forall|i: int|
                    0 <= i < replies.len() ==> !(#[trigger] replies[i] is Failed && is_essential(
                        requests[i],
                    )),
                _ => true,
            }
        }),
{
    lemma_setup_error(target, replies);
}

/// The error of a creation is that of the first essential failure.
proof fn lemma_setup_error(target: Target, replies: Seq<Reply>)
    requires
        PollerSetup::start(target).answered(replies),
    ensures
        ({
            let start = PollerSetup::start(target);
            let requests = start.asked(replies);
            &&& requests.len() == replies.len()
            &&& match start.run(replies).error() {
                Some(e) => exists|i: int|
                    first_essential_failure(requests, replies, i) && replies[i] == Reply::Failed(e),
                None => forall|i: int|
                    0 <= i < replies.len() ==> !(#[trigger] replies[i] is Failed && is_essential(
                        requests[i],
                    )),
            }
        }),
    decreases replies.len(),
{
    let start = PollerSetup::start(target);
    if replies.len() > 0 {
        let shorter = replies.drop_last();
        lemma_setup_error(target, shorter);
        let before = start.run(shorter);
        let requests = start.asked(replies);
        assert(requests.drop_last() =~= start.asked(shorter));
        match before.error() {
            Some(e) => {
                let i = choose|i: int|
                    first_essential_failure(start.asked(shorter), shorter, i) && shorter[i]
                        == Reply::Failed(e);
                assert(start.run(replies).error() == Some(e));
                assert forall|j: int| 0 <= j < i implies !(#[trigger] replies[j] is Failed
                    && is_essential(requests[j])) by {
                    assert(shorter[j] == replies[j]);
                }
                assert(first_essential_failure(requests, replies, i));
            },
            None => {
                let last = replies.len() - 1;
                assert forall|j: int| 0 <= j < last implies !(#[trigger] replies[j] is Failed
                    && is_essential(requests[j])) by {
                    assert(shorter[j] == replies[j]);
                }
                if replies.last() is Failed && is_essential(requests[last]) {
                    assert(first_essential_failure(requests, replies, last));
                }
            },
        }
    }
}

/// A poller that was created has its notifier registered for one readability
/// event under the poller's own key, as the last thing that was done. A timer
/// that it has was registered without interest just before. It has no timer only
/// if the platform has none or none could be created.
pub proof fn law_setup_registers(target: Target, replies: Seq<Reply>)
    requires
        PollerSetup::start(target).answered(replies),
        PollerSetup::start(target).run(replies).stage matches SetupStage::Finished(Ok(_)),
    ensures
        ({
            let start = PollerSetup::start(target);
            let requests = start.asked(replies);
            let poller = start.run(replies).stage->Finished_0->Ok_0;
            let n = replies.len();
            &&& n >= 2
            &&& requests.len() == n
            &&& requests[n - 1] == poller.add_request(
                poller.notifier.poll_fd(),
                own_interest(),
                PollMode::Oneshot,
            )
            &&& replies[n - 1] == Reply::Done
            &&& match poller.timer_fd {
                Some(timer_fd) => {
                    &&& n >= 3
                    &&& requests[n - 2] == poller.add_request(
                        timer_fd,
                        no_interest(),
                        PollMode::Oneshot,
                    )
                    &&& replies[n - 2] == Reply::Done
                    &&& replies[n - 3] == Reply::Descriptor(timer_fd)
                },
                None => !target.timerfd || (requests[n - 2] == Request::TimerFdCreate {
                    monotonic: true,
                    cloexec: true,
                    nonblock: true,
                } && replies[n - 2] is Failed),
            }
        }),
{
    let start = PollerSetup::start(target);
    let r1 = replies.drop_last();
    let r2 = r1.drop_last();
    lemma_setup_unfold(target, replies);
    lemma_setup_unfold(target, r1);
    assert(start.run(r1).stage is AddingNotifier);
    lemma_setup_unfold(target, r2);
}

/// The last step of a creation that has made one, and the constant parts.
pub(crate) proof fn lemma_setup_unfold(target: Target, replies: Seq<Reply>)
    requires
        PollerSetup::start(target).answered(replies),
    ensures
        ({
            let start = PollerSetup::start(target);
            let before = start.run(replies.drop_last());
            &&& start.run(replies).target == target
            &&& start.asked(replies).len() == replies.len()
            &&& replies.len() == 0 ==> start.run(replies) == start
            &&& replies.len() > 0 ==> {
                &&& start.answered(replies.drop_last())
                &&& before.target == target
                &&& start.run(replies) == before.after(replies.last())
                &&& before.pending() matches Some(request) && request.is_answered_by(replies.last())
                &&& start.asked(replies) == start.asked(replies.drop_last()).push(
                    before.pending()->0,
                )
            }
        }),
    decreases replies.len(),
{
    if replies.len() > 0 {
        lemma_setup_unfold(target, replies.drop_last());
    }
}

/// The epoll instance of a poller that was created is the first descriptor that
/// the kernel handed over.
pub proof fn law_setup_epoll_is_first_answer(target: Target, replies: Seq<Reply>)
    requires
        PollerSetup::start(target).answered(replies),
    ensures
        PollerSetup::start(target).run(replies).stage matches SetupStage::Finished(Ok(poller))
            ==> replies.len() > 0 && PollerSetup::start(target).asked(replies)[0]
            == (Request::EpollCreate { cloexec: true }) && replies[0] == Reply::Descriptor(
            poller.epoll_fd,
        ),
{
    lemma_setup_epoll(target, replies);
}

/// The epoll instance at each stage is the first answer.
proof fn lemma_setup_epoll(target: Target, replies: Seq<Reply>)
    requires
        PollerSetup::start(target).answered(replies),
    ensures
        replies.len() > 0 ==> PollerSetup::start(target).asked(replies)[0]
            == (Request::EpollCreate { cloexec: true }),
        PollerSetup::start(target).run(replies).epoll_fd() matches Some(epoll_fd) ==> replies.len()
            > 0 && replies[0] == Reply::Descriptor(epoll_fd),
    decreases replies.len(),
{
    lemma_setup_unfold(target, replies);
    if replies.len() > 0 {
        let shorter = replies.drop_last();
        lemma_setup_epoll(target, shorter);
        lemma_setup_unfold(target, shorter);
        lemma_setup_start_of_notifier(target, shorter);
        if shorter.len() > 0 {
            assert(shorter[0] == replies[0]);
        }
    }
}

/// A creation works with a pipe only if the platform has no event descriptors or
/// none could be created.
pub proof fn law_pipe_is_the_fallback(target: Target, replies: Seq<Reply>)
    requires
        PollerSetup::start(target).answered(replies),
        PollerSetup::start(target).run(replies).uses_pipe(),
    ensures
        !target.eventfd || (replies.len() >= 2 && PollerSetup::start(target).asked(replies)[1]
            == Request::EventFdCreate { initial: 0, cloexec: true, nonblock: true }
            && replies[1] is Failed),
{
    lemma_setup_start_of_notifier(target, replies);
}

/// Where the creation stands with respect to the event descriptor.
proof fn lemma_setup_start_of_notifier(target: Target, replies: Seq<Reply>)
    requires
        PollerSetup::start(target).answered(replies),
    ensures
        ({
            let start = PollerSetup::start(target);
            let now = start.run(replies);
            &&& start.asked(replies).len() == replies.len()
            &&& now.stage is CreatingEpoll <==> replies.len() == 0
            &&& (now.stage matches SetupStage::CreatingNotifier { setup, .. }
                && setup.stage is CreatingEventFd) ==> replies.len() == 1
            &&& (now.uses_pipe() && target.eventfd) ==> replies.len() >= 2 && start.asked(
                replies,
            )[1] == Request::EventFdCreate { initial: 0, cloexec: true, nonblock: true }
                && replies[1] is Failed
            &&& now.target == target
        }),
    decreases replies.len(),
{
    if replies.len() > 0 {
        let start = PollerSetup::start(target);
        let shorter = replies.drop_last();
        lemma_setup_start_of_notifier(target, shorter);
        let before = start.run(shorter);
        assert(start.asked(replies) == start.asked(shorter).push(before.pending()->0));
        if shorter.len() >= 2 {
            assert(shorter[1] == replies[1]);
        }
    }
}

/// A pipe that becomes a notifier was made ready for it. Its read end was made
/// non-blocking, with the other status flags kept. Either it was created so that
/// it closes on execution, or that flag was added to the flags of both ends.
pub proof fn law_pipe_is_prepared(
    eventfd: bool,
    cloexec: u32,
    nonblock: u32,
    replies: Seq<Reply>,
)
    requires
        NotifierSetup::start(eventfd, cloexec, nonblock).answered(replies),
        NotifierSetup::start(eventfd, cloexec, nonblock).run(replies).stage matches NotifierStage::Ready(
            Notifier::Pipe { .. },
        ),
    ensures
        ({
            let start = NotifierSetup::start(eventfd, cloexec, nonblock);
            let requests = start.asked(replies);
            let notifier = start.run(replies).stage->Ready_0;
            let read = notifier->read_pipe;
            let write = notifier->write_pipe;
            let n = replies.len();
            &&& n >= 3
            &&& requests.len() == n
            &&& requests[n - 2] == Request::GetStatusFlags { fd: read }
            &&& replies[n - 2] is Flags
            &&& requests[n - 1] == Request::SetStatusFlags {
                fd: read,
                flags: replies[n - 2]->Flags_0 | nonblock,
            }
            &&& replies[n - 1] == Reply::Done
            &&& {
                ||| requests[n - 3] == Request::PipeWith { cloexec: true } && replies[n - 3]
                    == Reply::Pair(read, write)
                ||| {
                    &&& n >= 7
                    &&& requests[n - 7] == Request::Pipe
                    &&& replies[n - 7] == Reply::Pair(read, write)
                    &&& requests[n - 6] == Request::GetFdFlags { fd: read }
                    &&& replies[n - 6] is Flags
                    &&& requests[n - 5] == Request::SetFdFlags {
                        fd: read,
                        flags: replies[n - 6]->Flags_0 | cloexec,
                    }
                    &&& replies[n - 5] == Reply::Done
                    &&& requests[n - 4] == Request::GetFdFlags { fd: write }
                    &&& replies[n - 4] is Flags
                    &&& requests[n - 3] == Request::SetFdFlags {
                        fd: write,
                        flags: replies[n - 4]->Flags_0 | cloexec,
                    }
                    &&& replies[n - 3] == Reply::Done
                }
            }
        }),
{
    let start = NotifierSetup::start(eventfd, cloexec, nonblock);
    let r1 = replies.drop_last();
    let r2 = r1.drop_last();
    let r3 = r2.drop_last();
    lemma_notifier_unfold(start, replies);
    lemma_notifier_unfold(start, r1);
    lemma_notifier_unfold(start, r2);
    assert(start.run(r1).stage is SettingStatus);
    assert(start.run(r2).stage is GettingStatus);
    if start.run(r3).stage is SettingWriteFlags {
        let r4 = r3.drop_last();
        let r5 = r4.drop_last();
        let r6 = r5.drop_last();
        lemma_notifier_unfold(start, r3);
        assert(start.run(r4).stage is GettingWriteFlags);
        lemma_notifier_unfold(start, r4);
        assert(start.run(r5).stage is SettingReadFlags);
        lemma_notifier_unfold(start, r5);
        assert(start.run(r6).stage is GettingReadFlags);
        lemma_notifier_unfold(start, r6);
    }
}

/// The last step of a creation that has made one, and the constant parts.
proof fn lemma_notifier_unfold(start: NotifierSetup, replies: Seq<Reply>)
    requires
        start.answered(replies),
        start.stage is CreatingEventFd || start.stage is CreatingPipeWith,
    ensures
        start.run(replies).cloexec == start.cloexec,
        start.run(replies).nonblock == start.nonblock,
        start.asked(replies).len() == replies.len(),
        replies.len() == 0 ==> start.run(replies) == start,
        replies.len() > 0 ==> {
            let before = start.run(replies.drop_last());
            &&& start.answered(replies.drop_last())
            &&& before.cloexec == start.cloexec
            &&& before.nonblock == start.nonblock
            &&& start.run(replies) == before.after(replies.last())
            &&& before.pending() matches Some(request) && request.is_answered_by(replies.last())
            &&& start.asked(replies) == start.asked(replies.drop_last()).push(
                before.pending()->0,
            )
        },
    decreases replies.len(),
{
    if replies.len() > 0 {
        lemma_notifier_unfold(start, replies.drop_last());
    }
}

/// Whether the creation of a notifier, with `m` the number of answers at which it
/// stands, is the part of the creation of a poller that follows the first
/// answer.
pub open spec fn is_notifier_part(target: Target, replies: Seq<Reply>, m: int) -> bool {
    let inner = NotifierSetup::start(target.eventfd, target.cloexec, target.nonblock);
    let part = replies.subrange(1, m);
    &&& 1 <= m <= replies.len()
    &&& inner.answered(part)
    &&& inner.asked(part) == PollerSetup::start(target).asked(replies).subrange(1, m)
}

/// The notifier of a poller is created by the requests and answers that follow
/// the creation of the epoll instance, so what holds of every creation of a
/// notifier holds of it.
pub proof fn law_setup_creates_notifier(target: Target, replies: Seq<Reply>)
    requires
        PollerSetup::start(target).answered(replies),
        PollerSetup::start(target).run(replies).notifier() is Some,
    ensures
        exists|m: int|
            #![trigger replies.subrange(1, m)]
            is_notifier_part(target, replies, m) && NotifierSetup::start(
                target.eventfd,
                target.cloexec,
                target.nonblock,
            ).run(replies.subrange(1, m)).stage == NotifierStage::Ready(
                PollerSetup::start(target).run(replies).notifier()->0,
            ),
{
    lemma_notifier_part(target, replies);
}

/// Where the creation of the notifier stands within that of the poller.
proof fn lemma_notifier_part(target: Target, replies: Seq<Reply>)
    requires
        PollerSetup::start(target).answered(replies),
    ensures
        ({
            let now = PollerSetup::start(target).run(replies);
            let inner = NotifierSetup::start(target.eventfd, target.cloexec, target.nonblock);
            &&& now.stage matches SetupStage::CreatingNotifier { setup, .. } ==> {
                &&& is_notifier_part(target, replies, replies.len() as int)
                &&& setup == inner.run(replies.subrange(1, replies.len() as int))
            }
            &&& now.notifier() matches Some(notifier) ==> exists|m: int|
                #![trigger replies.subrange(1, m)]
                is_notifier_part(target, replies, m) && inner.run(replies.subrange(1, m)).stage
                    == NotifierStage::Ready(notifier)
        }),
    decreases replies.len(),
{
    let start = PollerSetup::start(target);
    let inner = NotifierSetup::start(target.eventfd, target.cloexec, target.nonblock);
    lemma_setup_unfold(target, replies);
    if replies.len() > 0 {
        let shorter = replies.drop_last();
        let n = replies.len() as int;
        lemma_notifier_part(target, shorter);
        lemma_setup_unfold(target, shorter);
        let before = start.run(shorter);
        let now = start.run(replies);
        match before.stage {
            SetupStage::CreatingEpoll => {
                lemma_setup_start_of_notifier(target, shorter);
                assert(replies.subrange(1, n) =~= Seq::<Reply>::empty());
                assert(start.asked(replies).subrange(1, n) =~= Seq::<Request>::empty());
            },
            SetupStage::CreatingNotifier { setup, .. } => {
                let part = replies.subrange(1, n);
                assert(part.drop_last() =~= shorter.subrange(1, n - 1));
                assert(part.last() == replies.last());
                assert(start.asked(replies).subrange(1, n) =~= start.asked(shorter).subrange(
                    1,
                    n - 1,
                ).push(before.pending()->0));
                assert(inner.asked(part) == inner.asked(part.drop_last()).push(
                    inner.run(part.drop_last()).pending()->0,
                ));
                assert(inner.run(part) == setup.after(replies.last()));
                assert(is_notifier_part(target, replies, n));
            },
            _ => {
                if let Some(notifier) = now.notifier() {
                    assert(before.notifier() == Some(notifier));
                    let m = choose|m: int|
                        #![trigger shorter.subrange(1, m)]
                        is_notifier_part(target, shorter, m) && inner.run(
                            shorter.subrange(1, m),
                        ).stage == NotifierStage::Ready(notifier);
                    assert(replies.subrange(1, m) =~= shorter.subrange(1, m));
                    assert(start.asked(replies).subrange(1, m) =~= start.asked(shorter).subrange(
                        1,
                        m,
                    ));
                    assert(is_notifier_part(target, replies, m));
                }
            },
        }
    }
}

/// Every descriptor that a creation asks for is to be closed on execution, and
/// event descriptors and timers are to be non-blocking. The one exception is a
/// plain pipe, which is asked for only after one that closes on execution could
/// not be created.
pub proof fn law_setup_asks_for_close_on_exec(target: Target, replies: Seq<Reply>)
    requires
        PollerSetup::start(target).answered(replies),
    ensures
        ({
            let asked = PollerSetup::start(target).asked(replies);
            forall|i: int|
                0 <= i < replies.len() ==> is_non_blocking(#[trigger] asked[i]) && (closes_on_exec(
                    asked[i],
                ) || (asked[i] == Request::Pipe && is_fallback_pipe(asked, replies, i)))
        }),
{
    let asked = PollerSetup::start(target).asked(replies);
    assert forall|i: int| 0 <= i < replies.len() implies is_non_blocking(#[trigger] asked[i]) && (
    closes_on_exec(asked[i]) || (asked[i] == Request::Pipe && is_fallback_pipe(
        asked,
        replies,
        i,
    ))) by {
        lemma_setup_asked_at(target, replies, i);
    }
}

/// What is asked for at one point of a creation.
proof fn lemma_setup_asked_at(target: Target, replies: Seq<Reply>, i: int)
    requires
        PollerSetup::start(target).answered(replies),
        0 <= i < replies.len(),
    ensures
        ({
            let asked = PollerSetup::start(target).asked(replies);
            is_non_blocking(asked[i]) && (closes_on_exec(asked[i]) || (asked[i] == Request::Pipe
                && is_fallback_pipe(asked, replies, i)))
        }),
    decreases replies.len(),
{
    let start = PollerSetup::start(target);
    let shorter = replies.drop_last();
    lemma_setup_unfold(target, replies);
    lemma_setup_unfold(target, shorter);
    if i < shorter.len() {
        lemma_setup_asked_at(target, shorter, i);
    } else {
        lemma_pending_closes_on_exec(start.run(shorter));
        if i > 0 && start.run(shorter).pending() == Some(Request::Pipe) {
            lemma_plain_pipe_is_fallback(start.run(shorter.drop_last()), shorter.last());
        }
    }
}

/// A creation asks for nothing that stays open on execution, other than a plain
/// pipe, and for nothing that blocks.
proof fn lemma_pending_closes_on_exec(setup: PollerSetup)
    ensures
        setup.pending() matches Some(request) ==> is_non_blocking(request) && (closes_on_exec(
            request,
        ) || request == Request::Pipe),
{
}

/// A plain pipe is asked for only after one with its flags was refused.
proof fn lemma_plain_pipe_is_fallback(setup: PollerSetup, reply: Reply)
    requires
        setup.pending() matches Some(request) && request.is_answered_by(reply),
        setup.after(reply).pending() == Some(Request::Pipe),
    ensures
        setup.pending() == Some(Request::PipeWith { cloexec: true }),
        reply is Failed,
{
}

/// Whether the request at `i` follows one for a pipe that closes on execution,
/// which failed.
pub open spec fn is_fallback_pipe(requests: Seq<Request>, replies: Seq<Reply>, i: int) -> bool {
    &&& i > 0
    &&& requests[i - 1] == (Request::PipeWith { cloexec: true })
    &&& replies[i - 1] is Failed
}

/// Whether a request leaves nothing open on execution: one that opens a
/// descriptor asks for it to be closed then.
pub open spec fn closes_on_exec(request: Request) -> bool {
    match request {
        Request::EpollCreate { cloexec } => cloexec,
        Request::EventFdCreate { cloexec, .. } => cloexec,
        Request::TimerFdCreate { cloexec, .. } => cloexec,
        Request::PipeWith { cloexec } => cloexec,
        Request::Pipe => false,
        _ => true,
    }
}

/// Whether a request that opens an event descriptor or a timer asks for it to be
/// non-blocking.
pub open spec fn is_non_blocking(request: Request) -> bool {
    match request {
        Request::EventFdCreate { nonblock, .. } => nonblock,
        Request::TimerFdCreate { nonblock, .. } => nonblock,
        _ => true,
    }
}

/// Where a creation stands before and after each answer.
proof fn lemma_setup_at(target: Target, replies: Seq<Reply>, i: int)
    requires
        PollerSetup::start(target).answered(replies),
        0 <= i < replies.len(),
    ensures
        ({
            let start = PollerSetup::start(target);
            let before = start.run(replies.take(i));
            &&& start.asked(replies).len() == replies.len()
            &&& before.target == target
            &&& before.pending() == Some(start.asked(replies)[i])
            &&& start.asked(replies)[i].is_answered_by(replies[i])
            &&& start.run(replies.take(i + 1)) == before.after(replies[i])
        }),
    decreases replies.len(),
{
    let shorter = replies.drop_last();
    lemma_setup_unfold(target, replies);
    lemma_setup_unfold(target, shorter);
    if i < shorter.len() {
        lemma_setup_at(target, shorter, i);
        assert(shorter.take(i) =~= replies.take(i));
        assert(shorter.take(i + 1) =~= replies.take(i + 1));
    } else {
        assert(replies.take(i) =~= shorter);
        assert(replies.take(i + 1) =~= replies);
    }
}

/// The number of the request for a pipe that closes on execution, if it comes to
/// that.
pub open spec fn at_pipe_with(target: Target) -> int {
    if target.eventfd {
        2
    } else {
        1
    }
}

/// Whether an event descriptor was handed over.
pub open spec fn got_event_fd(target: Target, replies: Seq<Reply>) -> bool {
    target.eventfd && replies[1] is Descriptor
}

/// Whether a pipe that closes on execution was refused.
pub open spec fn needs_plain_pipe(target: Target, replies: Seq<Reply>) -> bool {
    replies[at_pipe_with(target)] is Failed
}

/// The answer that hands the pipe over.
pub open spec fn pipe_answer(target: Target, replies: Seq<Reply>) -> Reply {
    if needs_plain_pipe(target, replies) {
        replies[at_pipe_with(target) + 1]
    } else {
        replies[at_pipe_with(target)]
    }
}

/// The notifier that was handed over.
pub open spec fn notifier_answer(target: Target, replies: Seq<Reply>) -> Notifier {
    if got_event_fd(target, replies) {
        Notifier::EventFd(replies[1]->Descriptor_0)
    } else {
        Notifier::Pipe {
            read_pipe: pipe_answer(target, replies)->Pair_0,
            write_pipe: pipe_answer(target, replies)->Pair_1,
        }
    }
}

/// The number of the request that gets the status flags of a pipe.
pub open spec fn at_status(target: Target, replies: Seq<Reply>) -> int {
    if needs_plain_pipe(target, replies) {
        at_pipe_with(target) + 6
    } else {
        at_pipe_with(target) + 1
    }
}

/// The number of the request that follows the creation of the notifier.
pub open spec fn at_timer(target: Target, replies: Seq<Reply>) -> int {
    if got_event_fd(target, replies) {
        2
    } else {
        at_status(target, replies) + 2
    }
}

/// The timer that was handed over.
pub open spec fn timer_answer(target: Target, replies: Seq<Reply>) -> Option<i32> {
    match replies[at_timer(target, replies)] {
        Reply::Descriptor(timer_fd) if target.timerfd => Some(timer_fd),
        _ => None,
    }
}

/// The number of the request that registers the notifier.
pub open spec fn at_notifier(target: Target, replies: Seq<Reply>) -> int {
    let at = at_timer(target, replies);
    if !target.timerfd {
        at
    } else if timer_answer(target, replies) is Some {
        at + 2
    } else {
        at + 1
    }
}

/// The poller that was handed over in parts.
pub open spec fn poller_answer(target: Target, replies: Seq<Reply>) -> Poller {
    Poller {
        epoll_fd: replies[0]->Descriptor_0,
        notifier: notifier_answer(target, replies),
        timer_fd: timer_answer(target, replies),
    }
}

/// The stage of a creation before the request with the given number, as long as
/// nothing essential has failed.
spec fn stage_at(target: Target, replies: Seq<Reply>, j: int) -> SetupStage {
    let s = at_pipe_with(target);
    let u = at_status(target, replies);
    let m = at_timer(target, replies);
    let poller = poller_answer(target, replies);
    let ends = Ends {
        read: pipe_answer(target, replies)->Pair_0,
        write: pipe_answer(target, replies)->Pair_1,
    };
    if j == 0 {
        SetupStage::CreatingEpoll
    } else if j == 1 || j < m {
        SetupStage::CreatingNotifier {
            epoll_fd: poller.epoll_fd,
            setup: NotifierSetup {
                cloexec: target.cloexec,
                nonblock: target.nonblock,
                stage: if j == 1 && target.eventfd {
                    NotifierStage::CreatingEventFd
                } else if j == s {
                    NotifierStage::CreatingPipeWith
                } else if j == u {
                    NotifierStage::GettingStatus(ends)
                } else if j == u + 1 {
                    NotifierStage::SettingStatus(ends, replies[u]->Flags_0 | target.nonblock)
                } else if j == s + 1 {
                    NotifierStage::CreatingPipe
                } else if j == s + 2 {
                    NotifierStage::GettingReadFlags(ends)
                } else if j == s + 3 {
                    NotifierStage::SettingReadFlags(ends, replies[s + 2]->Flags_0 | target.cloexec)
                } else if j == s + 4 {
                    NotifierStage::GettingWriteFlags(ends)
                } else {
                    NotifierStage::SettingWriteFlags(ends, replies[s + 4]->Flags_0 | target.cloexec)
                },
            },
        }
    } else if j == m && target.timerfd {
        SetupStage::CreatingTimer { epoll_fd: poller.epoll_fd, notifier: poller.notifier }
    } else if j < at_notifier(target, replies) {
        SetupStage::AddingTimer { poller, timer_fd: poller.timer_fd->0 }
    } else if j == at_notifier(target, replies) {
        SetupStage::AddingNotifier { poller }
    } else {
        SetupStage::Finished(Ok(poller))
    }
}

/// As long as nothing essential has failed, that is the stage.
proof fn lemma_stage_at(target: Target, replies: Seq<Reply>, j: int)
    requires
        PollerSetup::start(target).answered(replies),
        0 <= j <= replies.len(),
        forall|i: int|
            0 <= i < j ==> !(#[trigger] replies[i] is Failed && is_essential(
                PollerSetup::start(target).asked(replies)[i],
            )),
    ensures
        PollerSetup::start(target).run(replies.take(j)).stage == stage_at(target, replies, j),
        j <= at_notifier(target, replies) + 1,
    decreases j,
{
    if j > 0 {
        lemma_stage_at(target, replies, j - 1);
        lemma_setup_at(target, replies, j - 1);
        let before = PollerSetup::start(target).run(replies.take(j - 1));
        assert(!(replies[j - 1] is Failed && is_essential(before.pending()->0)));
        lemma_stage_step(target, replies, j - 1, before);
    } else {
        assert(replies.take(0).len() == 0);
    }
}

/// One step of that.
proof fn lemma_stage_step(target: Target, replies: Seq<Reply>, j: int, before: PollerSetup)
    requires
        0 <= j < replies.len(),
        before.target == target,
        before.stage == stage_at(target, replies, j),
        j <= at_notifier(target, replies) + 1,
        before.pending() matches Some(request) && request.is_answered_by(replies[j]) && !(
        replies[j] is Failed && is_essential(request)),
    ensures
        before.after(replies[j]).stage == stage_at(target, replies, j + 1),
        j <= at_notifier(target, replies),
{
}

/// What a creation asks for, from the platform and the answers, as long as
/// nothing essential has failed: an epoll instance; an event descriptor, where
/// the platform has them; in default of that a pipe that closes on execution, or
/// else a plain one that gets the flag for it on both ends; that the read end of
/// a pipe does not block; a timer, where the platform has them, which is
/// registered for nothing; and that the notifier is registered.
pub proof fn law_setup_asks_in_turn(target: Target, replies: Seq<Reply>)
    requires
        PollerSetup::start(target).answered(replies),
        forall|i: int|
            0 <= i < replies.len() - 1 ==> !(#[trigger] replies[i] is Failed && is_essential(
                PollerSetup::start(target).asked(replies)[i],
            )),
    ensures
        ({
            let asked = PollerSetup::start(target).asked(replies);
            let k = replies.len() as int;
            let event = got_event_fd(target, replies);
            let plain = needs_plain_pipe(target, replies);
            let s = at_pipe_with(target);
            let u = at_status(target, replies);
            let m = at_timer(target, replies);
            let x = at_notifier(target, replies);
            let epoll_fd = replies[0]->Descriptor_0;
            let read = pipe_answer(target, replies)->Pair_0;
            let write = pipe_answer(target, replies)->Pair_1;
            let data = usize::MAX as u64;
            &&& asked.len() == k
            &&& k <= x + 1
            &&& k > 0 ==> asked[0] == (Request::EpollCreate { cloexec: true })
            &&& k > 1 && target.eventfd ==> asked[1] == (Request::EventFdCreate {
                initial: 0,
                cloexec: true,
                nonblock: true,
            })
            &&& k > s && !event ==> {
                &&& asked[s] == (Request::PipeWith { cloexec: true })
                &&& k > s + 1 && plain ==> asked[s + 1] == Request::Pipe
                &&& k > s + 2 && plain ==> asked[s + 2] == (Request::GetFdFlags { fd: read })
                &&& k > s + 3 && plain ==> asked[s + 3] == (Request::SetFdFlags {
                    fd: read,
                    flags: replies[s + 2]->Flags_0 | target.cloexec,
                })
                &&& k > s + 4 && plain ==> asked[s + 4] == (Request::GetFdFlags { fd: write })
                &&& k > s + 5 && plain ==> asked[s + 5] == (Request::SetFdFlags {
                    fd: write,
                    flags: replies[s + 4]->Flags_0 | target.cloexec,
                })
                &&& k > u ==> asked[u] == (Request::GetStatusFlags { fd: read })
                &&& k > u + 1 ==> asked[u + 1] == (Request::SetStatusFlags {
                    fd: read,
                    flags: replies[u]->Flags_0 | target.nonblock,
                })
            }
            &&& k > m && target.timerfd ==> asked[m] == (Request::TimerFdCreate {
                monotonic: true,
                cloexec: true,
                nonblock: true,
            })
            &&& k > m + 1 && x == m + 2 ==> asked[m + 1] == (Request::Add {
                epoll_fd,
                fd: replies[m]->Descriptor_0,
                data,
                flags: EPOLLONESHOT,
            })
            &&& k > x ==> asked[x] == (Request::Add {
                epoll_fd,
                fd: if event {
                    replies[1]->Descriptor_0
                } else {
                    read
                },
                data,
                flags: EPOLLONESHOT | EPOLLIN | EPOLLPRI | EPOLLERR | EPOLLHUP,
            })
        }),
{
    let start = PollerSetup::start(target);
    let k = replies.len() as int;
    lemma_setup_unfold(target, replies);
    if k > 0 {
        lemma_stage_at(target, replies, k - 1);
        lemma_setup_at(target, replies, k - 1);
        assert(k <= at_notifier(target, replies) + 1);
    }
    assert forall|j: int| 0 <= j < k implies #[trigger] start.asked(replies)[j] == PollerSetup {
        target,
        stage: stage_at(target, replies, j),
    }.pending()->0 by {
        lemma_stage_at(target, replies, j);
        lemma_setup_at(target, replies, j);
    }
    let poller = poller_answer(target, replies);
    law_own_registrations(poller, poller.notifier.poll_fd());
    if let Some(timer_fd) = poller.timer_fd {
        law_own_registrations(poller, timer_fd);
    }
}

/// A creation succeeds if and only if the notifier was registered and nothing
/// essential has failed, and its poller is made of what was handed over.
pub proof fn law_setup_hands_over_poller(target: Target, replies: Seq<Reply>)
    requires
        PollerSetup::start(target).answered(replies),
    ensures
        ({
            let start = PollerSetup::start(target);
            let result = start.run(replies).result();
            let x = at_notifier(target, replies);
            let created = replies.len() == x + 1 && forall|i: int|
                0 <= i < replies.len() ==> !(#[trigger] replies[i] is Failed && is_essential(
                    start.asked(replies)[i],
                ));
            &&& created ==> result is Some && result->0 is Ok
            &&& result matches Some(Ok(poller)) ==> {
                &&& created
                &&& replies[0] == Reply::Descriptor(poller.epoll_fd)
                &&& match poller.notifier {
                    Notifier::EventFd(fd) => target.eventfd && replies[1] == Reply::Descriptor(fd),
                    Notifier::Pipe { read_pipe, write_pipe } => {
                        &&& target.eventfd ==> replies[1] is Failed
                        &&& pipe_answer(target, replies) == Reply::Pair(read_pipe, write_pipe)
                    },
                }
                &&& match poller.timer_fd {
                    Some(timer_fd) => target.timerfd && replies[at_timer(target, replies)]
                        == Reply::Descriptor(timer_fd),
                    None => !target.timerfd || replies[at_timer(target, replies)] is Failed,
                }
            }
        }),
{
    let start = PollerSetup::start(target);
    let k = replies.len() as int;
    let x = at_notifier(target, replies);
    assert(replies.take(k) =~= replies);
    lemma_setup_error(target, replies);
    if forall|i: int|
        0 <= i < replies.len() ==> !(#[trigger] replies[i] is Failed && is_essential(
            start.asked(replies)[i],
        )) {
        lemma_stage_at(target, replies, k);
        if k == x + 1 {
            let s = at_pipe_with(target);
            lemma_setup_at(target, replies, 0);
            lemma_setup_at(target, replies, 1);
            lemma_stage_at(target, replies, 0);
            lemma_stage_at(target, replies, 1);
            if !got_event_fd(target, replies) {
                lemma_stage_at(target, replies, s);
                lemma_setup_at(target, replies, s);
                if needs_plain_pipe(target, replies) {
                    lemma_stage_at(target, replies, s + 1);
                    lemma_setup_at(target, replies, s + 1);
                }
            }
            if target.timerfd {
                lemma_stage_at(target, replies, at_timer(target, replies));
                lemma_setup_at(target, replies, at_timer(target, replies));
            }
        }
    }
}

/// What a creation asks for after an essential failure, until it ends with that
/// error: what was opened is closed, and what was registered is unregistered
/// first. A pipe whose flags could not be set is closed from its write end; a
/// poller whose own descriptors could not be registered is taken down.
pub proof fn law_setup_failure_takes_down(target: Target, replies: Seq<Reply>, i: int)
    requires
        PollerSetup::start(target).answered(replies),
        first_essential_failure(PollerSetup::start(target).asked(replies), replies, i),
    ensures
        ({
            let asked = PollerSetup::start(target).asked(replies);
            let epoll_fd = replies[0]->Descriptor_0;
            let poller = poller_answer(target, replies);
            let rest: Seq<Request> = match asked[i] {
                Request::EpollCreate { .. } => Seq::empty(),
                Request::Pipe => seq![Request::Close { fd: epoll_fd }],
                Request::Add { .. } => poller.teardown_requests(),
                _ => seq![
                    Request::Close { fd: pipe_answer(target, replies)->Pair_1 },
                    Request::Close { fd: pipe_answer(target, replies)->Pair_0 },
                    Request::Close { fd: epoll_fd },
                ],
            };
            let result = PollerSetup::start(target).run(replies).result();
            &&& replies.len() <= i + 1 + rest.len()
            &&& forall|j: int| i < j < replies.len() ==> #[trigger] asked[j] == rest[j - i - 1]
            &&& result is Some <==> replies.len() == i + 1 + rest.len()
            &&& result is Some ==> result->0 == Err::<Poller, Errno>(replies[i]->Failed_0)
        }),
{
    let start = PollerSetup::start(target);
    let asked = start.asked(replies);
    let k = replies.len() as int;
    assert(replies.take(k) =~= replies);
    lemma_takes_down(target, replies, i, k);
    lemma_stage_at(target, replies, i);
    lemma_setup_at(target, replies, i);
    assert forall|j: int| i < j < replies.len() implies #[trigger] asked[j] == PollerSetup {
        target,
        stage: stage_after_failure(target, replies, i, j),
    }.pending()->0 by {
        lemma_setup_at(target, replies, j);
        lemma_takes_down(target, replies, i, j);
    }
}

/// The stage before the request with the given number, after an essential
/// failure of that at `i`.
spec fn stage_after_failure(target: Target, replies: Seq<Reply>, i: int, j: int) -> SetupStage {
    let asked = PollerSetup::start(target).asked(replies);
    let poller = poller_answer(target, replies);
    let epoll_fd = poller.epoll_fd;
    let error = replies[i]->Failed_0;
    let ends = Ends {
        read: pipe_answer(target, replies)->Pair_0,
        write: pipe_answer(target, replies)->Pair_1,
    };
    match asked[i] {
        Request::EpollCreate { .. } => SetupStage::Finished(Err(error)),
        Request::Pipe => if j == i + 1 {
            SetupStage::ClosingEpoll { epoll_fd, error }
        } else {
            SetupStage::Finished(Err(error))
        },
        Request::Add { .. } => if j - i - 1 < poller.teardown_requests().len() {
            SetupStage::TakingDown { poller, at: (j - i - 1) as usize, error }
        } else {
            SetupStage::Finished(Err(error))
        },
        _ => if j == i + 1 || j == i + 2 {
            SetupStage::CreatingNotifier {
                epoll_fd,
                setup: NotifierSetup {
                    cloexec: target.cloexec,
                    nonblock: target.nonblock,
                    stage: if j == i + 1 {
                        NotifierStage::ClosingWrite(ends, error)
                    } else {
                        NotifierStage::ClosingRead(ends.read, error)
                    },
                },
            }
        } else if j == i + 3 {
            SetupStage::ClosingEpoll { epoll_fd, error }
        } else {
            SetupStage::Finished(Err(error))
        },
    }
}

/// After an essential failure, that is the stage.
proof fn lemma_takes_down(target: Target, replies: Seq<Reply>, i: int, j: int)
    requires
        PollerSetup::start(target).answered(replies),
        first_essential_failure(PollerSetup::start(target).asked(replies), replies, i),
        i < j <= replies.len(),
    ensures
        PollerSetup::start(target).run(replies.take(j)).stage == stage_after_failure(
            target,
            replies,
            i,
            j,
        ),
        j == i + 1 || !(stage_after_failure(target, replies, i, j - 1) is Finished),
    decreases j,
{
    lemma_setup_at(target, replies, j - 1);
    law_teardown_order(poller_answer(target, replies));
    if j == i + 1 {
        lemma_stage_at(target, replies, i);
    } else {
        lemma_takes_down(target, replies, i, j - 1);
    }
}

} // verus!
