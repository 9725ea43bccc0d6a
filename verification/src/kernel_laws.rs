//! What the requests of a poller come to, on a kernel that answers them as epoll,
//! event descriptors, pipes and timers do. How such a kernel answers is a
//! condition of each of these laws.

use crate::event::{Event, PollMode, NOTIFY_KEY};
use crate::events::{event_of, RawEvent};
use crate::flags::{has_any, read_bits, EPOLLERR, EPOLLHUP, EPOLLIN, EPOLLPRI};
use crate::notifier::{Notifier, EVENT_LEN, PIPE_LEN};
use crate::poller::{law_registration_flags, own_interest, registration_bits, Poller};
use crate::request::{Reply, Request};
use crate::setup::{PollerSetup, SetupStage, Target};
use crate::setup_laws::{law_setup_registers, lemma_setup_unfold};
use crate::time::{timer_value, ts_zero};
use crate::wait::{WaitStage, WaitView};
use crate::wait_laws::{
    law_wait_failure_is_first_failure, law_wait_order, law_wait_reports_once,
    law_wait_success_rearms, lemma_answer_fits,
};
use vstd::prelude::*;

verus! {

/// What a descriptor is registered with.
pub struct Registration {
    /// The data that comes with its events.
    pub data: u64,
    /// The mode and the interest.
    pub flags: u32,
}

/// The registrations, by epoll instance and descriptor.
pub type Registrations = Map<(i32, i32), Registration>;

/// Whether a registration can be made, changed or removed: what is made must not
/// be there, and what is changed or removed must.
pub open spec fn can_succeed(table: Registrations, request: Request) -> bool {
    match request {
        Request::Add { epoll_fd, fd, .. } => !table.contains_key((epoll_fd, fd)),
        Request::Modify { epoll_fd, fd, .. } => table.contains_key((epoll_fd, fd)),
        Request::Delete { epoll_fd, fd } => table.contains_key((epoll_fd, fd)),
        _ => true,
    }
}

/// The registrations after a request. One that failed leaves them as they were.
pub open spec fn registrations_after(
    table: Registrations,
    request: Request,
    reply: Reply,
) -> Registrations {
    match (request, reply) {
        (_, Reply::Failed(_)) => table,
        (Request::Add { epoll_fd, fd, data, flags }, _) => table.insert(
            (epoll_fd, fd),
            Registration { data, flags },
        ),
        (Request::Modify { epoll_fd, fd, data, flags }, _) => table.insert(
            (epoll_fd, fd),
            Registration { data, flags },
        ),
        (Request::Delete { epoll_fd, fd }, _) => table.remove((epoll_fd, fd)),
        _ => table,
    }
}

/// The registrations after a descriptor's registration was changed any number of
/// times, whether or not each change succeeded.
pub open spec fn registrations_after_changes(
    table: Registrations,
    poller: Poller,
    fd: i32,
    changes: Seq<(Event, PollMode, Reply)>,
) -> Registrations
    decreases changes.len(),
{
    if changes.len() == 0 {
        table
    } else {
        let (ev, mode, reply) = changes.last();
        registrations_after(
            registrations_after_changes(table, poller, fd, changes.drop_last()),
            poller.modify_request(fd, ev, mode),
            reply,
        )
    }
}

/// Adding a descriptor, modifying it any number of times and deleting it leaves
/// the registrations as they were, and then it can be added again. Until it is
/// deleted it can be modified and deleted, but not added.
pub proof fn law_delete_undoes_add(
    table: Registrations,
    poller: Poller,
    fd: i32,
    ev: Event,
    mode: PollMode,
    changes: Seq<(Event, PollMode, Reply)>,
    again: Event,
    again_mode: PollMode,
)
    requires
        can_succeed(table, poller.add_request(fd, ev, mode)),
    ensures
        ({
            let added = registrations_after(table, poller.add_request(fd, ev, mode), Reply::Done);
            let changed = registrations_after_changes(added, poller, fd, changes);
            let delete = Request::Delete { epoll_fd: poller.epoll_fd, fd };
            &&& !can_succeed(changed, poller.add_request(fd, again, again_mode))
            &&& can_succeed(changed, poller.modify_request(fd, again, again_mode))
            &&& can_succeed(changed, delete)
            &&& registrations_after(changed, delete, Reply::Done) =~= table
            &&& can_succeed(
                registrations_after(changed, delete, Reply::Done),
                poller.add_request(fd, again, again_mode),
            )
        }),
    decreases changes.len(),
{
    if changes.len() > 0 {
        law_delete_undoes_add(
            table,
            poller,
            fd,
            ev,
            mode,
            changes.drop_last(),
            again,
            again_mode,
        );
        let added = registrations_after(table, poller.add_request(fd, ev, mode), Reply::Done);
        let before = registrations_after_changes(added, poller, fd, changes.drop_last());
        let changed = registrations_after_changes(added, poller, fd, changes);
        let key = (poller.epoll_fd, fd);
        assert(changed.remove(key) =~= before.remove(key));
    }
}

impl Notifier {
    /// What is there to be taken away after one more notification: one more in
    /// the count of an event descriptor, as long as that is below its highest
    /// value, or one more byte in the pipe.
    pub open spec fn notified(self, pending: nat) -> nat {
        if self is EventFd && pending >= u64::MAX - 1 {
            pending
        } else {
            pending + 1
        }
    }

    /// What is there after a number of notifications.
    pub open spec fn notified_times(self, pending: nat, times: nat) -> nat
        decreases times,
    {
        if times == 0 {
            pending
        } else {
            self.notified(self.notified_times(pending, (times - 1) as nat))
        }
    }

    /// What a read leaves: nothing in an event descriptor, and in a pipe what
    /// goes beyond the length of the read.
    pub open spec fn left_by_read(self, pending: nat) -> nat {
        if self is EventFd || pending <= PIPE_LEN {
            0
        } else {
            (pending - PIPE_LEN) as nat
        }
    }

    /// Whether a read that does not block gets `reply`. It fails if and only if
    /// there is nothing.
    pub open spec fn read_gets(self, pending: nat, reply: Reply) -> bool {
        match reply {
            Reply::Failed(_) => pending == 0,
            Reply::Count(count) => pending > 0 && count == if self is EventFd {
                EVENT_LEN as nat
            } else {
                (pending - self.left_by_read(pending)) as nat
            },
            _ => false,
        }
    }

    /// What is there after the reads of a clear.
    pub open spec fn left_by_clear(self, pending: nat, replies: Seq<Reply>) -> nat
        decreases replies.len(),
    {
        if replies.len() == 0 {
            pending
        } else {
            self.left_by_read(self.left_by_clear(pending, replies.drop_last()))
        }
    }

    /// Whether the reads of a clear get these answers, as far as it has come.
    /// There is a first read, and another one for as long as there may be more.
    pub open spec fn clear_gets(self, pending: nat, replies: Seq<Reply>) -> bool
        decreases replies.len(),
    {
        replies.len() == 0 || {
            let before = replies.drop_last();
            &&& self.clear_gets(pending, before)
            &&& before.len() > 0 ==> self.more_to_clear(before.last())
            &&& self.read_gets(self.left_by_clear(pending, before), replies.last())
        }
    }
}

/// Whether a clear that got these answers has ended.
pub open spec fn clear_ended(notifier: Notifier, replies: Seq<Reply>) -> bool {
    replies.len() > 0 && !notifier.more_to_clear(replies.last())
}

/// Whatever number of notifications is there, a clear ends, and it leaves
/// nothing. An event descriptor takes one read; a pipe takes one read for each
/// started block of its length, and one more that fails.
pub proof fn law_clear_leaves_nothing(notifier: Notifier, pending: nat, replies: Seq<Reply>)
    requires
        notifier.clear_gets(pending, replies),
    ensures
        clear_ended(notifier, replies) ==> notifier.left_by_clear(pending, replies) == 0,
        notifier is EventFd ==> (clear_ended(notifier, replies) <==> replies.len() == 1),
        notifier is EventFd ==> replies.len() <= 1,
        notifier is Pipe ==> (clear_ended(notifier, replies) <==> replies.len() == (pending
            + PIPE_LEN - 1) / (PIPE_LEN as int) + 1),
        notifier is Pipe ==> replies.len() <= (pending + PIPE_LEN - 1) / (PIPE_LEN as int) + 1,
        notifier is Pipe && clear_ended(notifier, replies) ==> replies.last() is Failed,
{
    lemma_clear(notifier, pending, replies);
}

/// How many reads there were and what they left.
proof fn lemma_clear(notifier: Notifier, pending: nat, replies: Seq<Reply>)
    requires
        notifier.clear_gets(pending, replies),
    ensures
        ({
            let left = notifier.left_by_clear(pending, replies);
            let k = replies.len() as int;
            &&& notifier is EventFd ==> k <= 1 && (k == 1 ==> left == 0)
            &&& notifier is Pipe ==> {
                &&& left == if k * PIPE_LEN >= pending {
                    0
                } else {
                    pending - k * PIPE_LEN
                }
                &&& k > 0 && replies.last() is Failed ==> (k - 1) * PIPE_LEN >= pending && (k == 1
                    || (k - 2) * PIPE_LEN < pending)
                &&& k > 0 && !(replies.last() is Failed) ==> (k - 1) * PIPE_LEN < pending
            }
        }),
    decreases replies.len(),
{
    if replies.len() > 0 {
        lemma_clear(notifier, pending, replies.drop_last());
    }
}

/// After a clear, another one finds nothing and changes nothing. The notifier is
/// readable if and only if there was a notification since.
pub proof fn law_clear_again_changes_nothing(
    notifier: Notifier,
    pending: nat,
    replies: Seq<Reply>,
    more: Seq<Reply>,
    times: nat,
)
    requires
        notifier.clear_gets(pending, replies),
        clear_ended(notifier, replies),
        notifier.clear_gets(notifier.left_by_clear(pending, replies), more),
    ensures
        more.len() <= 1,
        forall|i: int| 0 <= i < more.len() ==> #[trigger] more[i] is Failed,
        notifier.left_by_clear(notifier.left_by_clear(pending, replies), more) == 0,
        notifier.notified_times(
            notifier.left_by_clear(notifier.left_by_clear(pending, replies), more),
            times,
        ) > 0 <==> times > 0,
{
    law_clear_leaves_nothing(notifier, pending, replies);
    law_clear_leaves_nothing(notifier, 0, more);
    lemma_notified_times(notifier, 0, times);
    if more.len() == 1 {
        assert(more.drop_last().len() == 0);
        assert(notifier.left_by_clear(0, more.drop_last()) == 0);
    }
}

/// There is something if and only if there was or there were notifications.
proof fn lemma_notified_times(notifier: Notifier, pending: nat, times: nat)
    ensures
        notifier.notified_times(pending, times) > 0 <==> pending > 0 || times > 0,
    decreases times,
{
    if times > 0 {
        lemma_notified_times(notifier, pending, (times - 1) as nat);
    }
}

/// What the kernel holds of a poller's own descriptors.
pub struct OwnState {
    /// What there is in the notifier.
    pub pending: nat,
    /// Whether the notifier is watched for readability.
    pub watched: bool,
    /// Whether the timer is set to expire.
    pub timer_set: bool,
    /// Whether the timer is watched for readability.
    pub timer_watched: bool,
    /// The number of other sources that have something to report.
    pub others: nat,
}

/// The number of events that come from the poller's own notifier or timer.
pub open spec fn own_events(events: Seq<RawEvent>) -> nat {
    events.filter(|raw: RawEvent| event_of(raw).key == NOTIFY_KEY).len()
}

impl OwnState {
    /// The number of events that the notifier has to report.
    pub open spec fn from_notifier(self) -> nat {
        if self.watched && self.pending > 0 {
            1
        } else {
            0
        }
    }

    /// Whether the poller's own descriptors are as they were.
    pub open spec fn is_same(self, after: OwnState) -> bool {
        &&& after.pending == self.pending
        &&& after.watched == self.watched
        &&& after.timer_set == self.timer_set
        &&& after.timer_watched == self.timer_watched
    }

    /// Whether waiting for events reports `events`, where `timer` tells if the
    /// timer has something to report. Every source that has something to report
    /// is reported once if there is room for all of them. Of the poller's own
    /// descriptors, what was reported is not watched any more.
    pub open spec fn reports(
        self,
        timer: bool,
        room: usize,
        events: Seq<RawEvent>,
        after: OwnState,
    ) -> bool {
        let own = self.from_notifier() + if timer {
            1nat
        } else {
            0nat
        };
        &&& after.pending == self.pending
        &&& after.timer_set == self.timer_set
        &&& if own + self.others <= room {
            &&& events.len() == own + self.others
            &&& own_events(events) == own
            &&& after.watched == (self.watched && self.pending == 0)
            &&& after.timer_watched == (self.timer_watched && !timer)
        } else {
            &&& events.len() == room
            &&& own_events(events) <= own
            &&& after.watched ==> self.watched
            &&& after.timer_watched ==> self.timer_watched
        }
    }

    /// Whether the interest in a descriptor was set, so that it is watched for
    /// readability or is not.
    pub open spec fn sets_interest(
        self,
        poller: Poller,
        fd: i32,
        watched: bool,
        after: OwnState,
    ) -> bool {
        &&& after.pending == self.pending
        &&& after.timer_set == self.timer_set
        &&& after.watched == if fd == poller.notifier.poll_fd() {
            watched
        } else {
            self.watched
        }
        &&& after.timer_watched == if Some(fd) == poller.timer_fd {
            watched
        } else {
            self.timer_watched
        }
    }

    /// Whether the notifier was opened, with `pending` in it, and is not watched
    /// yet.
    pub open spec fn opens_notifier(self, pending: nat, after: OwnState) -> bool {
        &&& after.pending == pending
        &&& !after.watched
        &&& after.timer_set == self.timer_set
        &&& after.timer_watched == self.timer_watched
    }

    /// The state after a number of notifications.
    pub open spec fn notified(self, poller: Poller, times: nat) -> OwnState {
        OwnState { pending: poller.notifier.notified_times(self.pending, times), ..self }
    }

    /// Whether a request of the creation of a poller or of a wait gets `reply`
    /// and leaves `after`. The number of other sources that have something to
    /// report may change at any time.
    pub open spec fn steps(
        self,
        poller: Poller,
        request: Request,
        reply: Reply,
        after: OwnState,
    ) -> bool {
        match (request, reply) {
            (Request::Read { .. }, _) => {
                &&& poller.notifier.read_gets(self.pending, reply)
                &&& after.pending == poller.notifier.left_by_read(self.pending)
                &&& after.watched == self.watched
                &&& after.timer_set == self.timer_set
                &&& after.timer_watched == self.timer_watched
            },
            (Request::EventFdCreate { initial, .. }, Reply::Descriptor(_)) => self.opens_notifier(
                initial as nat,
                after,
            ),
            (Request::PipeWith { .. }, Reply::Pair(_, _)) => self.opens_notifier(0, after),
            (Request::Pipe, Reply::Pair(_, _)) => self.opens_notifier(0, after),
            (Request::TimerFdCreate { .. }, Reply::Descriptor(_)) => {
                &&& !after.timer_set
                &&& !after.timer_watched
                &&& after.pending == self.pending
                &&& after.watched == self.watched
            },
            (Request::SetTimer { value, .. }, Reply::Done) => {
                &&& after.timer_set == (value.it_value != ts_zero())
                &&& after.pending == self.pending
                &&& after.watched == self.watched
                &&& after.timer_watched == self.timer_watched
            },
            (Request::Add { fd, flags, .. }, Reply::Done) => self.sets_interest(
                poller,
                fd,
                has_any(flags, EPOLLIN),
                after,
            ),
            (Request::Modify { fd, flags, .. }, Reply::Done) => self.sets_interest(
                poller,
                fd,
                has_any(flags, EPOLLIN),
                after,
            ),
            (Request::Delete { fd, .. }, Reply::Done) => self.sets_interest(
                poller,
                fd,
                false,
                after,
            ),
            (Request::Wait { room, .. }, Reply::Ready(list)) => exists|timer: bool|
                (timer ==> poller.timer_fd is Some && self.timer_set && self.timer_watched)
                    && #[trigger] self.reports(timer, room, list@, after),
            _ => self.is_same(after),
        }
    }
}

/// Whether the requests of a creation get these answers, where `states` are what
/// the kernel holds of the descriptors of the poller before the first request
/// and after each.
pub open spec fn setup_gets(
    target: Target,
    poller: Poller,
    replies: Seq<Reply>,
    states: Seq<OwnState>,
) -> bool {
    &&& states.len() == replies.len() + 1
    &&& forall|i: int|
        0 <= i < replies.len() ==> states[i].steps(
            poller,
            PollerSetup::start(target).asked(replies)[i],
            #[trigger] replies[i],
            states[i + 1],
        )
}

/// Whether the requests of a wait get these answers, where `states` are what the
/// kernel holds before the first request and after each, and `arrivals` are the
/// numbers of notifications that arrive before each is answered.
pub open spec fn wait_gets(
    start: WaitView,
    replies: Seq<Reply>,
    states: Seq<OwnState>,
    arrivals: Seq<nat>,
) -> bool {
    &&& states.len() == replies.len() + 1
    &&& arrivals.len() == replies.len()
    &&& forall|i: int|
        0 <= i < replies.len() ==> states[i].notified(start.poller, arrivals[i]).steps(
            start.poller,
            start.asked(replies)[i],
            #[trigger] replies[i],
            states[i + 1],
        )
}

/// Whether any notification arrives before the answer with the given number.
pub open spec fn any_before(arrivals: Seq<nat>, end: int) -> bool {
    exists|i: int| 0 <= i < end && #[trigger] arrivals[i] > 0
}

/// The interest that a poller has in its own descriptors watches for readability.
proof fn lemma_own_interest_watches()
    ensures
        has_any(registration_bits(own_interest(), PollMode::Oneshot), EPOLLIN),
{
    law_registration_flags(own_interest(), PollMode::Oneshot);
    let flags = registration_bits(own_interest(), PollMode::Oneshot);
    let read = read_bits();
    assert(read & EPOLLIN != 0) by (bit_vector)
        requires
            read == EPOLLIN | EPOLLHUP | EPOLLERR | EPOLLPRI,
    ;
    assert(flags & read == read && read & EPOLLIN != 0 ==> flags & EPOLLIN != 0) by (bit_vector);
}

/// A poller that was created has its notifier watched, with no notification in
/// it, and its timer, where it has one, is not set. So its first wait sees every
/// notification.
pub proof fn law_creation_watches_notifier(
    target: Target,
    poller: Poller,
    replies: Seq<Reply>,
    states: Seq<OwnState>,
)
    requires
        PollerSetup::start(target).answered(replies),
        PollerSetup::start(target).run(replies).stage == SetupStage::Finished(Ok(poller)),
        setup_gets(target, poller, replies, states),
    ensures
        states.last().watched,
        states.last().pending == 0,
        poller.timer_fd is Some ==> !states.last().timer_set,
{
    lemma_setup_state(target, poller, replies, states);
    law_setup_registers(target, replies);
    lemma_own_interest_watches();
    let n = replies.len() as int;
    assert(replies[n - 1] == Reply::Done);
}

/// What the kernel holds on the way.
proof fn lemma_setup_state(
    target: Target,
    poller: Poller,
    replies: Seq<Reply>,
    states: Seq<OwnState>,
)
    requires
        PollerSetup::start(target).answered(replies),
        setup_gets(target, poller, replies, states),
    ensures
        ({
            let now = PollerSetup::start(target).run(replies);
            &&& now.notifier() is Some ==> states.last().pending == 0
            &&& match now.stage {
                SetupStage::CreatingNotifier { setup, .. } => setup.ends() is Some
                    ==> states.last().pending == 0,
                SetupStage::AddingTimer { .. } => !states.last().timer_set,
                SetupStage::AddingNotifier { poller: created } => created.timer_fd is Some
                    ==> !states.last().timer_set,
                SetupStage::Finished(Ok(created)) => created.timer_fd is Some
                    ==> !states.last().timer_set,
                _ => true,
            }
        }),
    decreases replies.len(),
{
    lemma_setup_unfold(target, replies);
    if replies.len() > 0 {
        let start = PollerSetup::start(target);
        let shorter = replies.drop_last();
        let before = states.drop_last();
        assert(setup_gets(target, poller, shorter, before)) by {
            assert forall|i: int| 0 <= i < shorter.len() implies before[i].steps(
                poller,
                start.asked(shorter)[i],
                #[trigger] shorter[i],
                before[i + 1],
            ) by {
                assert(shorter[i] == replies[i]);
                lemma_setup_unfold(target, shorter);
                assert(start.asked(shorter)[i] == start.asked(replies)[i]);
            }
        }
        lemma_setup_state(target, poller, shorter, before);
        lemma_setup_unfold(target, shorter);
        let n = shorter.len() as int;
        assert(replies[n] == replies.last());
        assert(start.asked(replies)[n] == start.run(shorter).pending()->0);
        assert(before.last().steps(
            poller,
            start.run(shorter).pending()->0,
            replies.last(),
            states.last(),
        ));
    }
}

/// What the kernel holds until events are waited for: nothing takes a
/// notification away, and the notifier stays watched.
proof fn lemma_until_wait(
    start: WaitView,
    replies: Seq<Reply>,
    states: Seq<OwnState>,
    arrivals: Seq<nat>,
    j: int,
)
    requires
        start.is_start(),
        start.answered(replies),
        wait_gets(start, replies, states, arrivals),
        0 <= j <= replies.len(),
        j <= start.prelude().len(),
    ensures
        states[j].pending > 0 <==> states[0].pending > 0 || any_before(arrivals, j),
        states[0].watched ==> states[j].watched,
        0 < j < replies.len() && timer_value(start.timeout).it_value == ts_zero()
            ==> !states[j].timer_set,
    decreases j,
{
    if j > 0 {
        let i = j - 1;
        lemma_until_wait(start, replies, states, arrivals, i);
        law_wait_order(start, replies);
        lemma_answer_fits(start, replies, i);
        lemma_own_interest_watches();
        lemma_notified_times(start.poller.notifier, states[i].pending, arrivals[i]);
        assert(start.asked(replies)[i] == start.prelude()[i]);
        assert(states[i].notified(start.poller, arrivals[i]).steps(
            start.poller,
            start.asked(replies)[i],
            replies[i],
            states[j],
        ));
        lemma_any_before(arrivals, i);
    }
}

/// One more number of notifications.
proof fn lemma_any_before(arrivals: Seq<nat>, end: int)
    requires
        0 <= end < arrivals.len(),
    ensures
        any_before(arrivals, end + 1) <==> any_before(arrivals, end) || arrivals[end] > 0,
{
    if any_before(arrivals, end + 1) {
        let i = choose|i: int| 0 <= i < end + 1 && #[trigger] arrivals[i] > 0;
        assert(i < end ==> any_before(arrivals, end));
    }
}

/// A notification wakes the wait, whatever its time limit, if the notifier is
/// watched when it starts and the notification was sent before that or arrives
/// before events are reported. The wait then reports something, if the list has
/// room at all. Where the list has room for everything, it reports the notifier
/// once if there was such a notification, and does not report it otherwise; next
/// to it, only a timer that was set can report under the poller's own key.
pub proof fn law_notification_wakes_wait(
    start: WaitView,
    replies: Seq<Reply>,
    states: Seq<OwnState>,
    arrivals: Seq<nat>,
)
    requires
        start.is_start(),
        start.answered(replies),
        wait_gets(start, replies, states, arrivals),
        replies.len() > start.prelude().len(),
        !(replies[start.prelude().len() as int] is Failed),
        states[0].watched,
    ensures
        ({
            let n = start.prelude().len() as int;
            let now = start.run(replies);
            let seen: int = if states[0].pending > 0 || any_before(arrivals, n + 1) {
                1
            } else {
                0
            };
            let expiring: int = if start.poller.timer_fd is Some && timer_value(
                start.timeout,
            ).it_value != ts_zero() {
                1
            } else {
                0
            };
            &&& seen > 0 && start.events.len() < start.limit ==> now.events.len()
                > start.events.len()
            &&& start.events.len() + states[n].others + seen + expiring <= start.limit ==> seen
                <= own_events(now.events) - own_events(start.events) <= seen + expiring
        }),
{
    let n = start.prelude().len() as int;
    lemma_until_wait(start, replies, states, arrivals, n);
    lemma_any_before(arrivals, n);
    lemma_notified_times(start.poller.notifier, states[n].pending, arrivals[n]);
    law_wait_order(start, replies);
    law_wait_reports_once(start, replies);
    lemma_answer_fits(start, replies, n);
    assert(start.asked(replies)[n] == start.wait_request());
    let list = replies[n]->Ready_0@;
    let before = states[n].notified(start.poller, arrivals[n]);
    assert(before.steps(start.poller, start.wait_request(), replies[n], states[n + 1]));
    let room = (start.limit - start.events.len()) as usize;
    let timer = choose|timer: bool|
        (timer ==> start.poller.timer_fd is Some && before.timer_set && before.timer_watched)
            && #[trigger] before.reports(timer, room, list, states[n + 1]);
    assert(before.reports(timer, room, list, states[n + 1]));
    Seq::filter_distributes_over_add(
        start.events,
        list,
        |raw: RawEvent| event_of(raw).key == NOTIFY_KEY,
    );
}

/// A wait that succeeded leaves the notifier watched, and of the notifications
/// only those that arrived after it took them away.
pub proof fn law_wait_takes_notifications(
    start: WaitView,
    replies: Seq<Reply>,
    states: Seq<OwnState>,
    arrivals: Seq<nat>,
)
    requires
        start.is_start(),
        start.answered(replies),
        start.run(replies).stage matches WaitStage::Finished(Ok(_)),
        wait_gets(start, replies, states, arrivals),
    ensures
        states.last().pending == start.poller.notifier.notified_times(0, arrivals.last()),
        states.last().watched,
{
    law_wait_success_rearms(start, replies);
    lemma_own_interest_watches();
    let k = replies.len() as int;
    lemma_notified_times(start.poller.notifier, states[k - 2].pending, arrivals[k - 2]);
    assert(states[k - 2].notified(start.poller, arrivals[k - 2]).steps(
        start.poller,
        start.poller.notifier.clear_request(),
        replies[k - 2],
        states[k - 1],
    ));
    assert(states[k - 1].pending == 0);
}

/// A wait that failed before it took any notification away leaves the notifier
/// watched, if it was, and every notification for the next wait.
pub proof fn law_failed_wait_keeps_notifications(
    start: WaitView,
    replies: Seq<Reply>,
    states: Seq<OwnState>,
    arrivals: Seq<nat>,
)
    requires
        start.is_start(),
        start.answered(replies),
        start.run(replies).stage matches WaitStage::Finished(Err(_)),
        replies.len() <= start.prelude().len() + 1,
        wait_gets(start, replies, states, arrivals),
    ensures
        states[0].watched ==> states.last().watched,
        states.last().pending > 0 <==> states[0].pending > 0 || any_before(
            arrivals,
            replies.len() as int,
        ),
{
    let k = replies.len() as int;
    law_wait_failure_is_first_failure(start, replies, start.run(replies).stage->Finished_0->Err_0);
    lemma_until_wait(start, replies, states, arrivals, k - 1);
    lemma_any_before(arrivals, k - 1);
    lemma_notified_times(start.poller.notifier, states[k - 1].pending, arrivals[k - 1]);
    assert(states[k - 1].notified(start.poller, arrivals[k - 1]).steps(
        start.poller,
        start.asked(replies)[k - 1],
        replies[k - 1],
        states[k],
    ));
}

/// After a wait that succeeded, the next one succeeds and reports one event under
/// the poller's own key if there were notifications since the first one took them
/// away, however many, and none if there were none. That is so where no request
/// fails but the reads that find nothing, where the time limit, if there is one,
/// is zero, and where the list has room for every source that has something to
/// report.
pub proof fn law_notifications_are_reported_once(
    first: WaitView,
    first_replies: Seq<Reply>,
    first_states: Seq<OwnState>,
    first_arrivals: Seq<nat>,
    times: nat,
    next: WaitView,
    replies: Seq<Reply>,
    states: Seq<OwnState>,
    arrivals: Seq<nat>,
)
    requires
        first.is_start(),
        first.answered(first_replies),
        first.run(first_replies).stage matches WaitStage::Finished(Ok(_)),
        wait_gets(first, first_replies, first_states, first_arrivals),
        next.is_start(),
        next.answered(replies),
        next.run(replies).stage is Finished,
        forall|i: int|
            0 <= i < replies.len() && !(next.asked(replies)[i] is Read) ==> !(
            #[trigger] replies[i] is Failed),
        wait_gets(next, replies, states, arrivals),
        next.poller == first.poller,
        timer_value(next.timeout).it_value == ts_zero(),
        states[0].pending == next.poller.notifier.notified_times(
            first_states.last().pending,
            times,
        ),
        states[0].watched == first_states.last().watched,
        next.events.len() + states[next.prelude().len() as int].others + (if since_cleared(
            first_arrivals,
            times,
            arrivals,
            next.prelude().len() as int,
        ) {
            1int
        } else {
            0
        }) <= next.limit,
    ensures
        next.run(replies).stage == WaitStage::Finished(Ok(())),
        own_events(next.run(replies).events) == own_events(next.events) + (if since_cleared(
            first_arrivals,
            times,
            arrivals,
            next.prelude().len() as int,
        ) {
            1nat
        } else {
            0
        }),
{
    law_wait_takes_notifications(first, first_replies, first_states, first_arrivals);
    let notifier = next.poller.notifier;
    lemma_notified_times(notifier, 0, first_arrivals.last());
    lemma_notified_times(notifier, first_states.last().pending, times);
    if let WaitStage::Finished(Err(e)) = next.run(replies).stage {
        law_wait_failure_is_first_failure(next, replies, e);
    }
    law_wait_success_rearms(next, replies);
    law_wait_order(next, replies);
    let n = next.prelude().len() as int;
    assert(next.asked(replies)[n] == next.wait_request());
    assert(!(replies[n] is Failed));
    law_notification_wakes_wait(next, replies, states, arrivals);
}

/// Whether there was a notification since a wait took them away: after its last
/// read, between it and the next wait, or until that one reports events, which
/// is its answer `n`.
pub open spec fn since_cleared(
    first_arrivals: Seq<nat>,
    times: nat,
    arrivals: Seq<nat>,
    n: int,
) -> bool {
    first_arrivals.last() > 0 || times > 0 || any_before(arrivals, n + 1)
}

} // verus!
