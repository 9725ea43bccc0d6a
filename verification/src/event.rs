//! Events, delivery modes, and the extra flags of an event.

use crate::flags::{
    flag_err, flag_hup, flag_pri, flags_contains, flags_empty, flags_set, has_all, has_any,
    read_bits, with_bits, write_bits, EPOLLERR, EPOLLHUP, EPOLLPRI,
};
use vstd::prelude::*;

verus! {

/// The key of the poller's own notifier and timer.
pub const NOTIFY_KEY: usize = usize::MAX;

/// How a registered source delivers its events.
#[derive(Debug, Clone, Copy, PartialEq, Eq)]
pub enum PollMode {
    /// One event, after which the interest has to be set again.
    Oneshot,
    /// An event as long as the source is ready.
    Level,
    /// An event each time the source becomes ready.
    Edge,
    /// One event when the source becomes ready, after which the interest has to
    /// be set again.
    EdgeOneshot,
}

/// Extra information about an event: all of its flags.
#[derive(Debug, Clone, Copy, PartialEq, Eq)]
pub struct EventExtra {
    /// The bits of the flags.
    pub flags: u32,
}

impl EventExtra {
    /// Whether a hangup is among the flags.
    pub open spec fn has_hup(self) -> bool {
        has_all(self.flags, EPOLLHUP)
    }

    /// Whether urgent data is among the flags.
    pub open spec fn has_pri(self) -> bool {
        has_all(self.flags, EPOLLPRI)
    }

    /// Whether an error is among the flags.
    pub open spec fn has_err(self) -> bool {
        has_all(self.flags, EPOLLERR)
    }

    /// Whether the flags are those of a connection attempt that failed.
    pub open spec fn has_failed_connect(self) -> bool {
        self.has_err() && self.has_hup()
    }

    /// The flags with the hangup added or taken away.
    pub open spec fn with_hup(self, active: bool) -> EventExtra {
        EventExtra { flags: with_bits(self.flags, EPOLLHUP, active) }
    }

    /// The flags with urgent data added or taken away.
    pub open spec fn with_pri(self, active: bool) -> EventExtra {
        EventExtra { flags: with_bits(self.flags, EPOLLPRI, active) }
    }

    /// Creates an empty version of the data.
    pub fn empty() -> (r: EventExtra)
        ensures
            r.flags == 0,
    {
        EventExtra { flags: flags_empty() }
    }

    /// Adds the interrupt flag to this event, or takes it away.
    pub fn set_hup(&mut self, active: bool)
        ensures
            final(self).flags == with_bits(old(self).flags, EPOLLHUP, active),
            *final(self) == old(self).with_hup(active),
    {
        self.flags = flags_set(self.flags, flag_hup(), active);
    }

    /// Adds the priority flag to this event, or takes it away.
    pub fn set_pri(&mut self, active: bool)
        ensures
            final(self).flags == with_bits(old(self).flags, EPOLLPRI, active),
            *final(self) == old(self).with_pri(active),
    {
        self.flags = flags_set(self.flags, flag_pri(), active);
    }

    /// Tells if the interrupt flag is set.
    pub fn is_hup(&self) -> (r: bool)
        ensures
            r == has_all(self.flags, EPOLLHUP),
            r == self.has_hup(),
    {
        flags_contains(self.flags, flag_hup())
    }

    /// Tells if the priority flag is set.
    pub fn is_pri(&self) -> (r: bool)
        ensures
            r == has_all(self.flags, EPOLLPRI),
            r == self.has_pri(),
    {
        flags_contains(self.flags, flag_pri())
    }

    /// Tells if a connection attempt failed: both the error and the interrupt
    /// flag are set.
    pub fn is_connect_failed(&self) -> (r: Option<bool>)
        ensures
            r == Some(has_all(self.flags, EPOLLERR) && has_all(self.flags, EPOLLHUP)),
            r == Some(self.has_failed_connect()),
    {
        Some(flags_contains(self.flags, flag_err()) && flags_contains(self.flags, flag_hup()))
    }

    /// Tells if the error flag is set.
    pub fn is_err(&self) -> (r: Option<bool>)
        ensures
            r == Some(has_all(self.flags, EPOLLERR)),
            r == Some(self.has_err()),
    {
        Some(flags_contains(self.flags, flag_err()))
    }
}

/// An interest to register, or a readiness that was reported.
#[derive(Debug, Clone, Copy, PartialEq, Eq)]
pub struct Event {
    /// The key that identifies the source.
    pub key: usize,
    /// Whether reading makes progress.
    pub readable: bool,
    /// Whether writing makes progress.
    pub writable: bool,
    /// The flags beyond readability and writability.
    pub extra: EventExtra,
}

impl Event {
    /// Creates an event with no extra flags.
    pub fn new(key: usize, readable: bool, writable: bool) -> (r: Event)
        ensures
            r == (Event { key, readable, writable, extra: EventExtra { flags: 0 } }),
    {
        Event { key, readable, writable, extra: EventExtra::empty() }
    }

    /// Creates an interest in readability.
    pub fn readable(key: usize) -> (r: Event)
        ensures
            r == (Event { key, readable: true, writable: false, extra: EventExtra { flags: 0 } }),
    {
        Event::new(key, true, false)
    }

    /// Creates an event with no interest.
    pub fn none(key: usize) -> (r: Event)
        ensures
            r == (Event { key, readable: false, writable: false, extra: EventExtra { flags: 0 } }),
    {
        Event::new(key, false, false)
    }

    /// The same event without its extra flags.
    pub fn with_no_extra(&self) -> (r: Event)
        ensures
            r == (Event { extra: EventExtra { flags: 0 }, ..*self }),
    {
        Event::new(self.key, self.readable, self.writable)
    }

    /// Tells if the event reports an error.
    pub fn is_err(&self) -> (r: Option<bool>)
        ensures
            r == Some(has_all(self.extra.flags, EPOLLERR)),
            r == Some(self.extra.has_err()),
    {
        self.extra.is_err()
    }
}

/// A flag that was set reads back as it was set, and every other flag keeps
/// its state.
pub proof fn law_set_then_get(flags: u32, active: bool, other: u32)
    ensures
        has_all(with_bits(flags, EPOLLHUP, active), EPOLLHUP) == active,
        has_all(with_bits(flags, EPOLLPRI, active), EPOLLPRI) == active,
        other & EPOLLHUP == 0 ==> with_bits(flags, EPOLLHUP, active) & other == flags & other,
        other & EPOLLPRI == 0 ==> with_bits(flags, EPOLLPRI, active) & other == flags & other,
{
    assert({
        &&& (flags | EPOLLHUP) & EPOLLHUP == EPOLLHUP
        &&& (flags & !EPOLLHUP) & EPOLLHUP != EPOLLHUP
        &&& (flags | EPOLLPRI) & EPOLLPRI == EPOLLPRI
        &&& (flags & !EPOLLPRI) & EPOLLPRI != EPOLLPRI
        &&& other & EPOLLHUP == 0 ==> (flags | EPOLLHUP) & other == flags & other
        &&& other & EPOLLHUP == 0 ==> (flags & !EPOLLHUP) & other == flags & other
        &&& other & EPOLLPRI == 0 ==> (flags | EPOLLPRI) & other == flags & other
        &&& other & EPOLLPRI == 0 ==> (flags & !EPOLLPRI) & other == flags & other
    }) by (bit_vector);
}

/// Setting a flag twice is setting it the second time, and the order in which
/// the two flags are set does not matter.
pub proof fn law_set_is_idempotent_and_commutes(flags: u32, first: bool, second: bool)
    ensures
        with_bits(with_bits(flags, EPOLLHUP, first), EPOLLHUP, second) == with_bits(
            flags,
            EPOLLHUP,
            second,
        ),
        with_bits(with_bits(flags, EPOLLPRI, first), EPOLLPRI, second) == with_bits(
            flags,
            EPOLLPRI,
            second,
        ),
        with_bits(with_bits(flags, EPOLLHUP, first), EPOLLPRI, second) == with_bits(
            with_bits(flags, EPOLLPRI, second),
            EPOLLHUP,
            first,
        ),
{
    assert(forall|h: u32|
        {
            &&& (flags | h) | h == flags | h
            &&& (flags | h) & !h == flags & !h
            &&& (flags & !h) | h == flags | h
            &&& (flags & !h) & !h == flags & !h
        }) by (bit_vector);
    assert({
        &&& (flags | EPOLLHUP) | EPOLLPRI == (flags | EPOLLPRI) | EPOLLHUP
        &&& (flags | EPOLLHUP) & !EPOLLPRI == (flags & !EPOLLPRI) | EPOLLHUP
        &&& (flags & !EPOLLHUP) | EPOLLPRI == (flags | EPOLLPRI) & !EPOLLHUP
        &&& (flags & !EPOLLHUP) & !EPOLLPRI == (flags & !EPOLLPRI) & !EPOLLHUP
    }) by (bit_vector);
}

/// A source that reports an error or an interrupt is both readable and writable;
/// urgent data makes it readable. The empty flags report nothing.
pub proof fn law_extra_implications(flags: u32)
    ensures
        has_all(flags, EPOLLERR) ==> has_any(flags, read_bits()) && has_any(flags, write_bits()),
        has_all(flags, EPOLLHUP) ==> has_any(flags, read_bits()) && has_any(flags, write_bits()),
        has_all(flags, EPOLLPRI) ==> has_any(flags, read_bits()),
        !has_all(0, EPOLLERR) && !has_all(0, EPOLLHUP) && !has_all(0, EPOLLPRI),
        !has_any(0, read_bits()) && !has_any(0, write_bits()),
{
    crate::flags::law_readiness_conditions(flags);
    crate::flags::law_readiness_conditions(0);
    assert(0u32 & EPOLLERR != EPOLLERR && 0u32 & EPOLLHUP != EPOLLHUP && 0u32 & EPOLLPRI
        != EPOLLPRI) by (bit_vector);
    assert(forall|m: u32| 0u32 & m == 0) by (bit_vector);
}

/// A hangup, urgent data and an error are each told by their own flag, whatever
/// the others are, and a connection attempt failed where there are both an error
/// and a hangup.
pub proof fn law_extra_tells_its_flags(extra: EventExtra)
    ensures
        extra.has_hup() <==> extra.flags & EPOLLHUP != 0,
        extra.has_pri() <==> extra.flags & EPOLLPRI != 0,
        extra.has_err() <==> extra.flags & EPOLLERR != 0,
        extra.has_failed_connect() <==> extra.flags & EPOLLERR != 0 && extra.flags & EPOLLHUP != 0,
{
    let flags = extra.flags;
    assert({
        &&& (flags & EPOLLHUP == EPOLLHUP) == (flags & EPOLLHUP != 0)
        &&& (flags & EPOLLPRI == EPOLLPRI) == (flags & EPOLLPRI != 0)
        &&& (flags & EPOLLERR == EPOLLERR) == (flags & EPOLLERR != 0)
    }) by (bit_vector);
}

/// What is set is told: to set one flag of the two changes what is told of it, and
/// no other flag.
pub proof fn law_extra_tells_what_was_set(extra: EventExtra, active: bool)
    ensures
        extra.with_hup(active).has_hup() == active,
        extra.with_hup(active).flags & !EPOLLHUP == extra.flags & !EPOLLHUP,
        extra.with_pri(active).has_pri() == active,
        extra.with_pri(active).flags & !EPOLLPRI == extra.flags & !EPOLLPRI,
        extra.with_hup(active).has_pri() == extra.has_pri(),
        extra.with_pri(active).has_hup() == extra.has_hup(),
        extra.with_hup(active).has_err() == extra.has_err(),
        extra.with_pri(active).has_err() == extra.has_err(),
        extra.with_pri(active).has_failed_connect() == extra.has_failed_connect(),
        extra.with_hup(active).has_failed_connect() == (active && extra.has_err()),
{
    assert(!EPOLLHUP & EPOLLHUP == 0 && !EPOLLPRI & EPOLLPRI == 0 && EPOLLPRI & EPOLLHUP == 0
        && EPOLLHUP & EPOLLPRI == 0 && EPOLLERR & EPOLLHUP == 0 && EPOLLERR & EPOLLPRI == 0)
        by (bit_vector);
    law_set_then_get(extra.flags, active, !EPOLLHUP);
    law_set_then_get(extra.flags, active, !EPOLLPRI);
    law_set_then_get(extra.flags, active, EPOLLHUP);
    law_set_then_get(extra.flags, active, EPOLLPRI);
    law_set_then_get(extra.flags, active, EPOLLERR);
}

} // verus!
