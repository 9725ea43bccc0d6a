//! The list of reported events.

use crate::event::{law_extra_tells_its_flags, Event, EventExtra, NOTIFY_KEY};
use crate::flags::{
    flags_intersects, has_any, law_readiness_conditions, read_bits, read_flags, write_bits,
    write_flags, EPOLLERR, EPOLLHUP, EPOLLIN, EPOLLOUT, EPOLLPRI,
};
use vstd::prelude::*;

verus! {

/// An event as the kernel reports it.
#[derive(Debug, Clone, Copy, PartialEq, Eq)]
pub struct RawEvent {
    /// The bits of the flags that occurred.
    pub flags: u32,
    /// The data that the source was registered with.
    pub data: u64,
}

/// A list of reported I/O events, of a limited length.
#[derive(Debug)]
pub struct Events {
    list: Vec<RawEvent>,
    capacity: usize,
}

/// What a reported event means: the key of the source, whether reading and
/// writing make progress, and all of the flags.
pub open spec fn event_of(raw: RawEvent) -> Event {
    Event {
        key: raw.data as usize,
        readable: has_any(raw.flags, read_bits()),
        writable: has_any(raw.flags, write_bits()),
        extra: EventExtra { flags: raw.flags },
    }
}

/// What the events of a list mean.
pub open spec fn events_of(list: Seq<RawEvent>) -> Seq<Event> {
    list.map_values(|raw: RawEvent| event_of(raw))
}

/// Computes what a reported event means.
pub fn interpret(raw: &RawEvent) -> (r: Event)
    ensures
        r == event_of(*raw),
{
    let flags = raw.flags;
    Event {
        key: raw.data as usize,
        readable: flags_intersects(flags, read_flags()),
        writable: flags_intersects(flags, write_flags()),
        extra: EventExtra { flags },
    }
}

/// The events of a list that come from a source rather than from the poller's
/// own notifier or timer.
pub open spec fn from_sources(events: Seq<Event>) -> Seq<Event> {
    events.filter(|e: Event| e.key != NOTIFY_KEY)
}

impl View for Events {
    type V = Seq<RawEvent>;

    closed spec fn view(&self) -> Seq<RawEvent> {
        self.list@
    }
}

impl Events {
    /// The number of events that the list can hold.
    pub closed spec fn limit(self) -> usize {
        self.capacity
    }

    #[verifier::type_invariant]
    spec fn inv(self) -> bool {
        self.list@.len() <= self.capacity
    }

    /// Whether the list is within its limit.
    pub open spec fn wf(self) -> bool {
        self@.len() <= self.limit()
    }

    /// Creates an empty list. What it is to hold must fit in memory.
    pub fn with_capacity(cap: usize) -> (r: Events)
        requires
            cap * 16 <= isize::MAX,
        ensures
            r.wf(),
            r@ == Seq::<RawEvent>::empty(),
            r.limit() == cap,
    {
        Events { list: Vec::with_capacity(cap), capacity: cap }
    }

    /// The reported events, in their order.
    pub fn iter(&self) -> (r: Vec<Event>)
        ensures
            r@ == self@.map_values(|raw: RawEvent| event_of(raw)),
            r@ == events_of(self@),
    {
        let mut out: Vec<Event> = Vec::new();
        let mut i: usize = 0;
        while i < self.list.len()
            invariant
                i <= self.list.len(),
                out@ == self.list@.take(i as int).map_values(|raw: RawEvent| event_of(raw)),
            decreases self.list.len() - i,
        {
            out.push(interpret(&self.list[i]));
            proof {
                assert(self.list@.take(i + 1) =~= self.list@.take(i as int).push(
                    self.list@[i as int],
                ));
                assert(out@ =~= self.list@.take(i + 1).map_values(|raw: RawEvent| event_of(raw)));
            }
            i = i + 1;
        }
        proof {
            assert(self.list@.take(i as int) =~= self.list@);
        }
        out
    }

    /// The reported events of registered sources, in their order: those that do
    /// not carry the key of the poller's own notifier and timer.
    pub fn delivered(&self) -> (r: Vec<Event>)
        ensures
            r@ == from_sources(self@.map_values(|raw: RawEvent| event_of(raw))),
    {
        let all = self.iter();
        let mut out: Vec<Event> = Vec::new();
        let mut i: usize = 0;
        proof {
            reveal(Seq::filter);
            assert(all@.take(0) =~= Seq::<Event>::empty());
        }
        while i < all.len()
            invariant
                i <= all.len(),
                out@ == from_sources(all@.take(i as int)),
            decreases all.len() - i,
        {
            let event = all[i];
            proof {
                reveal(Seq::filter);
                assert(all@.take(i + 1).drop_last() =~= all@.take(i as int));
            }
            if event.key != NOTIFY_KEY {
                out.push(event);
            }
            i = i + 1;
        }
        proof {
            assert(all@.take(i as int) =~= all@);
        }
        out
    }

    /// Clears the list.
    pub fn clear(&mut self)
        ensures
            final(self).wf(),
            final(self)@ == Seq::<RawEvent>::empty(),
            final(self).limit() == old(self).limit(),
    {
        let mut list: Vec<RawEvent> = Vec::new();
        std::mem::swap(&mut list, &mut self.list);
        list.clear();
        self.list = list;
    }

    /// The capacity of the list.
    pub fn capacity(&self) -> (r: usize)
        ensures
            r == self.limit(),
    {
        self.capacity
    }

    /// The number of events that the list still has room for.
    pub fn room(&self) -> (r: usize)
        ensures
            self.wf(),
            r == self.limit() - self@.len(),
    {
        proof {
            use_type_invariant(self);
        }
        self.capacity - self.list.len()
    }

    /// Appends events to the list.
    pub(crate) fn extend(&mut self, list: Vec<RawEvent>)
        requires
            list@.len() <= old(self).limit() - old(self)@.len(),
        ensures
            final(self).wf(),
            final(self)@ == old(self)@ + list@,
            final(self).limit() == old(self).limit(),
    {
        let mut added = list;
        let mut all: Vec<RawEvent> = Vec::new();
        std::mem::swap(&mut all, &mut self.list);
        all.append(&mut added);
        self.list = all;
    }
}

/// The key of a source comes back from the data it was registered with.
pub proof fn law_key_comes_back(key: usize, flags: u32)
    ensures
        event_of(RawEvent { flags, data: key as u64 }).key == key,
{
    assert((key as u64) as usize == key) by (bit_vector);
}

/// A source that has data to read, and neither room to write nor an error nor a
/// hangup to report, is reported as readable and no more.
pub proof fn law_data_is_readable_only(raw: RawEvent)
    requires
        has_any(raw.flags, EPOLLIN | EPOLLPRI),
        !has_any(raw.flags, write_bits()),
    ensures
        event_of(raw).readable,
        !event_of(raw).writable,
{
    let flags = raw.flags;
    assert(flags & (EPOLLIN | EPOLLPRI) != 0 ==> flags & (EPOLLIN | EPOLLHUP | EPOLLERR | EPOLLPRI)
        != 0) by (bit_vector);
}

/// A reported event has the key that is its data. It is readable if and only if
/// data, urgent data, an error or a hangup was reported, and writable if and only
/// if room, an error or a hangup was, whatever else was reported. Its extra flags
/// are those that were reported, so a hangup, urgent data, an error and a failed
/// connection attempt are told if and only if they were reported.
pub proof fn law_event_tells_what_was_reported(raw: RawEvent)
    ensures
        raw.data <= usize::MAX ==> event_of(raw).key == raw.data,
        event_of(raw).readable <==> (raw.flags & EPOLLIN == EPOLLIN || raw.flags & EPOLLPRI
            == EPOLLPRI || raw.flags & EPOLLERR == EPOLLERR || raw.flags & EPOLLHUP == EPOLLHUP),
        event_of(raw).writable <==> (raw.flags & EPOLLOUT == EPOLLOUT || raw.flags & EPOLLERR
            == EPOLLERR || raw.flags & EPOLLHUP == EPOLLHUP),
        event_of(raw).extra.flags == raw.flags,
        event_of(raw).extra.has_hup() <==> raw.flags & EPOLLHUP != 0,
        event_of(raw).extra.has_pri() <==> raw.flags & EPOLLPRI != 0,
        event_of(raw).extra.has_err() <==> raw.flags & EPOLLERR != 0,
        event_of(raw).extra.has_failed_connect() <==> raw.flags & EPOLLERR != 0 && raw.flags
            & EPOLLHUP != 0,
{
    law_readiness_conditions(raw.flags);
    law_extra_tells_its_flags(event_of(raw).extra);
}

/// Every event of a list is told, in its place, and no other: there are as many
/// as were reported, and each has the key and the flags of that which was reported
/// there.
pub proof fn law_every_reported_event_is_told(list: Seq<RawEvent>)
    ensures
        events_of(list).len() == list.len(),
        forall|i: int|
            0 <= i < list.len() ==> {
                let told = #[trigger] events_of(list)[i];
                &&& told == event_of(list[i])
                &&& list[i].data <= usize::MAX ==> told.key == list[i].data
                &&& told.extra.flags == list[i].flags
            },
{
    assert forall|i: int| 0 <= i < list.len() implies #[trigger] events_of(list)[i] == event_of(
        list[i],
    ) by {
        law_event_tells_what_was_reported(list[i]);
    }
}

/// The events of sources are those of a list whose key is not the poller's own,
/// each as it is and in its place: none is lost, changed or moved.
pub proof fn law_sources_keep_their_events(events: Seq<Event>, more: Seq<Event>, event: Event)
    ensures
        from_sources(Seq::empty()) == Seq::<Event>::empty(),
        from_sources(seq![event]) == if event.key == usize::MAX {
            Seq::empty()
        } else {
            seq![event]
        },
        from_sources(events + more) == from_sources(events) + from_sources(more),
{
    reveal(Seq::filter);
    reveal_with_fuel(Seq::filter, 2);
    assert(seq![event].drop_last() =~= Seq::<Event>::empty());
    assert(Seq::<Event>::empty().push(event) =~= seq![event]);
    Seq::filter_distributes_over_add(events, more, |e: Event| e.key != NOTIFY_KEY);
}

} // verus!
