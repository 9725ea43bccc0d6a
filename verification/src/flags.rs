//! The `epoll` event flags: their values, the operations on them, and the sets
//! that stand for readability and writability.
//!
//! A flag set is held as its bits. The operations are those of
//! `rustix::event::epoll::EventFlags`.

use crate::event::{Event, PollMode};
use rustix::event::epoll::EventFlags;
use vstd::prelude::*;

verus! {

/// Data can be read.
pub const EPOLLIN: u32 = 0x0000_0001;

/// There is urgent data to read.
pub const EPOLLPRI: u32 = 0x0000_0002;

/// Data can be written.
pub const EPOLLOUT: u32 = 0x0000_0004;

/// An error condition holds.
pub const EPOLLERR: u32 = 0x0000_0008;

/// The other end hung up.
pub const EPOLLHUP: u32 = 0x0000_0010;

/// The registration is disabled once an event was reported.
pub const EPOLLONESHOT: u32 = 0x4000_0000;

/// Events are reported on changes only.
pub const EPOLLET: u32 = 0x8000_0000;

/// Whether every bit of `other` is in `flags`.
pub open spec fn has_all(flags: u32, other: u32) -> bool {
    flags & other == other
}

/// Whether some bit of `other` is in `flags`.
pub open spec fn has_any(flags: u32, other: u32) -> bool {
    flags & other != 0
}

/// `flags` with every bit of `other` added, or taken away.
pub open spec fn with_bits(flags: u32, other: u32, value: bool) -> u32 {
    if value {
        flags | other
    } else {
        flags & !other
    }
}

/// The conditions under which a read makes progress.
pub open spec fn read_bits() -> u32 {
    EPOLLIN | EPOLLHUP | EPOLLERR | EPOLLPRI
}

/// The conditions under which a write makes progress.
pub open spec fn write_bits() -> u32 {
    EPOLLOUT | EPOLLHUP | EPOLLERR
}

/// The bits that select a delivery mode.
pub open spec fn mode_bits(mode: PollMode) -> u32 {
    match mode {
        PollMode::Oneshot => EPOLLONESHOT,
        PollMode::Level => 0,
        PollMode::Edge => EPOLLET,
        PollMode::EdgeOneshot => EPOLLET | EPOLLONESHOT,
    }
}

/// The bits that ask for an interest in readability, writability, or both.
pub open spec fn interest_bits(readable: bool, writable: bool) -> u32 {
    (if readable { read_bits() } else { 0 }) | (if writable { write_bits() } else { 0 })
}

/// `EventFlags::empty`: no bit is set.
#[verifier::external_body]
pub(crate) fn flags_empty() -> (r: u32)
    ensures
        r == 0,
{
    EventFlags::empty().bits()
}

/// `EventFlags::union`, the operator `|`: the bits of either set.
#[verifier::external_body]
pub(crate) fn flags_union(flags: u32, other: u32) -> (r: u32)
    ensures
        r == flags | other,
{
    (EventFlags::from_bits_retain(flags) | EventFlags::from_bits_retain(other)).bits()
}

/// `EventFlags::contains`: every bit of `other` is set.
#[verifier::external_body]
pub(crate) fn flags_contains(flags: u32, other: u32) -> (r: bool)
    ensures
        r == has_all(flags, other),
{
    EventFlags::from_bits_retain(flags).contains(EventFlags::from_bits_retain(other))
}

/// `EventFlags::intersects`: some bit of `other` is set.
#[verifier::external_body]
pub(crate) fn flags_intersects(flags: u32, other: u32) -> (r: bool)
    ensures
        r == has_any(flags, other),
{
    EventFlags::from_bits_retain(flags).intersects(EventFlags::from_bits_retain(other))
}

/// `EventFlags::set`: the bits of `other` are added when `value` holds and
/// taken away otherwise; the other bits stay.
#[verifier::external_body]
pub(crate) fn flags_set(flags: u32, other: u32, value: bool) -> (r: u32)
    ensures
        r == with_bits(flags, other, value),
{
    let mut set = EventFlags::from_bits_retain(flags);
    set.set(EventFlags::from_bits_retain(other), value);
    set.bits()
}

/// `EventFlags::IN`: its bits are those of `EPOLLIN`.
#[verifier::external_body]
pub(crate) fn flag_in() -> (r: u32)
    ensures
        r == EPOLLIN,
{
    EventFlags::IN.bits()
}

/// `EventFlags::PRI`: its bits are those of `EPOLLPRI`.
#[verifier::external_body]
pub(crate) fn flag_pri() -> (r: u32)
    ensures
        r == EPOLLPRI,
{
    EventFlags::PRI.bits()
}

/// `EventFlags::OUT`: its bits are those of `EPOLLOUT`.
#[verifier::external_body]
pub(crate) fn flag_out() -> (r: u32)
    ensures
        r == EPOLLOUT,
{
    EventFlags::OUT.bits()
}

/// `EventFlags::ERR`: its bits are those of `EPOLLERR`.
#[verifier::external_body]
pub(crate) fn flag_err() -> (r: u32)
    ensures
        r == EPOLLERR,
{
    EventFlags::ERR.bits()
}

/// `EventFlags::HUP`: its bits are those of `EPOLLHUP`.
#[verifier::external_body]
pub(crate) fn flag_hup() -> (r: u32)
    ensures
        r == EPOLLHUP,
{
    EventFlags::HUP.bits()
}

/// `EventFlags::ONESHOT`: its bits are those of `EPOLLONESHOT`.
#[verifier::external_body]
pub(crate) fn flag_oneshot() -> (r: u32)
    ensures
        r == EPOLLONESHOT,
{
    EventFlags::ONESHOT.bits()
}

/// `EventFlags::ET`: its bits are those of `EPOLLET`.
#[verifier::external_body]
pub(crate) fn flag_et() -> (r: u32)
    ensures
        r == EPOLLET,
{
    EventFlags::ET.bits()
}

/// The flags for all possible readability events.
pub fn read_flags() -> (r: u32)
    ensures
        r == read_bits(),
{
    flags_union(flags_union(flags_union(flag_in(), flag_hup()), flag_err()), flag_pri())
}

/// The flags for all possible writability events.
pub fn write_flags() -> (r: u32)
    ensures
        r == write_bits(),
{
    flags_union(flags_union(flag_out(), flag_hup()), flag_err())
}

/// The flags to register for an interest: those of the delivery mode, and those
/// of every kind of readiness that the event asks for.
pub fn epoll_flags(interest: &Event, mode: PollMode) -> (r: u32)
    ensures
        r == mode_bits(mode) | interest_bits(interest.readable, interest.writable),
{
    let mut flags: u32 = match mode {
        PollMode::Oneshot => flag_oneshot(),
        PollMode::Level => flags_empty(),
        PollMode::Edge => flag_et(),
        PollMode::EdgeOneshot => flags_union(flag_et(), flag_oneshot()),
    };
    if interest.readable {
        flags = flags_union(flags, read_flags());
    }
    if interest.writable {
        flags = flags_union(flags, write_flags());
    }
    proof {
        let m = mode_bits(mode);
        let r = read_bits();
        let w = write_bits();
        assert(m | (0u32 | 0u32) == m) by (bit_vector);
        assert(m | (r | 0u32) == m | r) by (bit_vector);
        assert(m | (0u32 | w) == m | w) by (bit_vector);
        assert(m | (r | w) == (m | r) | w) by (bit_vector);
    }
    flags
}

/// Each kind of readiness is the presence of any one of its conditions: data,
/// urgent data, an error or a hangup for reading; room, an error or a hangup
/// for writing.
pub proof fn law_readiness_conditions(flags: u32)
    ensures
        has_any(flags, read_bits()) <==> (has_all(flags, EPOLLIN) || has_all(flags, EPOLLPRI)
            || has_all(flags, EPOLLERR) || has_all(flags, EPOLLHUP)),
        has_any(flags, write_bits()) <==> (has_all(flags, EPOLLOUT) || has_all(flags, EPOLLERR)
            || has_all(flags, EPOLLHUP)),
{
    assert((flags & (EPOLLIN | EPOLLHUP | EPOLLERR | EPOLLPRI) != 0) <==> (flags & EPOLLIN
        == EPOLLIN || flags & EPOLLPRI == EPOLLPRI || flags & EPOLLERR == EPOLLERR || flags
        & EPOLLHUP == EPOLLHUP)) by (bit_vector);
    assert((flags & (EPOLLOUT | EPOLLHUP | EPOLLERR) != 0) <==> (flags & EPOLLOUT == EPOLLOUT
        || flags & EPOLLERR == EPOLLERR || flags & EPOLLHUP == EPOLLHUP)) by (bit_vector);
}

/// The delivery mode and the interest can be read back from the flags that are
/// registered for them, so no two different choices share one set of flags. There
/// are no other flags among them.
pub proof fn law_registered_flags_tell_mode_and_interest(
    mode: PollMode,
    readable: bool,
    writable: bool,
)
    ensures
        ({
            let flags = mode_bits(mode) | interest_bits(readable, writable);
            &&& has_all(flags, EPOLLONESHOT) <==> (mode is Oneshot || mode is EdgeOneshot)
            &&& has_all(flags, EPOLLET) <==> (mode is Edge || mode is EdgeOneshot)
            &&& has_all(flags, read_bits()) <==> readable
            &&& has_all(flags, EPOLLIN) <==> readable
            &&& has_all(flags, EPOLLPRI) <==> readable
            &&& has_all(flags, write_bits()) <==> writable
            &&& has_all(flags, EPOLLOUT) <==> writable
            &&& has_all(flags, EPOLLERR) <==> (readable || writable)
            &&& has_all(flags, EPOLLHUP) <==> (readable || writable)
            &&& flags & !(EPOLLIN | EPOLLPRI | EPOLLOUT | EPOLLERR | EPOLLHUP | EPOLLONESHOT
                | EPOLLET) == 0
        }),
{
    let oneshot = mode is Oneshot || mode is EdgeOneshot;
    let edge = mode is Edge || mode is EdgeOneshot;
    let m = (if edge { EPOLLET } else { 0 }) | (if oneshot { EPOLLONESHOT } else { 0 });
    assert(EPOLLET | 0u32 == EPOLLET) by (bit_vector);
    assert(0u32 | EPOLLONESHOT == EPOLLONESHOT) by (bit_vector);
    assert(0u32 | 0u32 == 0u32) by (bit_vector);
    assert(m == mode_bits(mode));
    let flags = m | interest_bits(readable, writable);
    assert({
        &&& (flags & EPOLLONESHOT == EPOLLONESHOT) == oneshot
        &&& (flags & EPOLLET == EPOLLET) == edge
        &&& (flags & (EPOLLIN | EPOLLHUP | EPOLLERR | EPOLLPRI) == (EPOLLIN | EPOLLHUP | EPOLLERR
            | EPOLLPRI)) == readable
        &&& (flags & EPOLLIN == EPOLLIN) == readable
        &&& (flags & EPOLLPRI == EPOLLPRI) == readable
        &&& (flags & (EPOLLOUT | EPOLLHUP | EPOLLERR) == (EPOLLOUT | EPOLLHUP | EPOLLERR))
            == writable
        &&& (flags & EPOLLOUT == EPOLLOUT) == writable
        &&& (flags & EPOLLERR == EPOLLERR) == (readable || writable)
        &&& (flags & EPOLLHUP == EPOLLHUP) == (readable || writable)
        &&& flags & !(EPOLLIN | EPOLLPRI | EPOLLOUT | EPOLLERR | EPOLLHUP | EPOLLONESHOT | EPOLLET)
            == 0
    }) by (bit_vector)
        requires
            flags == ((if edge { EPOLLET } else { 0 }) | (if oneshot { EPOLLONESHOT } else { 0 }))
                | ((if readable { EPOLLIN | EPOLLHUP | EPOLLERR | EPOLLPRI } else { 0 }) | (if writable {
                EPOLLOUT | EPOLLHUP | EPOLLERR
            } else { 0 })),
    ;
}

} // verus!
