//! Time limits: the limit that a caller gives, and what it becomes for the
//! timer and for the wait itself.

use vstd::prelude::*;

verus! {

/// Nanoseconds in a second.
pub const NANOS_PER_SEC: u32 = 1_000_000_000;

/// A span of time that a wait may last: whole seconds, and the nanoseconds of a
/// started second.
#[derive(Debug, Clone, Copy, PartialEq, Eq)]
pub struct Timeout {
    secs: u64,
    nanos: u32,
}

/// A span of time as the kernel takes it.
#[derive(Debug, Clone, Copy, PartialEq, Eq)]
pub struct Timespec {
    /// Seconds.
    pub tv_sec: i64,
    /// Nanoseconds.
    pub tv_nsec: i64,
}

/// The setting of a timer as the kernel takes it.
#[derive(Debug, Clone, Copy, PartialEq, Eq)]
pub struct Itimerspec {
    /// The time from one expiration to the next; zero for a single one.
    pub it_interval: Timespec,
    /// The time to the first expiration; zero disarms the timer.
    pub it_value: Timespec,
}

/// The `Timespec` that equals zero.
pub open spec fn ts_zero() -> Timespec {
    Timespec { tv_sec: 0, tv_nsec: 0 }
}

impl Timeout {
    #[verifier::type_invariant]
    spec fn inv(self) -> bool {
        self.nanos < NANOS_PER_SEC
    }

    /// The whole seconds.
    pub closed spec fn secs(self) -> u64 {
        self.secs
    }

    /// The nanoseconds beyond the whole seconds.
    pub closed spec fn nanos(self) -> u32 {
        self.nanos
    }

    /// Whether the nanoseconds are less than a second.
    pub open spec fn wf(self) -> bool {
        self.nanos() < NANOS_PER_SEC
    }

    /// The span in nanoseconds.
    pub open spec fn total(self) -> int {
        self.secs() * NANOS_PER_SEC + self.nanos()
    }

    /// The span of the given seconds and nanoseconds, where the latter are less
    /// than a second.
    pub fn new(secs: u64, nanos: u32) -> (r: Option<Timeout>)
        ensures
            r is Some <==> nanos < NANOS_PER_SEC,
            r matches Some(t) ==> t.wf() && t.secs() == secs && t.nanos() == nanos,
    {
        if nanos < NANOS_PER_SEC {
            Some(Timeout { secs, nanos })
        } else {
            None
        }
    }

    /// Tells if the span is zero.
    pub fn is_zero(&self) -> (r: bool)
        ensures
            r == (self.secs() == 0 && self.nanos() == 0),
    {
        self.secs == 0 && self.nanos == 0
    }
}

impl Timespec {
    /// The span in nanoseconds.
    pub open spec fn total(self) -> int {
        self.tv_sec * NANOS_PER_SEC + self.tv_nsec
    }

    /// The span that equals zero.
    pub fn zero() -> (r: Timespec)
        ensures
            r == ts_zero(),
    {
        Timespec { tv_sec: 0, tv_nsec: 0 }
    }
}

/// The timer setting for a limit: a single expiration after the limit, or a
/// disarmed timer where there is no limit.
pub open spec fn timer_value(timeout: Option<Timeout>) -> Itimerspec {
    Itimerspec {
        it_interval: ts_zero(),
        it_value: match timeout {
            None => ts_zero(),
            Some(t) => Timespec { tv_sec: t.secs() as i64, tv_nsec: t.nanos() as i64 },
        },
    }
}

/// The limit as a `Timespec`, where its seconds fit.
pub open spec fn exact_timespec(timeout: Timeout) -> Option<Timespec> {
    if timeout.secs() <= i64::MAX {
        Some(Timespec { tv_sec: timeout.secs() as i64, tv_nsec: timeout.nanos() as i64 })
    } else {
        None
    }
}

/// The limit to give to the wait itself. A zero limit is always given to it.
/// Any other is left to the timer where there is one; without one it is given
/// to the wait, or to nobody if it does not fit.
pub open spec fn wait_limit(has_timer: bool, timeout: Option<Timeout>) -> Option<Timespec> {
    match timeout {
        Some(t) => if t.secs() == 0 && t.nanos() == 0 {
            Some(ts_zero())
        } else if has_timer {
            None
        } else {
            exact_timespec(t)
        },
        None => None,
    }
}

/// `<rustix::event::Timespec as TryFrom<Duration>>::try_from`, on the `Duration`
/// of the given seconds and nanoseconds: the same seconds and nanoseconds where
/// the seconds fit in an `i64`, an error otherwise. Nanoseconds of a second or
/// more, which `Duration::new` would carry over, are left out.
#[verifier::external_body]
fn timespec_try_from(secs: u64, nanos: u32) -> (r: Result<Timespec, core::num::TryFromIntError>)
    requires
        nanos < NANOS_PER_SEC,
    ensures
        r is Ok <==> secs <= i64::MAX,
        r matches Ok(ts) ==> ts.tv_sec == secs && ts.tv_nsec == nanos,
{
    let ts = rustix::event::Timespec::try_from(core::time::Duration::new(secs, nanos))?;
    Ok(Timespec { tv_sec: ts.tv_sec, tv_nsec: ts.tv_nsec as i64 })
}

/// Computes the timer setting for a limit.
pub fn timer_setting(timeout: Option<Timeout>) -> (r: Itimerspec)
    ensures
        r == timer_value(timeout),
{
    let it_value = match timeout {
        None => Timespec::zero(),
        Some(t) => Timespec { tv_sec: t.secs as i64, tv_nsec: t.nanos as i64 },
    };
    Itimerspec { it_interval: Timespec::zero(), it_value }
}

/// Computes the limit to give to the wait itself.
pub fn wait_timeout(has_timer: bool, timeout: Option<Timeout>) -> (r: Option<Timespec>)
    ensures
        r == wait_limit(has_timer, timeout),
{
    match timeout {
        Some(t) => {
            proof {
                use_type_invariant(&t);
            }
            if t.is_zero() {
                Some(Timespec::zero())
            } else if has_timer {
                None
            } else {
                match timespec_try_from(t.secs, t.nanos) {
                    Ok(ts) => Some(ts),
                    Err(_) => None,
                }
            }
        },
        None => None,
    }
}

/// A limit whose seconds fit is kept exactly, with a timer and without one:
/// either the wait itself gets it, or the timer is armed to expire once after
/// it.
pub proof fn law_limit_is_kept(has_timer: bool, t: Timeout)
    requires
        t.wf(),
        t.secs() <= i64::MAX,
    ensures
        match wait_limit(has_timer, Some(t)) {
            Some(ts) => ts.total() == t.total(),
            None => {
                &&& has_timer
                &&& timer_value(Some(t)).it_value.total() == t.total()
                &&& timer_value(Some(t)).it_value != ts_zero()
                &&& timer_value(Some(t)).it_interval == ts_zero()
            },
        },
{
}

/// A zero limit makes the wait return at once, with a timer and without one.
pub proof fn law_zero_limit_does_not_block(has_timer: bool, t: Timeout)
    requires
        t.total() == 0,
        t.wf(),
    ensures
        wait_limit(has_timer, Some(t)) == Some(ts_zero()),
{
}

/// Without a limit nothing ends the wait early: the wait itself gets none and
/// the timer is disarmed.
pub proof fn law_no_limit_leaves_nothing_armed(has_timer: bool)
    ensures
        wait_limit(has_timer, None) is None,
        timer_value(None).it_value == ts_zero(),
{
}

/// A limit whose seconds do not fit is no limit for a wait without a timer, and
/// for the timer it is a negative time, which is not the zero that disarms.
pub proof fn law_limit_beyond_range(t: Timeout)
    requires
        t.wf(),
        t.secs() > i64::MAX,
    ensures
        wait_limit(false, Some(t)) is None,
        timer_value(Some(t)).it_value.tv_sec < 0,
{
    let secs = t.secs();
    assert(secs > 0x7fff_ffff_ffff_ffffu64 ==> (secs as i64) < 0) by (bit_vector);
}

/// The timer is set to expire once, after the seconds and the nanoseconds of the
/// limit, or not at all where there is no limit. Seconds that do not fit wrap
/// around.
pub proof fn law_timer_is_set_to_limit(timeout: Option<Timeout>)
    ensures
        timer_value(timeout).it_interval.tv_sec == 0,
        timer_value(timeout).it_interval.tv_nsec == 0,
        match timeout {
            None => timer_value(timeout).it_value.tv_sec == 0 && timer_value(
                timeout,
            ).it_value.tv_nsec == 0,
            Some(t) => {
                let value = timer_value(timeout).it_value;
                &&& t.secs() <= i64::MAX ==> value.tv_sec == t.secs()
                &&& t.secs() > i64::MAX ==> value.tv_sec == t.secs() - 0x1_0000_0000_0000_0000
                &&& value.tv_nsec == t.nanos()
            },
        },
{
    if let Some(t) = timeout {
        let secs = t.secs();
        assert(secs > 0x7fff_ffff_ffff_ffffu64 ==> (secs as i64) == secs
            - 0x1_0000_0000_0000_0000) by (bit_vector);
    }
}

/// The wait itself gets a limit if and only if that is zero, or there is no timer
/// and the seconds fit. What it gets are the seconds and the nanoseconds of the
/// limit.
pub proof fn law_wait_is_given_limit(has_timer: bool, timeout: Option<Timeout>)
    ensures
        match timeout {
            None => wait_limit(has_timer, timeout) is None,
            Some(t) => {
                &&& wait_limit(has_timer, timeout) is Some <==> (t.secs() == 0 && t.nanos() == 0) || (
                !has_timer && t.secs() <= i64::MAX)
                &&& wait_limit(has_timer, timeout) matches Some(ts) ==> ts.tv_sec == t.secs()
                    && ts.tv_nsec == t.nanos()
            },
        },
{
}

} // verus!
