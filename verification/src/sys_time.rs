//! Interval timer values: the C-facing form in microseconds, the kernel's form
//! in nanoseconds, and the conversion between the two.
use vstd::prelude::*;
use crate::types::{c_int, suseconds_t, time_t};

verus! {

/// The timer that counts real elapsed time.
pub const ITIMER_REAL: c_int = 0;

/// The timer that counts the time the process spends executing.
pub const ITIMER_VIRTUAL: c_int = 1;

/// The timer that counts execution time and the time the kernel spends for the process.
pub const ITIMER_PROF: c_int = 2;

/// A span of time as C programs give it: seconds and microseconds.
#[derive(Clone, Copy, Debug, PartialEq, Eq, Structural)]
pub struct Timeval {
    pub tv_sec: time_t,
    pub tv_usec: suseconds_t,
}

/// An interval timer as C programs give it.
#[derive(Clone, Copy, Debug, PartialEq, Eq, Structural)]
pub struct Itimerval {
    pub it_interval: Timeval,
    pub it_value: Timeval,
}

/// A span of time as the kernel keeps it: seconds and nanoseconds.
#[derive(Clone, Copy, Debug, PartialEq, Eq, Structural)]
pub struct TimeSpec {
    pub tv_sec: i64,
    pub tv_nsec: i32,
}

/// An interval timer as the kernel keeps it.
#[derive(Clone, Copy, Debug, PartialEq, Eq, Structural)]
pub struct ITimerSpec {
    pub it_interval: TimeSpec,
    pub it_value: TimeSpec,
}

/// The size of the kernel's timer record in bytes: two spans, each eight bytes
/// of seconds and four of nanoseconds, filled up to sixteen.
pub const ITIMER_SPEC_SIZE: usize = 32;

/// The quotient of `n` by a positive `d`, rounded toward zero.
pub open spec fn quotient_toward_zero(n: int, d: int) -> int {
    if n >= 0 {
        n / d
    } else {
        -((-n) / d)
    }
}

impl Timeval {
    /// The microseconds, taken times 1000, fit the kernel's nanosecond field.
    /// Every span that C programs may give does: its microseconds are fewer than
    /// 1,000,000.
    pub open spec fn scalable(self) -> bool {
        i32::MIN <= self.tv_usec * 1000 <= i32::MAX
    }

    /// The kernel's form of this span: the same seconds, the microseconds times 1000.
    pub open spec fn to_kernel_spec(self) -> TimeSpec {
        TimeSpec { tv_sec: self.tv_sec, tv_nsec: (self.tv_usec * 1000) as i32 }
    }

    /// Tells whether `to_kernel` can be called.
    pub fn is_scalable(&self) -> (b: bool)
        ensures
            b == self.scalable(),
    {
        -2_147_483 <= self.tv_usec && self.tv_usec <= 2_147_483
    }

    /// Converts to the kernel's form. Exact: no precision is lost.
    pub fn to_kernel(&self) -> (k: TimeSpec)
        requires
            self.scalable(),
        ensures
            k == self.to_kernel_spec(),
            k.tv_sec == self.tv_sec,
            k.tv_nsec == self.tv_usec * 1000,
    {
        TimeSpec { tv_sec: self.tv_sec, tv_nsec: self.tv_usec * 1000 }
    }
}

impl TimeSpec {
    /// The C-facing form of this span: the same seconds, the nanoseconds
    /// divided by 1000, what is left over dropped.
    pub open spec fn to_c_spec(self) -> Timeval {
        Timeval {
            tv_sec: self.tv_sec,
            tv_usec: quotient_toward_zero(self.tv_nsec as int, 1000) as i32,
        }
    }

    /// Converts to the C-facing form.
    pub fn to_c(&self) -> (t: Timeval)
        ensures
            t == self.to_c_spec(),
            t.tv_sec == self.tv_sec,
            t.tv_usec == quotient_toward_zero(self.tv_nsec as int, 1000),
    {
        Timeval { tv_sec: self.tv_sec, tv_usec: self.tv_nsec / 1000 }
    }
}

impl Itimerval {
    /// Both spans can be converted to the kernel's form.
    pub open spec fn scalable(self) -> bool {
        self.it_interval.scalable() && self.it_value.scalable()
    }

    /// The kernel's form of this timer.
    pub open spec fn to_kernel_spec(self) -> ITimerSpec {
        ITimerSpec {
            it_interval: self.it_interval.to_kernel_spec(),
            it_value: self.it_value.to_kernel_spec(),
        }
    }

    /// Tells whether `to_kernel` can be called.
    pub fn is_scalable(&self) -> (b: bool)
        ensures
            b == self.scalable(),
    {
        self.it_interval.is_scalable() && self.it_value.is_scalable()
    }

    /// Converts both spans to the kernel's form.
    pub fn to_kernel(&self) -> (k: ITimerSpec)
        requires
            self.scalable(),
        ensures
            k == self.to_kernel_spec(),
    {
        ITimerSpec {
            it_interval: self.it_interval.to_kernel(),
            it_value: self.it_value.to_kernel(),
        }
    }
}

impl ITimerSpec {
    /// The C-facing form of this timer.
    pub open spec fn to_c_spec(self) -> Itimerval {
        Itimerval {
            it_interval: self.it_interval.to_c_spec(),
            it_value: self.it_value.to_c_spec(),
        }
    }

    /// Converts both spans to the C-facing form.
    pub fn to_c(&self) -> (t: Itimerval)
        ensures
            t == self.to_c_spec(),
    {
        Itimerval { it_interval: self.it_interval.to_c(), it_value: self.it_value.to_c() }
    }
}

/// A span that went to the kernel's form and back is the span it was.
pub proof fn lemma_timeval_round_trip(t: Timeval)
    requires
        t.scalable(),
    ensures
        t.to_kernel_spec().to_c_spec() == t,
{
}

/// A timer that went to the kernel's form and back is the timer it was.
pub proof fn lemma_itimerval_round_trip(t: Itimerval)
    requires
        t.scalable(),
    ensures
        t.to_kernel_spec().to_c_spec() == t,
{
    lemma_timeval_round_trip(t.it_interval);
    lemma_timeval_round_trip(t.it_value);
}

/// Every span that comes back from the kernel can be handed to it again.
pub proof fn lemma_to_c_is_scalable(k: TimeSpec)
    ensures
        k.to_c_spec().scalable(),
{
}

/// The way back from the kernel loses nothing exactly when the kernel holds
/// whole microseconds.
pub proof fn lemma_timespec_round_trip(k: TimeSpec)
    ensures
        k.to_c_spec().to_kernel_spec() == k <==> k.tv_nsec % 1000 == 0,
{
}

} // verus!
