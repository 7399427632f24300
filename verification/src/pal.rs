//! The capability contract: the signal and timer operations that every backend
//! offers, in one shape whatever the kernel.
use vstd::prelude::*;
use crate::call::{Call, CallView};
use crate::errno::EINVAL;
use crate::signal::{sigset_t, Sigaction};
use crate::sys_time::Itimerval;
use crate::types::{c_int, pid_t};

verus! {

/// The signal and timer operations of a platform.
///
/// Each operation starts a [`Call`]. Whatever the backend, a call that has just
/// been started holds no descriptor, and a timer kind that the backend does not
/// reach is refused as an invalid argument before the kernel is asked anything:
/// nothing is ever done in place of what was asked.
pub trait PalSignal {
    /// The timer kinds that this backend reaches.
    spec fn timer_supported(which: c_int) -> bool;

    /// Starts reading the value of the timer `which`.
    fn getitimer(which: c_int) -> (call: Call)
        ensures
            !Self::timer_supported(which) ==> call@ == CallView::refused(EINVAL),
            Self::timer_supported(which) ==> call@.pending() is Some,
            call@.held() is None,
    ;

    /// The call that sends the signal `sig` to the process `pid`.
    spec fn kill_spec(pid: pid_t, sig: c_int) -> CallView;

    /// Starts sending the signal `sig` to the process `pid`.
    fn kill(pid: pid_t, sig: c_int) -> (call: Call)
        ensures
            call@ == Self::kill_spec(pid, sig),
            call@.pending() is Some,
            call@.held() is None,
    ;

    /// Starts sending the signal `sig` to the process group `pgrp`.
    fn killpg(pgrp: pid_t, sig: c_int) -> (call: Call)
        ensures
            call@.pending() is Some,
            call@.held() is None,
    ;

    /// Starts sending the signal `sig` to the calling process, whose id is
    /// `pid`: the same call as the kill of that process.
    fn raise(pid: pid_t, sig: c_int) -> (call: Call)
        ensures
            call@ == Self::kill_spec(pid, sig),
            call@.pending() is Some,
            call@.held() is None,
    ;

    /// Starts setting the timer `which` to `new`. The timer's previous value is
    /// handed back where `want_old` is set.
    fn setitimer(which: c_int, new: &Itimerval, want_old: bool) -> (call: Call)
        requires
            Self::timer_supported(which) ==> new.scalable(),
        ensures
            !Self::timer_supported(which) ==> call@ == CallView::refused(EINVAL),
            Self::timer_supported(which) ==> call@.pending() is Some,
            call@.held() is None,
    ;

    /// Starts setting the action for the signal `sig` to `act`, where one is
    /// given. The previous action is handed back where `want_old` is set.
    fn sigaction(sig: c_int, act: Option<&Sigaction>, want_old: bool) -> (call: Call)
        ensures
            call@.pending() is Some,
            call@.held() is None,
    ;

    /// Starts changing the signal mask by `set` in the way `how`, where a set is
    /// given. The previous mask is handed back where `want_old` is set.
    fn sigprocmask(how: c_int, set: Option<sigset_t>, want_old: bool) -> (call: Call)
        ensures
            call@.pending() is Some,
            call@.held() is None,
    ;
}

} // verus!
