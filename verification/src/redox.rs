//! The backend for the microkernel.
//!
//! Interval timers are resources of their own: the timer is opened by path, its
//! value read, and for an update the new value written, before the descriptor
//! is closed. Signals have system calls of their own; their arguments are
//! converted to the kernel's layout, and what comes back is converted to the
//! caller's.
use vstd::prelude::*;
use crate::call::{Call, CallView, Acquisition, Job, JobView, OutcomeView, OutputView};
use crate::errno::{Errno, EINVAL, EIO};
use crate::kernel::{
    read_flags,
    read_flags_spec,
    update_flags,
    update_flags_spec,
    ReplyView,
    RequestView,
    TimerKind,
};
use crate::pal::PalSignal;
use crate::signal::{
    lemma_action_round_trip,
    mask_to_c_spec,
    mask_to_kernel,
    mask_to_kernel_spec,
    sigset_t,
    KernelSigAction,
    Sigaction,
};
use crate::sys_time::{
    lemma_itimerval_round_trip,
    ITimerSpec,
    Itimerval,
    ITIMER_REAL,
    ITIMER_SPEC_SIZE,
};
use crate::trace::lemma_finished_is_final;
use crate::types::{c_int, pid_t, to_word, to_word_negated, word_of};

verus! {

/// The table of the timers: the one that counts real time is a resource of the
/// kernel, and no other is.
pub open spec fn timer_kind_spec(which: c_int) -> Option<TimerKind> {
    if which == ITIMER_REAL {
        Some(TimerKind::Real)
    } else {
        None
    }
}

/// Looks a timer up in the table.
pub fn timer_kind(which: c_int) -> (kind: Option<TimerKind>)
    ensures
        kind == timer_kind_spec(which),
{
    if which == ITIMER_REAL {
        Some(TimerKind::Real)
    } else {
        None
    }
}

/// The microkernel.
pub struct Sys;

impl Sys {
    /// The call that reads the timer `which`.
    pub open spec fn getitimer_spec(which: c_int) -> CallView {
        match timer_kind_spec(which) {
            Some(timer) => CallView::Acquiring {
                by: Acquisition::OpenTimer { timer, flags: read_flags_spec() },
                job: JobView::GetTimer,
            },
            None => CallView::refused(EINVAL),
        }
    }

    /// The call that sets the timer `which` to `new`.
    pub open spec fn setitimer_spec(which: c_int, new: Itimerval, want_old: bool) -> CallView {
        match timer_kind_spec(which) {
            Some(timer) => CallView::Acquiring {
                by: Acquisition::OpenTimer { timer, flags: update_flags_spec() },
                job: JobView::SetTimer { new: new.to_kernel_spec(), want_old },
            },
            None => CallView::refused(EINVAL),
        }
    }

    /// The call that sends `sig` to the group `pgrp`: the kernel takes a group
    /// as the negated id.
    pub open spec fn killpg_spec(pgrp: pid_t, sig: c_int) -> CallView {
        CallView::Signalling { pid: word_of(-(pgrp as int)), sig: word_of(sig as int) }
    }

    /// The new action in the kernel's form, where one is given.
    pub open spec fn kernel_action(act: Option<&Sigaction>) -> Option<KernelSigAction> {
        match act {
            Some(action) => Some(action.to_kernel_spec()),
            None => None,
        }
    }

    /// The new mask in the kernel's form, where one is given.
    pub open spec fn kernel_mask(set: Option<sigset_t>) -> Option<[u64; 2]> {
        match set {
            Some(mask) => Some(mask_to_kernel_spec(mask)),
            None => None,
        }
    }

    /// The call that sets or asks for the action of `sig`.
    pub open spec fn sigaction_spec(sig: c_int, act: Option<&Sigaction>, want_old: bool)
        -> CallView {
        CallView::Acting { sig: word_of(sig as int), act: Sys::kernel_action(act), want_old }
    }

    /// The call that changes or asks for the signal mask.
    pub open spec fn sigprocmask_spec(how: c_int, set: Option<sigset_t>, want_old: bool)
        -> CallView {
        CallView::Masking { how: word_of(how as int), set: Sys::kernel_mask(set), want_old }
    }
}

impl PalSignal for Sys {
    open spec fn timer_supported(which: c_int) -> bool {
        timer_kind_spec(which) is Some
    }

    /// Both the process and the signal go to the kernel as words.
    open spec fn kill_spec(pid: pid_t, sig: c_int) -> CallView {
        CallView::Signalling { pid: word_of(pid as int), sig: word_of(sig as int) }
    }

    /// Starts reading the timer: its path is opened for reading, the value is
    /// read and converted to microseconds, the descriptor is closed.
    fn getitimer(which: c_int) -> (call: Call)
        ensures
            call@ == Sys::getitimer_spec(which),
    {
        match timer_kind(which) {
            Some(timer) => Call::Acquiring {
                by: Acquisition::OpenTimer { timer, flags: read_flags() },
                job: Job::GetTimer,
            },
            None => Call::refused(EINVAL),
        }
    }

    fn kill(pid: pid_t, sig: c_int) -> (call: Call) {
        Call::Signalling { pid: to_word(pid), sig: to_word(sig) }
    }

    fn killpg(pgrp: pid_t, sig: c_int) -> (call: Call)
        ensures
            call@ == Sys::killpg_spec(pgrp, sig),
    {
        Call::Signalling { pid: to_word_negated(pgrp), sig: to_word(sig) }
    }

    fn raise(pid: pid_t, sig: c_int) -> (call: Call) {
        Self::kill(pid, sig)
    }

    /// Starts setting the timer: its path is opened for reading and writing, the
    /// old value is read, the new value, converted to nanoseconds, is written,
    /// and the descriptor is closed. If the read fails nothing is written.
    fn setitimer(which: c_int, new: &Itimerval, want_old: bool) -> (call: Call)
        ensures
            call@ == Sys::setitimer_spec(which, *new, want_old),
    {
        match timer_kind(which) {
            Some(timer) => Call::Acquiring {
                by: Acquisition::OpenTimer { timer, flags: update_flags() },
                job: Job::SetTimer { new: new.to_kernel(), want_old },
            },
            None => Call::refused(EINVAL),
        }
    }

    fn sigaction(sig: c_int, act: Option<&Sigaction>, want_old: bool) -> (call: Call)
        ensures
            call@ == Sys::sigaction_spec(sig, act, want_old),
    {
        let kernel_act: Option<KernelSigAction> = match act {
            Some(action) => Some(action.to_kernel()),
            None => None,
        };
        Call::Acting { sig: to_word(sig), act: kernel_act, want_old }
    }

    fn sigprocmask(how: c_int, set: Option<sigset_t>, want_old: bool) -> (call: Call)
        ensures
            call@ == Sys::sigprocmask_spec(how, set, want_old),
    {
        let kernel_set: Option<[u64; 2]> = match set {
            Some(mask) => Some(mask_to_kernel(mask)),
            None => None,
        };
        Call::Masking { how: to_word(how), set: kernel_set, want_old }
    }
}

/// A timer other than the real-time one is refused as an invalid argument, to
/// be read or to be set, and the kernel is never asked: the C function returns
/// -1, the error slot holds the code, and whatever replies are offered, nothing
/// is opened or asked for.
pub proof fn lemma_other_timers_are_refused(
    which: c_int,
    new: Itimerval,
    want_old: bool,
    replies: Seq<ReplyView>,
    errno_before: c_int,
)
    requires
        which != ITIMER_REAL,
    ensures
        Sys::getitimer_spec(which) == CallView::refused(EINVAL),
        Sys::setitimer_spec(which, new, want_old) == CallView::refused(EINVAL),
        CallView::refused(EINVAL).pending() is None,
        CallView::refused(EINVAL).outcome() == Some(OutcomeView::failure(EINVAL)),
        OutcomeView::failure(EINVAL).ret() == -1,
        OutcomeView::failure(EINVAL).errno_after(errno_before) == EINVAL,
        CallView::refused(EINVAL).run(replies) == CallView::refused(EINVAL),
        CallView::refused(EINVAL).attempted(replies) == 0,
        CallView::refused(EINVAL).acquired(replies) == 0,
{
    lemma_finished_is_final(CallView::refused(EINVAL), replies);
}

/// Setting the real-time timer writes the new value in nanoseconds, after the
/// old value has been read whole; and if the kernel then returns what was
/// written, reading the timer hands back the value that was set.
pub proof fn lemma_set_then_get_timer(
    new: Itimerval,
    want_old: bool,
    fd: usize,
    before: ITimerSpec,
    closed: Result<usize, Errno>,
)
    requires
        new.scalable(),
    ensures
        Sys::setitimer_spec(ITIMER_REAL, new, want_old).next(ReplyView::Status(Ok(fd))).next(
            ReplyView::Timer { status: Ok(ITIMER_SPEC_SIZE), value: before },
        ).pending() == Some(RequestView::WriteTimer { fd, spec: new.to_kernel_spec() }),
        Sys::getitimer_spec(ITIMER_REAL).next(ReplyView::Status(Ok(fd))).next(
            ReplyView::Timer { status: Ok(ITIMER_SPEC_SIZE), value: new.to_kernel_spec() },
        ).next(ReplyView::Status(closed)).outcome() == Some(
            OutcomeView::success(OutputView::Timer(new)),
        ),
{
    lemma_itimerval_round_trip(new);
}

/// The real-time timer is read and set with success only where every transfer
/// moved the whole record: the C function returns 0 exactly when the read, and
/// for a set the write too, was answered with the size of the record. A read
/// that fell short or failed is followed by the closing and nothing is
/// written; a write that fell short or failed is followed by the closing too.
pub proof fn lemma_timer_transfers_are_whole(
    new: Itimerval,
    want_old: bool,
    fd: usize,
    read: Result<usize, Errno>,
    value: ITimerSpec,
    written: Result<usize, Errno>,
    closed: Result<usize, Errno>,
)
    requires
        new.scalable(),
    ensures
        ({
            let got = Sys::getitimer_spec(ITIMER_REAL).next(ReplyView::Status(Ok(fd))).next(
                ReplyView::Timer { status: read, value },
            );
            &&& got.pending() == Some(RequestView::Close { fd })
            &&& got.next(ReplyView::Status(closed)).outcome() == Some(
                OutcomeView::timer_received(read, value),
            )
            &&& OutcomeView::timer_received(read, value).ret() == 0 <==> read == Ok::<
                usize,
                Errno,
            >(ITIMER_SPEC_SIZE)
            &&& (read matches Ok(count) && count != ITIMER_SPEC_SIZE)
                ==> OutcomeView::timer_received(read, value) == OutcomeView::failure(EIO)
        }),
        ({
            let held = Sys::setitimer_spec(ITIMER_REAL, new, want_old).next(
                ReplyView::Status(Ok(fd)),
            ).next(ReplyView::Timer { status: read, value });
            &&& read != Ok::<usize, Errno>(ITIMER_SPEC_SIZE) ==> {
                &&& held.pending() == Some(RequestView::Close { fd })
                &&& held.next(ReplyView::Status(closed)).outcome() matches Some(end)
                &&& end.ret() == -1
                &&& read is Ok ==> end == OutcomeView::failure(EIO)
                &&& read matches Err(err) ==> end == OutcomeView::failure(err.code)
            }
            &&& read == Ok::<usize, Errno>(ITIMER_SPEC_SIZE) ==> {
                &&& held.pending() == Some(
                    RequestView::WriteTimer { fd, spec: new.to_kernel_spec() },
                )
                &&& held.next(ReplyView::Status(written)).pending() == Some(
                    RequestView::Close { fd },
                )
                &&& held.next(ReplyView::Status(written)).next(
                    ReplyView::Status(closed),
                ).outcome() matches Some(end)
                &&& end.ret() == 0 <==> written == Ok::<usize, Errno>(ITIMER_SPEC_SIZE)
                &&& (written matches Ok(count) && count != ITIMER_SPEC_SIZE) ==> end.status
                    == Err::<(), Errno>(Errno { code: EIO })
                &&& written matches Err(err) ==> end.status == Err::<(), Errno>(err)
            }
        }),
{
}

/// A mask that is set goes to the kernel in the first of two words, the second
/// zero; and if the kernel returns that mask as the previous one, the caller
/// who asks for the previous mask is handed the mask that was set, bit for bit.
pub proof fn lemma_set_then_query_mask(
    how: c_int,
    set: sigset_t,
    later_how: c_int,
    later_set: Option<sigset_t>,
    status: Result<usize, Errno>,
)
    ensures
        Sys::sigprocmask_spec(how, Some(set), false).pending() == Some(
            RequestView::Sigprocmask {
                how: word_of(how as int),
                set: Some(mask_to_kernel_spec(set)),
                want_old: false,
            },
        ),
        mask_to_kernel_spec(set)[0] == set,
        mask_to_kernel_spec(set)[1] == 0,
        Sys::sigprocmask_spec(later_how, later_set, true).next(
            ReplyView::Mask { status, old_mask: Some(mask_to_kernel_spec(set)) },
        ).outcome() == Some(OutcomeView::of_status(status, OutputView::Mask(set))),
{
}

/// A previous mask that was handed back, set again, goes to the kernel as the
/// mask that the kernel gave, where that mask is one that this layer sets: its
/// first word a machine word, its second zero. The mask is restored exactly.
pub proof fn lemma_previous_mask_restores(
    how: c_int,
    set: Option<sigset_t>,
    status: Result<usize, Errno>,
    previous: [u64; 2],
    later_how: c_int,
)
    requires
        previous[0] <= usize::MAX,
        previous[1] == 0,
    ensures
        Sys::sigprocmask_spec(how, set, true).next(
            ReplyView::Mask { status, old_mask: Some(previous) },
        ).outcome() == Some(
            OutcomeView::of_status(status, OutputView::Mask(mask_to_c_spec(previous))),
        ),
        Sys::sigprocmask_spec(later_how, Some(mask_to_c_spec(previous)), false).pending() == Some(
            RequestView::Sigprocmask {
                how: word_of(later_how as int),
                set: Some(previous),
                want_old: false,
            },
        ),
{
    assert(mask_to_kernel_spec(mask_to_c_spec(previous)) =~= previous);
}

/// An action that is set goes to the kernel with its mask in the first of two
/// words, the second zero; and if the kernel returns that action as the
/// previous one, the caller who asks for the previous action is handed an
/// action with the handler word, the mask and the flags that were set, bit for
/// bit: the action that was set, where its handler is well formed.
pub proof fn lemma_set_then_query_action(
    sig: c_int,
    action: Sigaction,
    later: Option<&Sigaction>,
    status: Result<usize, Errno>,
)
    ensures
        Sys::sigaction_spec(sig, Some(&action), false).pending() == Some(
            RequestView::Sigaction {
                sig: word_of(sig as int),
                act: Some(action.to_kernel_spec()),
                want_old: false,
            },
        ),
        action.to_kernel_spec().sa_mask[0] == action.sa_mask,
        action.to_kernel_spec().sa_mask[1] == 0,
        Sys::sigaction_spec(sig, later, true).next(
            ReplyView::Action { status, old_action: Some(action.to_kernel_spec()) },
        ).outcome() == Some(
            OutcomeView::of_status(
                status,
                OutputView::Action(action.to_kernel_spec().to_c_spec()),
            ),
        ),
        action.to_kernel_spec().to_c_spec().sa_handler.bits() == action.sa_handler.bits(),
        action.to_kernel_spec().to_c_spec().sa_mask == action.sa_mask,
        action.to_kernel_spec().to_c_spec().sa_flags == action.sa_flags,
        action.wf() ==> action.to_kernel_spec().to_c_spec() == action,
{
    lemma_action_round_trip(action);
}

} // verus!
