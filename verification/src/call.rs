//! A control operation in flight.
//!
//! A [`Call`] is a control operation between the moment a C program asks for it
//! and the moment it gets its answer. While it lasts it names one [`Request`]
//! at a time; the driver puts the request to the kernel and hands the
//! [`Reply`] to [`Call::step`]. When nothing is left to ask, the call holds its
//! [`Outcome`].
//!
//! An operation on a descriptor has three parts. The descriptor is acquired:
//! duplicated under the name of a capability, or opened by path. One record is
//! transferred, or for a timer update two: the old value read, the new one
//! written. A transfer that moves another number of bytes than the record
//! holds has failed, and after a failed read nothing is written. The
//! descriptor is released, whatever the transfer came to. An operation with a
//! system call of its own is that one call.
use vstd::prelude::*;
use crate::errno::{e, Errno, EIO};
use crate::kernel::{Capability, Reply, ReplyView, Request, RequestView, TimerKind};
use crate::signal::{mask_to_c, mask_to_c_spec, sigset_t, KernelSigAction, Sigaction};
use crate::sys_time::{ITimerSpec, Itimerval, ITIMER_SPEC_SIZE};
use crate::types::c_int;

verus! {

/// What an operation hands back to its caller besides success or failure.
#[derive(Debug, PartialEq, Eq)]
pub enum Output {
    /// Nothing.
    Nothing,
    /// The record that was read, byte for byte.
    Record(Vec<u8>),
    /// A timer's value.
    Timer(Itimerval),
    /// The previous action of a signal.
    Action(Sigaction),
    /// The previous signal mask.
    Mask(sigset_t),
}

/// An [`Output`] as a mathematical value.
pub enum OutputView {
    Nothing,
    Record(Seq<u8>),
    Timer(Itimerval),
    Action(Sigaction),
    Mask(sigset_t),
}

impl View for Output {
    type V = OutputView;

    open spec fn view(&self) -> OutputView {
        match *self {
            Output::Nothing => OutputView::Nothing,
            Output::Record(bytes) => OutputView::Record(bytes@),
            Output::Timer(value) => OutputView::Timer(value),
            Output::Action(action) => OutputView::Action(action),
            Output::Mask(set) => OutputView::Mask(set),
        }
    }
}

/// How an operation ended.
#[derive(Debug, PartialEq, Eq)]
pub struct Outcome {
    /// Success, or the code of the failure.
    pub status: Result<(), Errno>,
    /// What the caller gets back.
    pub output: Output,
}

/// An [`Outcome`] as a mathematical value.
pub struct OutcomeView {
    pub status: Result<(), Errno>,
    pub output: OutputView,
}

impl View for Outcome {
    type V = OutcomeView;

    open spec fn view(&self) -> OutcomeView {
        OutcomeView { status: self.status, output: self.output@ }
    }
}

impl OutcomeView {
    /// Success with this output.
    pub open spec fn success(output: OutputView) -> OutcomeView {
        OutcomeView { status: Ok(()), output }
    }

    /// Failure with this code, and nothing handed back.
    pub open spec fn failure(code: c_int) -> OutcomeView {
        OutcomeView { status: Err(Errno { code }), output: OutputView::Nothing }
    }

    /// The end of a call that has no output of its own: succeeded if the
    /// kernel's call did, else failed with the kernel's code.
    pub open spec fn of_status(status: Result<usize, Errno>, output: OutputView) -> OutcomeView {
        match status {
            Ok(_) => OutcomeView { status: Ok(()), output },
            Err(err) => OutcomeView { status: Err(err), output },
        }
    }

    /// The end of a read of a record of `len` bytes. The record arrived if
    /// exactly `len` bytes did; fewer, or more, is an I/O error.
    pub open spec fn received(len: usize, read: Result<Seq<u8>, Errno>) -> OutcomeView {
        match read {
            Ok(bytes) => if bytes.len() == len {
                OutcomeView::success(OutputView::Record(bytes))
            } else {
                OutcomeView::failure(EIO)
            },
            Err(err) => OutcomeView::failure(err.code),
        }
    }

    /// The end of a write of a record of `len` bytes. The record left if the
    /// kernel counted exactly `len` bytes; any other count is an I/O error.
    pub open spec fn sent(len: nat, written: Result<usize, Errno>) -> OutcomeView {
        match written {
            Ok(count) => if count == len {
                OutcomeView::success(OutputView::Nothing)
            } else {
                OutcomeView::failure(EIO)
            },
            Err(err) => OutcomeView::failure(err.code),
        }
    }

    /// Whether a timer's record was transferred whole: it was if the kernel
    /// counted exactly the size of the record. Any other count is an I/O error;
    /// a failure of the kernel is that failure.
    pub open spec fn whole_timer(transfer: Result<usize, Errno>) -> Result<(), Errno> {
        match transfer {
            Ok(count) => if count == ITIMER_SPEC_SIZE {
                Ok(())
            } else {
                Err(Errno { code: EIO })
            },
            Err(err) => Err(err),
        }
    }

    /// The end of a read of a timer: its value in the C-facing form if the
    /// record arrived whole, else the failure.
    pub open spec fn timer_received(transfer: Result<usize, Errno>, value: ITimerSpec)
        -> OutcomeView {
        match OutcomeView::whole_timer(transfer) {
            Ok(_) => OutcomeView::success(OutputView::Timer(value.to_c_spec())),
            Err(err) => OutcomeView::failure(err.code),
        }
    }

    /// The end of a write of a timer: success if the record left whole, else
    /// the failure; either way with the output that the read before it earned.
    pub open spec fn timer_sent(transfer: Result<usize, Errno>, output: OutputView)
        -> OutcomeView {
        OutcomeView { status: OutcomeView::whole_timer(transfer), output }
    }

    /// What the C function returns: 0 on success, -1 on failure.
    pub open spec fn ret(self) -> c_int {
        if self.status is Ok {
            0i32
        } else {
            -1i32
        }
    }

    /// What the error slot holds after the C function has returned, if it held
    /// `before`: on failure the code, on success what it held.
    pub open spec fn errno_after(self, before: c_int) -> c_int {
        match self.status {
            Ok(_) => before,
            Err(err) => err.code,
        }
    }
}

impl Outcome {
    /// Makes the outcome of a failure with this code.
    pub fn failure(code: c_int) -> (outcome: Outcome)
        ensures
            outcome@ == OutcomeView::failure(code),
    {
        Outcome { status: Err(Errno { code }), output: Output::Nothing }
    }

    /// Makes the outcome of a call that succeeded if the kernel's call did.
    pub fn of_status(status: Result<usize, Errno>, output: Output) -> (outcome: Outcome)
        ensures
            outcome@ == OutcomeView::of_status(status, output@),
    {
        match status {
            Ok(_) => Outcome { status: Ok(()), output },
            Err(err) => Outcome { status: Err(err), output },
        }
    }

    /// Tells whether a timer's record was transferred whole.
    pub fn whole_timer(transfer: Result<usize, Errno>) -> (whole: Result<(), Errno>)
        ensures
            whole == OutcomeView::whole_timer(transfer),
    {
        match transfer {
            Ok(count) => if count == ITIMER_SPEC_SIZE {
                Ok(())
            } else {
                Err(Errno { code: EIO })
            },
            Err(err) => Err(err),
        }
    }

    /// Ends the operation in the C convention: returns 0 on success; on failure
    /// returns -1 and stores the code in the error slot.
    pub fn conclude(&self, errno: &mut c_int) -> (ret: c_int)
        ensures
            ret == self@.ret(),
            *final(errno) == self@.errno_after(*old(errno)),
    {
        let bridged: usize = match self.status {
            Ok(_) => e(Ok(0), errno),
            Err(err) => e(Err(err), errno),
        };
        if bridged == usize::MAX {
            -1
        } else {
            0
        }
    }
}

/// How a descriptor is acquired.
#[derive(Clone, Copy, Debug, PartialEq, Eq, Structural)]
pub enum Acquisition {
    /// By duplicating `fd` under the name of a capability.
    Dup { fd: usize, name: Capability },
    /// By opening a timer's path.
    OpenTimer { timer: TimerKind, flags: usize },
}

impl Acquisition {
    /// The request that acquires the descriptor.
    pub open spec fn request(self) -> RequestView {
        match self {
            Acquisition::Dup { fd, name } => RequestView::Dup { fd, name },
            Acquisition::OpenTimer { timer, flags } => RequestView::OpenTimer { timer, flags },
        }
    }
}

/// What is done with a descriptor once it is held.
#[derive(Debug, PartialEq, Eq)]
pub enum Job {
    /// A record of `len` bytes is read.
    Get { len: usize },
    /// This record is written.
    Put { data: Vec<u8> },
    /// The timer's value is read.
    GetTimer,
    /// The timer's value is read, then `new` is written; the value read is
    /// handed back where `want_old` is set.
    SetTimer { new: ITimerSpec, want_old: bool },
}

/// A [`Job`] as a mathematical value.
pub enum JobView {
    Get { len: usize },
    Put { data: Seq<u8> },
    GetTimer,
    SetTimer { new: ITimerSpec, want_old: bool },
}

impl View for Job {
    type V = JobView;

    open spec fn view(&self) -> JobView {
        match *self {
            Job::Get { len } => JobView::Get { len },
            Job::Put { data } => JobView::Put { data: data@ },
            Job::GetTimer => JobView::GetTimer,
            Job::SetTimer { new, want_old } => JobView::SetTimer { new, want_old },
        }
    }
}

impl JobView {
    /// The first transfer on the descriptor `fd`.
    pub open spec fn request(self, fd: usize) -> RequestView {
        match self {
            JobView::Get { len } => RequestView::Read { fd, len },
            JobView::Put { data } => RequestView::Write { fd, data },
            JobView::GetTimer => RequestView::ReadTimer { fd },
            JobView::SetTimer { .. } => RequestView::ReadTimer { fd },
        }
    }
}

/// The timer value to hand back, if one is there.
pub open spec fn timer_output(old: Option<Itimerval>) -> OutputView {
    match old {
        Some(value) => OutputView::Timer(value),
        None => OutputView::Nothing,
    }
}

/// The previous action to hand back: what the kernel left in the storage, in
/// the C-facing form, if the caller asked for it and storage came back.
pub open spec fn action_output(want_old: bool, old: Option<KernelSigAction>) -> OutputView {
    match old {
        Some(action) => if want_old {
            OutputView::Action(action.to_c_spec())
        } else {
            OutputView::Nothing
        },
        None => OutputView::Nothing,
    }
}

/// The previous mask to hand back: what the kernel left in the storage, in the
/// C-facing form, if the caller asked for it and storage came back.
pub open spec fn mask_output(want_old: bool, old: Option<[u64; 2]>) -> OutputView {
    match old {
        Some(set) => if want_old {
            OutputView::Mask(mask_to_c_spec(set))
        } else {
            OutputView::Nothing
        },
        None => OutputView::Nothing,
    }
}

/// A control operation in flight.
#[derive(Debug, PartialEq, Eq)]
pub enum Call {
    /// The descriptor is being acquired.
    Acquiring { by: Acquisition, job: Job },
    /// The descriptor is held and the first transfer is under way.
    Holding { fd: usize, job: Job },
    /// The descriptor is held, the timer's old value is read and the new one is
    /// being written.
    Updating { fd: usize, new: ITimerSpec, old: Option<Itimerval> },
    /// The transfers are over and the descriptor is being closed.
    Releasing { fd: usize, outcome: Outcome },
    /// A signal is being sent.
    Signalling { pid: usize, sig: usize },
    /// A signal's action is being set or asked for.
    Acting { sig: usize, act: Option<KernelSigAction>, want_old: bool },
    /// The signal mask is being changed or asked for.
    Masking { how: usize, set: Option<[u64; 2]>, want_old: bool },
    /// Nothing is left to do.
    Finished { outcome: Outcome },
}

/// A [`Call`] as a mathematical value.
pub enum CallView {
    Acquiring { by: Acquisition, job: JobView },
    Holding { fd: usize, job: JobView },
    Updating { fd: usize, new: ITimerSpec, old: Option<Itimerval> },
    Releasing { fd: usize, outcome: OutcomeView },
    Signalling { pid: usize, sig: usize },
    Acting { sig: usize, act: Option<KernelSigAction>, want_old: bool },
    Masking { how: usize, set: Option<[u64; 2]>, want_old: bool },
    Finished { outcome: OutcomeView },
}

impl View for Call {
    type V = CallView;

    open spec fn view(&self) -> CallView {
        match *self {
            Call::Acquiring { by, job } => CallView::Acquiring { by, job: job@ },
            Call::Holding { fd, job } => CallView::Holding { fd, job: job@ },
            Call::Updating { fd, new, old } => CallView::Updating { fd, new, old },
            Call::Releasing { fd, outcome } => CallView::Releasing { fd, outcome: outcome@ },
            Call::Signalling { pid, sig } => CallView::Signalling { pid, sig },
            Call::Acting { sig, act, want_old } => CallView::Acting { sig, act, want_old },
            Call::Masking { how, set, want_old } => CallView::Masking { how, set, want_old },
            Call::Finished { outcome } => CallView::Finished { outcome: outcome@ },
        }
    }
}

impl CallView {
    /// A call that failed before anything was asked of the kernel.
    pub open spec fn refused(code: c_int) -> CallView {
        CallView::Finished { outcome: OutcomeView::failure(code) }
    }

    /// The request to put to the kernel next; none when the call is finished.
    pub open spec fn pending(self) -> Option<RequestView> {
        match self {
            CallView::Acquiring { by, .. } => Some(by.request()),
            CallView::Holding { fd, job } => Some(job.request(fd)),
            CallView::Updating { fd, new, .. } => Some(RequestView::WriteTimer { fd, spec: new }),
            CallView::Releasing { fd, .. } => Some(RequestView::Close { fd }),
            CallView::Signalling { pid, sig } => Some(RequestView::Kill { pid, sig }),
            CallView::Acting { sig, act, want_old } => Some(
                RequestView::Sigaction { sig, act, want_old },
            ),
            CallView::Masking { how, set, want_old } => Some(
                RequestView::Sigprocmask { how, set, want_old },
            ),
            CallView::Finished { .. } => None,
        }
    }

    /// How the call ended; none while a request is pending.
    pub open spec fn outcome(self) -> Option<OutcomeView> {
        match self {
            CallView::Finished { outcome } => Some(outcome),
            _ => None,
        }
    }

    /// The descriptor that the call has acquired and not yet released.
    pub open spec fn held(self) -> Option<usize> {
        match self {
            CallView::Holding { fd, .. } => Some(fd),
            CallView::Updating { fd, .. } => Some(fd),
            CallView::Releasing { fd, .. } => Some(fd),
            _ => None,
        }
    }

    /// The call after the first transfer on the held descriptor was answered.
    pub open spec fn after_transfer(fd: usize, job: JobView, reply: ReplyView) -> CallView {
        match job {
            JobView::Get { len } => match reply {
                ReplyView::Bytes(read) => CallView::Releasing {
                    fd,
                    outcome: OutcomeView::received(len, read),
                },
                _ => CallView::Holding { fd, job },
            },
            JobView::Put { data } => match reply {
                ReplyView::Status(written) => CallView::Releasing {
                    fd,
                    outcome: OutcomeView::sent(data.len(), written),
                },
                _ => CallView::Holding { fd, job },
            },
            JobView::GetTimer => match reply {
                ReplyView::Timer { status, value } => CallView::Releasing {
                    fd,
                    outcome: OutcomeView::timer_received(status, value),
                },
                _ => CallView::Holding { fd, job },
            },
            JobView::SetTimer { new, want_old } => match reply {
                ReplyView::Timer { status, value } => match OutcomeView::whole_timer(status) {
                    Ok(_) => CallView::Updating {
                        fd,
                        new,
                        old: if want_old {
                            Some(value.to_c_spec())
                        } else {
                            None
                        },
                    },
                    Err(err) => CallView::Releasing { fd, outcome: OutcomeView::failure(err.code) },
                },
                _ => CallView::Holding { fd, job },
            },
        }
    }

    /// The call after the kernel's reply to the pending request.
    ///
    /// A reply of a kind that does not answer the pending request, and any
    /// reply to a finished call, leaves the call as it is.
    pub open spec fn next(self, reply: ReplyView) -> CallView {
        match self {
            CallView::Acquiring { by, job } => match reply {
                ReplyView::Status(Ok(fd)) => CallView::Holding { fd, job },
                ReplyView::Status(Err(err)) => CallView::refused(err.code),
                _ => self,
            },
            CallView::Holding { fd, job } => CallView::after_transfer(fd, job, reply),
            CallView::Updating { fd, new, old } => match reply {
                ReplyView::Status(written) => CallView::Releasing {
                    fd,
                    outcome: OutcomeView::timer_sent(written, timer_output(old)),
                },
                _ => self,
            },
            CallView::Releasing { fd, outcome } => match reply {
                ReplyView::Status(_) => CallView::Finished { outcome },
                _ => self,
            },
            CallView::Signalling { .. } => match reply {
                ReplyView::Status(status) => CallView::Finished {
                    outcome: OutcomeView::of_status(status, OutputView::Nothing),
                },
                _ => self,
            },
            CallView::Acting { want_old, .. } => match reply {
                ReplyView::Action { status, old_action } => CallView::Finished {
                    outcome: OutcomeView::of_status(status, action_output(want_old, old_action)),
                },
                _ => self,
            },
            CallView::Masking { want_old, .. } => match reply {
                ReplyView::Mask { status, old_mask } => CallView::Finished {
                    outcome: OutcomeView::of_status(status, mask_output(want_old, old_mask)),
                },
                _ => self,
            },
            CallView::Finished { .. } => self,
        }
    }
}

impl Job {
    /// Gives the first transfer on the descriptor `fd`.
    fn request(&self, fd: usize) -> (request: Request)
        ensures
            request@ == self@.request(fd),
    {
        match self {
            Job::Get { len } => Request::Read { fd, len: *len },
            Job::Put { data } => Request::Write { fd, data: data.clone() },
            Job::GetTimer => Request::ReadTimer { fd },
            Job::SetTimer { .. } => Request::ReadTimer { fd },
        }
    }

    /// Takes the reply to the first transfer on the descriptor `fd`.
    fn transferred(self, fd: usize, reply: Reply) -> (next: Call)
        ensures
            next@ == CallView::after_transfer(fd, self@, reply@),
    {
        match self {
            Job::Get { len } => match reply {
                Reply::Bytes(Ok(bytes)) => {
                    let outcome = if bytes.len() == len {
                        Outcome { status: Ok(()), output: Output::Record(bytes) }
                    } else {
                        Outcome::failure(EIO)
                    };
                    Call::Releasing { fd, outcome }
                },
                Reply::Bytes(Err(err)) => Call::Releasing { fd, outcome: Outcome::failure(err.code) },
                _ => Call::Holding { fd, job: Job::Get { len } },
            },
            Job::Put { data } => match reply {
                Reply::Status(Ok(count)) => {
                    let outcome = if count == data.len() {
                        Outcome { status: Ok(()), output: Output::Nothing }
                    } else {
                        Outcome::failure(EIO)
                    };
                    Call::Releasing { fd, outcome }
                },
                Reply::Status(Err(err)) => Call::Releasing {
                    fd,
                    outcome: Outcome::failure(err.code),
                },
                _ => Call::Holding { fd, job: Job::Put { data } },
            },
            Job::GetTimer => match reply {
                Reply::Timer { status, value } => {
                    let outcome = match Outcome::whole_timer(status) {
                        Ok(_) => Outcome { status: Ok(()), output: Output::Timer(value.to_c()) },
                        Err(err) => Outcome::failure(err.code),
                    };
                    Call::Releasing { fd, outcome }
                },
                _ => Call::Holding { fd, job: Job::GetTimer },
            },
            Job::SetTimer { new, want_old } => match reply {
                Reply::Timer { status, value } => match Outcome::whole_timer(status) {
                    Ok(_) => Call::Updating {
                        fd,
                        new,
                        old: if want_old {
                            Some(value.to_c())
                        } else {
                            None
                        },
                    },
                    Err(err) => Call::Releasing { fd, outcome: Outcome::failure(err.code) },
                },
                _ => Call::Holding { fd, job: Job::SetTimer { new, want_old } },
            },
        }
    }
}

impl Call {
    /// Makes a call that failed before anything was asked of the kernel.
    pub fn refused(code: c_int) -> (call: Call)
        ensures
            call@ == CallView::refused(code),
    {
        Call::Finished { outcome: Outcome::failure(code) }
    }

    /// Gives the request to put to the kernel next, or nothing when the call is
    /// finished.
    pub fn request(&self) -> (request: Option<Request>)
        ensures
            request matches Some(asked) ==> self@.pending() == Some(asked@),
            request is None ==> self@.pending() is None,
    {
        match self {
            Call::Acquiring { by, .. } => Some(
                match by {
                    Acquisition::Dup { fd, name } => Request::Dup { fd: *fd, name: *name },
                    Acquisition::OpenTimer { timer, flags } => Request::OpenTimer {
                        timer: *timer,
                        flags: *flags,
                    },
                },
            ),
            Call::Holding { fd, job } => Some(job.request(*fd)),
            Call::Updating { fd, new, .. } => Some(Request::WriteTimer { fd: *fd, spec: *new }),
            Call::Releasing { fd, .. } => Some(Request::Close { fd: *fd }),
            Call::Signalling { pid, sig } => Some(Request::Kill { pid: *pid, sig: *sig }),
            Call::Acting { sig, act, want_old } => Some(
                Request::Sigaction { sig: *sig, act: *act, want_old: *want_old },
            ),
            Call::Masking { how, set, want_old } => Some(
                Request::Sigprocmask { how: *how, set: *set, want_old: *want_old },
            ),
            Call::Finished { .. } => None,
        }
    }

    /// Takes the kernel's reply to the pending request and moves on.
    pub fn step(self, reply: Reply) -> (next: Call)
        ensures
            next@ == self@.next(reply@),
    {
        match self {
            Call::Acquiring { by, job } => match reply {
                Reply::Status(Ok(fd)) => Call::Holding { fd, job },
                Reply::Status(Err(err)) => Call::refused(err.code),
                _ => Call::Acquiring { by, job },
            },
            Call::Holding { fd, job } => job.transferred(fd, reply),
            Call::Updating { fd, new, old } => match reply {
                Reply::Status(written) => {
                    let output = match old {
                        Some(value) => Output::Timer(value),
                        None => Output::Nothing,
                    };
                    let outcome = Outcome { status: Outcome::whole_timer(written), output };
                    Call::Releasing { fd, outcome }
                },
                _ => Call::Updating { fd, new, old },
            },
            Call::Releasing { fd, outcome } => match reply {
                Reply::Status(_) => Call::Finished { outcome },
                _ => Call::Releasing { fd, outcome },
            },
            Call::Signalling { pid, sig } => match reply {
                Reply::Status(status) => Call::Finished {
                    outcome: Outcome::of_status(status, Output::Nothing),
                },
                _ => Call::Signalling { pid, sig },
            },
            Call::Acting { sig, act, want_old } => match reply {
                Reply::Action { status, old_action } => {
                    let output = match old_action {
                        Some(action) => if want_old {
                            Output::Action(action.to_c())
                        } else {
                            Output::Nothing
                        },
                        None => Output::Nothing,
                    };
                    Call::Finished { outcome: Outcome::of_status(status, output) }
                },
                _ => Call::Acting { sig, act, want_old },
            },
            Call::Masking { how, set, want_old } => match reply {
                Reply::Mask { status, old_mask } => {
                    let output = match old_mask {
                        Some(kernel_set) => if want_old {
                            Output::Mask(mask_to_c(&kernel_set))
                        } else {
                            Output::Nothing
                        },
                        None => Output::Nothing,
                    };
                    Call::Finished { outcome: Outcome::of_status(status, output) }
                },
                _ => Call::Masking { how, set, want_old },
            },
            Call::Finished { outcome } => Call::Finished { outcome },
        }
    }

    /// Tells whether nothing is left to ask of the kernel.
    pub fn is_finished(&self) -> (finished: bool)
        ensures
            finished == self@.outcome().is_some(),
            finished == self@.pending().is_none(),
    {
        match self {
            Call::Finished { .. } => true,
            _ => false,
        }
    }

    /// Gives the outcome of a finished call, and nothing while a request is
    /// pending.
    pub fn outcome(&self) -> (outcome: Option<&Outcome>)
        ensures
            outcome matches Some(end) ==> self@.outcome() == Some(end@),
            outcome is None ==> self@.outcome() is None,
    {
        match self {
            Call::Finished { outcome } => Some(outcome),
            _ => None,
        }
    }

    /// Turns a finished call into its outcome; a call with a request pending
    /// comes back as it is.
    pub fn finish(self) -> (end: Result<Outcome, Call>)
        ensures
            end matches Ok(outcome) ==> self@.outcome() == Some(outcome@),
            end matches Err(call) ==> self@.outcome() is None && call@ == self@,
    {
        match self {
            Call::Finished { outcome } => Ok(outcome),
            other => Err(other),
        }
    }
}

} // verus!
