//! What this layer asks of the kernel, and what the kernel answers.
//!
//! A [`Request`] is one system call with its arguments as plain values; a
//! [`Reply`] is what came back. Nothing here performs a call.
use vstd::prelude::*;
use crate::errno::Errno;
use crate::signal::KernelSigAction;
use crate::sys_time::ITimerSpec;

verus! {

/// The flag `syscall::O_RDONLY`: open for reading.
#[verifier::external_body]
fn o_rdonly() -> (flag: usize)
    ensures
        flag == 0x0001_0000,
{
    syscall::O_RDONLY
}

/// The flag `syscall::O_RDWR`: open for reading and writing.
#[verifier::external_body]
fn o_rdwr() -> (flag: usize)
    ensures
        flag == 0x0003_0000,
{
    syscall::O_RDWR
}

/// The flag `syscall::O_CLOEXEC`: the descriptor does not outlive an exec.
#[verifier::external_body]
fn o_cloexec() -> (flag: usize)
    ensures
        flag == 0x0100_0000,
{
    syscall::O_CLOEXEC
}

/// The flags a timer is opened with to be read: read-only, closed on exec.
pub open spec fn read_flags_spec() -> usize {
    0x0101_0000
}

/// The flags a timer is opened with to be changed: read and write, closed on exec.
pub open spec fn update_flags_spec() -> usize {
    0x0103_0000
}

/// Gives the flags a timer is opened with to be read.
pub fn read_flags() -> (flags: usize)
    ensures
        flags == read_flags_spec(),
{
    let access: usize = o_rdonly();
    let cloexec: usize = o_cloexec();
    assert(0x0001_0000usize | 0x0100_0000usize == 0x0101_0000usize) by (bit_vector);
    access | cloexec
}

/// Gives the flags a timer is opened with to be changed.
pub fn update_flags() -> (flags: usize)
    ensures
        flags == update_flags_spec(),
{
    let access: usize = o_rdwr();
    let cloexec: usize = o_cloexec();
    assert(0x0003_0000usize | 0x0100_0000usize == 0x0103_0000usize) by (bit_vector);
    access | cloexec
}

/// A control surface of a descriptor: the name under which the descriptor is
/// duplicated to reach it, and with it the record that is exchanged there.
#[derive(Clone, Copy, Debug, PartialEq, Eq, Structural)]
pub enum Capability {
    /// The terminal settings.
    Termios,
    /// The terminal's queues; the record written is the selector of the queue
    /// to discard, a C `int`.
    Flush,
    /// The foreground process group, a process-group id.
    Pgrp,
    /// The window size.
    Winsize,
}

impl Capability {
    /// The name as the kernel reads it.
    pub open spec fn name_spec(self) -> Seq<char> {
        match self {
            Capability::Termios => "termios"@,
            Capability::Flush => "flush"@,
            Capability::Pgrp => "pgrp"@,
            Capability::Winsize => "winsize"@,
        }
    }

    /// The size in bytes of the record that is exchanged there, in the layout
    /// of C: the terminal settings are four flag words, the line discipline,
    /// thirty-two control characters and two speeds; the queue selector is an
    /// `int`; the process group is a process id; the window size is four short
    /// words.
    pub open spec fn record_len_spec(self) -> usize {
        match self {
            Capability::Termios => 60,
            Capability::Flush => 4,
            Capability::Pgrp => 4,
            Capability::Winsize => 8,
        }
    }

    /// Gives the size in bytes of the record that is exchanged there.
    pub fn record_len(&self) -> (len: usize)
        ensures
            len == self.record_len_spec(),
    {
        match self {
            Capability::Termios => 60,
            Capability::Flush => 4,
            Capability::Pgrp => 4,
            Capability::Winsize => 8,
        }
    }

    /// Gives the name to present when the descriptor is duplicated.
    pub fn name(&self) -> (name: &'static str)
        ensures
            name@ == self.name_spec(),
    {
        match self {
            Capability::Termios => "termios",
            Capability::Flush => "flush",
            Capability::Pgrp => "pgrp",
            Capability::Winsize => "winsize",
        }
    }
}

/// A timer the kernel offers as a resource of its own.
#[derive(Clone, Copy, Debug, PartialEq, Eq, Structural)]
pub enum TimerKind {
    /// The timer that counts real elapsed time.
    Real,
}

impl TimerKind {
    /// The path of the timer.
    pub open spec fn path_spec(self) -> Seq<char> {
        "itimer:1"@
    }

    /// Gives the path to open.
    pub fn path(&self) -> (path: &'static str)
        ensures
            path@ == self.path_spec(),
    {
        "itimer:1"
    }
}

/// One call to the kernel.
#[derive(Debug, PartialEq, Eq)]
pub enum Request {
    /// Open the timer's path with these flags.
    OpenTimer { timer: TimerKind, flags: usize },
    /// Duplicate `fd`, presenting the name of the capability.
    Dup { fd: usize, name: Capability },
    /// Read once, at most `len` bytes.
    Read { fd: usize, len: usize },
    /// Write these bytes once.
    Write { fd: usize, data: Vec<u8> },
    /// Read the timer's record once, into storage of the record's size.
    ReadTimer { fd: usize },
    /// Write the timer's record once.
    WriteTimer { fd: usize, spec: ITimerSpec },
    /// Close the descriptor. What the kernel answers does not matter.
    Close { fd: usize },
    /// Send `sig` to `pid`.
    Kill { pid: usize, sig: usize },
    /// Set the action for `sig` where `act` is given; hand storage for the
    /// previous action to the kernel only where `want_old` is set.
    Sigaction { sig: usize, act: Option<KernelSigAction>, want_old: bool },
    /// Change the signal mask where `set` is given; hand storage for the
    /// previous mask to the kernel only where `want_old` is set.
    Sigprocmask { how: usize, set: Option<[u64; 2]>, want_old: bool },
}

/// A [`Request`] as a mathematical value.
pub enum RequestView {
    OpenTimer { timer: TimerKind, flags: usize },
    Dup { fd: usize, name: Capability },
    Read { fd: usize, len: usize },
    Write { fd: usize, data: Seq<u8> },
    ReadTimer { fd: usize },
    WriteTimer { fd: usize, spec: ITimerSpec },
    Close { fd: usize },
    Kill { pid: usize, sig: usize },
    Sigaction { sig: usize, act: Option<KernelSigAction>, want_old: bool },
    Sigprocmask { how: usize, set: Option<[u64; 2]>, want_old: bool },
}

impl View for Request {
    type V = RequestView;

    open spec fn view(&self) -> RequestView {
        match *self {
            Request::OpenTimer { timer, flags } => RequestView::OpenTimer { timer, flags },
            Request::Dup { fd, name } => RequestView::Dup { fd, name },
            Request::Read { fd, len } => RequestView::Read { fd, len },
            Request::Write { fd, data } => RequestView::Write { fd, data: data@ },
            Request::ReadTimer { fd } => RequestView::ReadTimer { fd },
            Request::WriteTimer { fd, spec } => RequestView::WriteTimer { fd, spec },
            Request::Close { fd } => RequestView::Close { fd },
            Request::Kill { pid, sig } => RequestView::Kill { pid, sig },
            Request::Sigaction { sig, act, want_old } => RequestView::Sigaction {
                sig,
                act,
                want_old,
            },
            Request::Sigprocmask { how, set, want_old } => RequestView::Sigprocmask {
                how,
                set,
                want_old,
            },
        }
    }
}

/// What the kernel answered.
#[derive(Debug, PartialEq, Eq)]
pub enum Reply {
    /// The result of a call that returns a word: a descriptor, a count, zero.
    Status(Result<usize, Errno>),
    /// The result of a read: the bytes that arrived, as many as the kernel
    /// counted.
    Bytes(Result<Vec<u8>, Errno>),
    /// The result of reading a timer: the number of bytes that arrived, and
    /// what the storage for the timer's record holds after the read.
    Timer { status: Result<usize, Errno>, value: ITimerSpec },
    /// The result of a signal-action call, and what the storage for the
    /// previous action holds after it, where storage was handed over.
    Action { status: Result<usize, Errno>, old_action: Option<KernelSigAction> },
    /// The result of a signal-mask call, and what the storage for the previous
    /// mask holds after it, where storage was handed over.
    Mask { status: Result<usize, Errno>, old_mask: Option<[u64; 2]> },
}

/// A [`Reply`] as a mathematical value.
pub enum ReplyView {
    Status(Result<usize, Errno>),
    Bytes(Result<Seq<u8>, Errno>),
    Timer { status: Result<usize, Errno>, value: ITimerSpec },
    Action { status: Result<usize, Errno>, old_action: Option<KernelSigAction> },
    Mask { status: Result<usize, Errno>, old_mask: Option<[u64; 2]> },
}

impl View for Reply {
    type V = ReplyView;

    open spec fn view(&self) -> ReplyView {
        match *self {
            Reply::Status(status) => ReplyView::Status(status),
            Reply::Bytes(Ok(bytes)) => ReplyView::Bytes(Ok(bytes@)),
            Reply::Bytes(Err(err)) => ReplyView::Bytes(Err(err)),
            Reply::Timer { status, value } => ReplyView::Timer { status, value },
            Reply::Action { status, old_action } => ReplyView::Action { status, old_action },
            Reply::Mask { status, old_mask } => ReplyView::Mask { status, old_mask },
        }
    }
}

impl RequestView {
    /// The reply is of the kind that this request is answered with.
    pub open spec fn answered_by(self, reply: ReplyView) -> bool {
        match self {
            RequestView::Read { .. } => reply is Bytes,
            RequestView::ReadTimer { .. } => reply is Timer,
            RequestView::Sigaction { .. } => reply is Action,
            RequestView::Sigprocmask { .. } => reply is Mask,
            _ => reply is Status,
        }
    }

    /// The request asks for a descriptor.
    pub open spec fn acquires(self) -> bool {
        self is OpenTimer || self is Dup
    }
}

} // verus!
