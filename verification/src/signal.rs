//! Signal masks and signal actions: the C-facing forms, the kernel's forms, and
//! the conversion between them.
use vstd::prelude::*;
use crate::types::{c_int, c_ulong};

verus! {

/// A set of signals as C programs give it: one machine word, one bit per signal.
pub type sigset_t = c_ulong;

/// `how` of a mask change: add the given signals to the blocked ones.
pub const SIG_BLOCK: c_int = 0;

/// `how` of a mask change: take the given signals from the blocked ones.
pub const SIG_UNBLOCK: c_int = 1;

/// `how` of a mask change: block exactly the given signals.
pub const SIG_SETMASK: c_int = 2;

/// The handler word `syscall::SIG_DFL`, which asks for the default action.
#[verifier::external_body]
fn sig_dfl() -> (bits: usize)
    ensures
        bits == 0,
{
    syscall::SIG_DFL
}

/// The handler word `syscall::SIG_IGN`, which asks that the signal be ignored.
#[verifier::external_body]
fn sig_ign() -> (bits: usize)
    ensures
        bits == 1,
{
    syscall::SIG_IGN
}

/// What is done when a signal arrives.
///
/// Across the C boundary and to the kernel this is one word: one of two
/// reserved values, or the address of the handling function. Only
/// [`SigHandler::to_bits`] and [`SigHandler::from_bits`] know the reserved
/// values.
#[derive(Clone, Copy, Debug, PartialEq, Eq, Structural)]
pub enum SigHandler {
    /// The default action of the signal.
    Default,
    /// The signal is ignored.
    Ignore,
    /// The function at this address is called. The address is none of the
    /// reserved values.
    Handler(usize),
}

impl SigHandler {
    /// A handler's address is not a reserved word.
    pub open spec fn wf(self) -> bool {
        self matches SigHandler::Handler(address) ==> address > 1
    }

    /// The word that stands for this handler.
    pub open spec fn bits(self) -> usize {
        match self {
            SigHandler::Default => 0,
            SigHandler::Ignore => 1,
            SigHandler::Handler(address) => address,
        }
    }

    /// The handler that a word stands for.
    pub open spec fn of_bits(bits: usize) -> SigHandler {
        if bits == 0 {
            SigHandler::Default
        } else if bits == 1 {
            SigHandler::Ignore
        } else {
            SigHandler::Handler(bits)
        }
    }

    /// Tells whether this value is well formed.
    pub fn is_wf(&self) -> (b: bool)
        ensures
            b == self.wf(),
    {
        match self {
            SigHandler::Handler(address) => *address > 1,
            _ => true,
        }
    }

    /// Gives the word that stands for this handler.
    pub fn to_bits(&self) -> (bits: usize)
        ensures
            bits == self.bits(),
    {
        match self {
            SigHandler::Default => sig_dfl(),
            SigHandler::Ignore => sig_ign(),
            SigHandler::Handler(address) => *address,
        }
    }

    /// Reads a handler from the word that stands for it.
    pub fn from_bits(bits: usize) -> (handler: SigHandler)
        ensures
            handler == SigHandler::of_bits(bits),
            handler.wf(),
    {
        if bits == sig_dfl() {
            SigHandler::Default
        } else if bits == sig_ign() {
            SigHandler::Ignore
        } else {
            SigHandler::Handler(bits)
        }
    }
}

/// The action for a signal as C programs give it.
#[derive(Clone, Copy, Debug, PartialEq, Eq, Structural)]
pub struct Sigaction {
    pub sa_handler: SigHandler,
    pub sa_flags: c_ulong,
    pub sa_mask: sigset_t,
}

/// The action for a signal as the kernel keeps it. The mask has room for two
/// words; this layer uses the first.
#[derive(Clone, Copy, Debug, PartialEq, Eq)]
pub struct KernelSigAction {
    pub sa_handler: usize,
    pub sa_mask: [u64; 2],
    pub sa_flags: usize,
}

/// The kernel's form of a mask: the word in the first place, zero in the second.
pub open spec fn mask_to_kernel_spec(set: sigset_t) -> [u64; 2] {
    [set as u64, 0]
}

/// The C-facing form of a kernel mask: its first word, as far as a machine
/// word holds it. The second is not read.
pub open spec fn mask_to_c_spec(set: [u64; 2]) -> sigset_t {
    set[0] as sigset_t
}

/// Converts a mask to the kernel's form.
pub fn mask_to_kernel(set: sigset_t) -> (k: [u64; 2])
    ensures
        k == mask_to_kernel_spec(set),
        k[0] == set,
        k[1] == 0,
{
    [set as u64, 0]
}

/// Converts a kernel mask to the C-facing form.
pub fn mask_to_c(set: &[u64; 2]) -> (m: sigset_t)
    ensures
        m == mask_to_c_spec(*set),
        set[0] <= usize::MAX ==> m == set[0],
{
    set[0] as sigset_t
}

impl Sigaction {
    /// The handler is well formed.
    pub open spec fn wf(self) -> bool {
        self.sa_handler.wf()
    }

    /// The kernel's form of this action: the handler's word, the mask in the
    /// first of two words, the flags as they are.
    pub open spec fn to_kernel_spec(self) -> KernelSigAction {
        KernelSigAction {
            sa_handler: self.sa_handler.bits(),
            sa_mask: mask_to_kernel_spec(self.sa_mask),
            sa_flags: self.sa_flags,
        }
    }

    /// Converts to the kernel's form.
    pub fn to_kernel(&self) -> (k: KernelSigAction)
        ensures
            k == self.to_kernel_spec(),
    {
        KernelSigAction {
            sa_handler: self.sa_handler.to_bits(),
            sa_mask: mask_to_kernel(self.sa_mask),
            sa_flags: self.sa_flags,
        }
    }
}

impl KernelSigAction {
    /// The C-facing form of this action.
    pub open spec fn to_c_spec(self) -> Sigaction {
        Sigaction {
            sa_handler: SigHandler::of_bits(self.sa_handler),
            sa_flags: self.sa_flags,
            sa_mask: mask_to_c_spec(self.sa_mask),
        }
    }

    /// Converts to the C-facing form.
    pub fn to_c(&self) -> (a: Sigaction)
        ensures
            a == self.to_c_spec(),
            a.wf(),
    {
        Sigaction {
            sa_handler: SigHandler::from_bits(self.sa_handler),
            sa_flags: self.sa_flags,
            sa_mask: mask_to_c(&self.sa_mask),
        }
    }
}

/// Every word stands for one handler, and that handler for the same word.
pub proof fn lemma_handler_bits_round_trip(bits: usize)
    ensures
        SigHandler::of_bits(bits).wf(),
        SigHandler::of_bits(bits).bits() == bits,
{
}

/// A well-formed handler is read back from its word unchanged.
pub proof fn lemma_handler_round_trip(handler: SigHandler)
    requires
        handler.wf(),
    ensures
        SigHandler::of_bits(handler.bits()) == handler,
{
}

/// A mask that went to the kernel's form and back is the mask it was, bit for
/// bit, and the second word of the kernel's form is zero.
pub proof fn lemma_mask_round_trip(set: sigset_t)
    ensures
        mask_to_c_spec(mask_to_kernel_spec(set)) == set,
        mask_to_kernel_spec(set)[0] == set,
        mask_to_kernel_spec(set)[1] == 0,
{
}

/// An action that went to the kernel's form and back has the handler word,
/// the mask and the flags it had, bit for bit, and the second word of the
/// kernel's mask is zero. Where its handler is well formed it is the action it
/// was.
pub proof fn lemma_action_round_trip(action: Sigaction)
    ensures
        action.to_kernel_spec().to_c_spec().sa_handler.bits() == action.sa_handler.bits(),
        action.to_kernel_spec().to_c_spec().sa_mask == action.sa_mask,
        action.to_kernel_spec().to_c_spec().sa_flags == action.sa_flags,
        action.to_kernel_spec().sa_mask[0] == action.sa_mask,
        action.to_kernel_spec().sa_mask[1] == 0,
        action.wf() ==> action.to_kernel_spec().to_c_spec() == action,
{
}

} // verus!
