//! The platform abstraction layer of a C library for a microkernel whose
//! primitive is descriptor I/O on named sub-resources.
//!
//! Control operations that a monolithic kernel offers as system calls of their
//! own (terminal control, interval timers) are carried out here as a short
//! exchange on a descriptor: acquire it under a name, transfer one fixed-size
//! record, release it. Signal operations go to a dedicated system call after
//! their structures have been converted to the kernel's layout.
//!
//! The layer itself performs no system call. Each operation is a [`call::Call`]:
//! a value that names the next request to put to the kernel, takes the
//! kernel's reply, and ends in an [`call::Outcome`]. Whoever drives the call
//! owns the system calls and the process-wide error slot; what is asked, in
//! which order, and what the caller is told is decided, and proved, here.
#![allow(non_camel_case_types)]

pub mod call;
pub mod errno;
pub mod kernel;
pub mod netdb;
pub mod pal;
pub mod redox;
pub mod signal;
pub mod sys_ioctl;
pub mod sys_time;
pub mod trace;
pub mod types;
pub mod wchar;
