//! Terminal control requests, carried out as exchanges on a descriptor.
//!
//! Each request that is known stands for one capability of the descriptor and
//! one direction. The descriptor is duplicated under the capability's name, the
//! record is read or written there once, in its full size, and the duplicate
//! is closed. A request that is not known, and a record to be written that is
//! not of its capability's size, fails at once as an invalid argument, and the
//! descriptor is not touched.
use vstd::prelude::*;
use crate::call::{Call, CallView, Acquisition, Job, JobView, OutcomeView, OutputView};
use crate::errno::{Errno, EINVAL};
use crate::kernel::{Capability, ReplyView, RequestView};
use crate::trace::lemma_finished_is_final;
use crate::types::{c_int, c_ulong, to_word, word_of};

verus! {

/// Get the terminal settings.
pub const TCGETS: c_ulong = 0x5401;

/// Set the terminal settings.
pub const TCSETS: c_ulong = 0x5402;

/// Discard what is queued; the record is the selector of the queue.
pub const TCFLSH: c_ulong = 0x540B;

/// Get the foreground process group.
pub const TIOCGPGRP: c_ulong = 0x540F;

/// Set the foreground process group.
pub const TIOCSPGRP: c_ulong = 0x5410;

/// Get the window size.
pub const TIOCGWINSZ: c_ulong = 0x5413;

/// Set the window size.
pub const TIOCSWINSZ: c_ulong = 0x5414;

/// Which way the record goes.
#[derive(Clone, Copy, Debug, PartialEq, Eq, Structural)]
pub enum Direction {
    /// The record is read from the control surface.
    Get,
    /// The record is written to the control surface.
    Put,
}

/// What a request stands for: a capability and a direction.
#[derive(Clone, Copy, Debug, PartialEq, Eq, Structural)]
pub struct Route {
    pub name: Capability,
    pub direction: Direction,
}

/// The table of the known requests. A request matches exactly or not at all.
pub open spec fn route_spec(request: c_ulong) -> Option<Route> {
    if request == TCGETS {
        Some(Route { name: Capability::Termios, direction: Direction::Get })
    } else if request == TCSETS {
        Some(Route { name: Capability::Termios, direction: Direction::Put })
    } else if request == TCFLSH {
        Some(Route { name: Capability::Flush, direction: Direction::Put })
    } else if request == TIOCGPGRP {
        Some(Route { name: Capability::Pgrp, direction: Direction::Get })
    } else if request == TIOCSPGRP {
        Some(Route { name: Capability::Pgrp, direction: Direction::Put })
    } else if request == TIOCGWINSZ {
        Some(Route { name: Capability::Winsize, direction: Direction::Get })
    } else if request == TIOCSWINSZ {
        Some(Route { name: Capability::Winsize, direction: Direction::Put })
    } else {
        None
    }
}

/// Looks a request up in the table.
pub fn route(request: c_ulong) -> (found: Option<Route>)
    ensures
        found == route_spec(request),
{
    if request == TCGETS {
        Some(Route { name: Capability::Termios, direction: Direction::Get })
    } else if request == TCSETS {
        Some(Route { name: Capability::Termios, direction: Direction::Put })
    } else if request == TCFLSH {
        Some(Route { name: Capability::Flush, direction: Direction::Put })
    } else if request == TIOCGPGRP {
        Some(Route { name: Capability::Pgrp, direction: Direction::Get })
    } else if request == TIOCSPGRP {
        Some(Route { name: Capability::Pgrp, direction: Direction::Put })
    } else if request == TIOCGWINSZ {
        Some(Route { name: Capability::Winsize, direction: Direction::Get })
    } else if request == TIOCSWINSZ {
        Some(Route { name: Capability::Winsize, direction: Direction::Put })
    } else {
        None
    }
}

/// The call that reads a record of `len` bytes from a capability of `fd`.
pub open spec fn dup_read_spec(fd: c_int, name: Capability, len: usize) -> CallView {
    CallView::Acquiring {
        by: Acquisition::Dup { fd: word_of(fd as int), name },
        job: JobView::Get { len },
    }
}

/// The call that writes a record to a capability of `fd`.
pub open spec fn dup_write_spec(fd: c_int, name: Capability, data: Seq<u8>) -> CallView {
    CallView::Acquiring {
        by: Acquisition::Dup { fd: word_of(fd as int), name },
        job: JobView::Put { data },
    }
}

/// The call for a control request on `fd`. A request that gets reads the record
/// of its capability in its full length; a request that puts writes `arg`,
/// which is to be a record of its capability.
pub open spec fn ioctl_spec(fd: c_int, request: c_ulong, arg: Seq<u8>) -> CallView {
    match route_spec(request) {
        Some(route) => match route.direction {
            Direction::Get => dup_read_spec(fd, route.name, route.name.record_len_spec()),
            Direction::Put => if arg.len() == route.name.record_len_spec() {
                dup_write_spec(fd, route.name, arg)
            } else {
                CallView::refused(EINVAL)
            },
        },
        None => CallView::refused(EINVAL),
    }
}

/// Starts reading a record of `len` bytes from a capability of `fd`: the
/// descriptor is duplicated under the capability's name, read once, and the
/// duplicate closed. The call succeeds if exactly `len` bytes arrive, and then
/// hands them back.
pub fn dup_read(fd: c_int, name: Capability, len: usize) -> (call: Call)
    ensures
        call@ == dup_read_spec(fd, name, len),
{
    Call::Acquiring { by: Acquisition::Dup { fd: to_word(fd), name }, job: Job::Get { len } }
}

/// Starts writing a record to a capability of `fd`: the descriptor is
/// duplicated under the capability's name, written once, and the duplicate
/// closed. The call succeeds if the kernel takes every byte.
pub fn dup_write(fd: c_int, name: Capability, data: Vec<u8>) -> (call: Call)
    ensures
        call@ == dup_write_spec(fd, name, data@),
{
    Call::Acquiring { by: Acquisition::Dup { fd: to_word(fd), name }, job: Job::Put { data } }
}

/// Starts a control request on `fd`.
///
/// For a request that gets, the record of its capability is read, as many bytes
/// as that record holds, and the call hands back the record that arrived;
/// `arg` is not looked at. For a request that puts, `arg` is the caller's
/// record as it lies in memory, and its bytes are written. A request that is
/// not in the table, and a put of anything but a whole record of the
/// capability, is refused as an invalid argument: the call is finished from
/// the start and asks nothing of the kernel.
pub fn ioctl(fd: c_int, request: c_ulong, arg: Vec<u8>) -> (call: Call)
    ensures
        call@ == ioctl_spec(fd, request, arg@),
{
    match route(request) {
        Some(found) => match found.direction {
            Direction::Get => dup_read(fd, found.name, found.name.record_len()),
            Direction::Put => if arg.len() == found.name.record_len() {
                dup_write(fd, found.name, arg)
            } else {
                Call::refused(EINVAL)
            },
        },
        None => Call::refused(EINVAL),
    }
}

/// The table holds seven requests and no other.
pub proof fn lemma_known_requests(request: c_ulong)
    ensures
        route_spec(request) is Some <==> (request == TCGETS || request == TCSETS || request
            == TCFLSH || request == TIOCGPGRP || request == TIOCSPGRP || request == TIOCGWINSZ
            || request == TIOCSWINSZ),
{
}

/// A request that is not known fails as an invalid argument, and the kernel is
/// never asked: the C function returns -1, the error slot holds the code, and
/// whatever replies are offered, no descriptor is asked for.
pub proof fn lemma_unknown_request_is_refused(
    fd: c_int,
    request: c_ulong,
    arg: Seq<u8>,
    replies: Seq<ReplyView>,
    errno_before: c_int,
)
    requires
        route_spec(request) is None,
    ensures
        ioctl_spec(fd, request, arg).pending() is None,
        ioctl_spec(fd, request, arg).outcome() == Some(OutcomeView::failure(EINVAL)),
        OutcomeView::failure(EINVAL).ret() == -1,
        OutcomeView::failure(EINVAL).errno_after(errno_before) == EINVAL,
        ioctl_spec(fd, request, arg).run(replies) == ioctl_spec(fd, request, arg),
        ioctl_spec(fd, request, arg).attempted(replies) == 0,
        ioctl_spec(fd, request, arg).acquired(replies) == 0,
{
    lemma_finished_is_final(ioctl_spec(fd, request, arg), replies);
}

/// A known request with a record of the right size first asks for the
/// duplicate of `fd` under the name of its capability, and holds no descriptor
/// before the kernel has answered.
pub proof fn lemma_known_request_duplicates(fd: c_int, request: c_ulong, arg: Seq<u8>)
    requires
        route_spec(request) matches Some(route) && (route.direction == Direction::Put
            ==> arg.len() == route.name.record_len_spec()),
    ensures
        ioctl_spec(fd, request, arg).pending() == Some(
            Acquisition::Dup { fd: word_of(fd as int), name: route_spec(request)->0.name }.request(),
        ),
        ioctl_spec(fd, request, arg).held() is None,
{
}

/// What a request that puts writes to a capability, a request that gets reads
/// back from it. Both duplicate the descriptor under the same name; and if the
/// kernel returns the record it was given, a record of the capability's size,
/// the caller of the get is handed the record that the caller of the put gave,
/// byte for byte.
pub proof fn lemma_put_then_get(
    fd: c_int,
    put: c_ulong,
    get: c_ulong,
    record: Seq<u8>,
    buffer: Seq<u8>,
    dup: usize,
    closed: Result<usize, Errno>,
)
    requires
        route_spec(put) matches Some(to) && to.direction == Direction::Put,
        route_spec(get) matches Some(from) && from.direction == Direction::Get,
        route_spec(put)->0.name == route_spec(get)->0.name,
        record.len() == route_spec(put)->0.name.record_len_spec(),
    ensures
        ioctl_spec(fd, put, record).pending() == ioctl_spec(fd, get, buffer).pending(),
        ioctl_spec(fd, put, record).next(ReplyView::Status(Ok(dup))).pending() == Some(
            RequestView::Write { fd: dup, data: record },
        ),
        ioctl_spec(fd, get, buffer).next(ReplyView::Status(Ok(dup))).pending() == Some(
            RequestView::Read { fd: dup, len: route_spec(get)->0.name.record_len_spec() },
        ),
        ioctl_spec(fd, get, buffer).next(ReplyView::Status(Ok(dup))).next(
            ReplyView::Bytes(Ok(record)),
        ).next(ReplyView::Status(closed)).outcome() == Some(
            OutcomeView::success(OutputView::Record(record)),
        ),
{
}

} // verus!
