//! Runs of a call, and what holds of every run.
//!
//! A run is a call together with the replies it is fed, in order. Nothing is
//! assumed of the replies: the kernel may fail any request, transfer any
//! number of bytes, and the driver may hand over replies that answer nothing.
use vstd::prelude::*;
use crate::call::CallView;
use crate::kernel::{ReplyView, RequestView};

verus! {

impl CallView {
    /// The call after these replies, first to last.
    pub open spec fn run(self, replies: Seq<ReplyView>) -> CallView
        decreases replies.len(),
    {
        if replies.len() == 0 {
            self
        } else {
            self.next(replies.first()).run(replies.drop_first())
        }
    }

    /// The reply answers the pending request.
    pub open spec fn answered_by(self, reply: ReplyView) -> bool {
        self.pending() matches Some(request) && request.answered_by(reply)
    }

    /// The reply hands the call a descriptor: it answers the request that
    /// acquires one, and the kernel did not fail it.
    pub open spec fn acquires_on(self, reply: ReplyView) -> bool {
        self is Acquiring && reply matches ReplyView::Status(Ok(_))
    }

    /// The reply answers a request for a descriptor, granted or not: an
    /// attempt was made.
    pub open spec fn attempts_on(self, reply: ReplyView) -> bool {
        self is Acquiring && reply is Status
    }

    /// The reply answers the closing of the held descriptor, with whatever
    /// result.
    pub open spec fn releases_on(self, reply: ReplyView) -> bool {
        self is Releasing && reply is Status
    }

    /// How many descriptors the call is handed in the course of these replies.
    pub open spec fn acquired(self, replies: Seq<ReplyView>) -> nat
        decreases replies.len(),
    {
        if replies.len() == 0 {
            0
        } else {
            (if self.acquires_on(replies.first()) {
                1nat
            } else {
                0nat
            }) + self.next(replies.first()).acquired(replies.drop_first())
        }
    }

    /// How many times a descriptor is asked for in the course of these replies,
    /// with or without success.
    pub open spec fn attempted(self, replies: Seq<ReplyView>) -> nat
        decreases replies.len(),
    {
        if replies.len() == 0 {
            0
        } else {
            (if self.attempts_on(replies.first()) {
                1nat
            } else {
                0nat
            }) + self.next(replies.first()).attempted(replies.drop_first())
        }
    }

    /// How many times the closing of a descriptor is answered in the course of
    /// these replies.
    pub open spec fn released(self, replies: Seq<ReplyView>) -> nat
        decreases replies.len(),
    {
        if replies.len() == 0 {
            0
        } else {
            (if self.releases_on(replies.first()) {
                1nat
            } else {
                0nat
            }) + self.next(replies.first()).released(replies.drop_first())
        }
    }

    /// The number of descriptors the call holds: one or none.
    pub open spec fn holding(self) -> nat {
        if self.held() is Some {
            1
        } else {
            0
        }
    }

    /// Every one of these replies answers the request that is pending when it
    /// arrives.
    pub open spec fn answered_throughout(self, replies: Seq<ReplyView>) -> bool
        decreases replies.len(),
    {
        replies.len() > 0 ==> self.answered_by(replies.first()) && self.next(
            replies.first(),
        ).answered_throughout(replies.drop_first())
    }

    /// A bound on the requests that are still to be answered before the call is
    /// finished.
    pub open spec fn steps_left(self) -> nat {
        match self {
            CallView::Acquiring { .. } => 4,
            CallView::Holding { .. } => 3,
            CallView::Updating { .. } => 2,
            CallView::Releasing { .. } => 1,
            CallView::Signalling { .. } => 1,
            CallView::Acting { .. } => 1,
            CallView::Masking { .. } => 1,
            CallView::Finished { .. } => 0,
        }
    }
}

/// A call is finished exactly when no request is pending, and a finished call
/// holds no descriptor.
pub proof fn lemma_finished_or_pending(call: CallView)
    ensures
        call.outcome() is Some <==> call.pending() is None,
        call.outcome() is Some <==> call.steps_left() == 0,
        call.outcome() is Some ==> call.held() is None,
{
}

/// A finished call stays as it is whatever it is fed: nothing more is asked of
/// the kernel, no descriptor is acquired and none is closed.
pub proof fn lemma_finished_is_final(call: CallView, replies: Seq<ReplyView>)
    requires
        call.outcome() is Some,
    ensures
        call.run(replies) == call,
        call.attempted(replies) == 0,
        call.acquired(replies) == 0,
        call.released(replies) == 0,
    decreases replies.len(),
{
    if replies.len() > 0 {
        lemma_finished_is_final(call, replies.drop_first());
    }
}

/// A call asks for a descriptor at most once, and is handed none that it did
/// not ask for.
pub proof fn lemma_one_attempt(call: CallView, replies: Seq<ReplyView>)
    ensures
        call.acquired(replies) <= call.attempted(replies) <= 1,
        !(call is Acquiring) ==> call.attempted(replies) == 0,
    decreases replies.len(),
{
    if replies.len() > 0 {
        lemma_one_attempt(call.next(replies.first()), replies.drop_first());
    }
}

/// A reply that does not answer the pending request changes nothing.
pub proof fn lemma_stray_reply_is_ignored(call: CallView, reply: ReplyView)
    requires
        !call.answered_by(reply),
    ensures
        call.next(reply) == call,
        !call.attempts_on(reply),
        !call.acquires_on(reply),
        !call.releases_on(reply),
{
}

/// Every answered request brings the call closer to its end.
pub proof fn lemma_answer_advances(call: CallView, reply: ReplyView)
    requires
        call.answered_by(reply),
    ensures
        call.next(reply).steps_left() < call.steps_left(),
{
}

/// No call puts more than four requests to the kernel.
pub proof fn lemma_at_most_four_requests(call: CallView, replies: Seq<ReplyView>)
    requires
        call.answered_throughout(replies),
    ensures
        replies.len() <= call.steps_left() <= 4,
    decreases replies.len(),
{
    if replies.len() > 0 {
        lemma_answer_advances(call, replies.first());
        lemma_at_most_four_requests(call.next(replies.first()), replies.drop_first());
    }
}

/// Every request on a descriptor names the descriptor that the call holds, and
/// a call that holds one asks for nothing else.
pub proof fn lemma_requests_name_the_held(call: CallView)
    ensures
        call.held() matches Some(held) ==> (call.pending() matches Some(request) && (match request {
            RequestView::Read { fd, .. } => fd == held,
            RequestView::Write { fd, .. } => fd == held,
            RequestView::ReadTimer { fd } => fd == held,
            RequestView::WriteTimer { fd, .. } => fd == held,
            RequestView::Close { fd } => fd == held,
            _ => false,
        })),
        call.held() is None ==> (call.pending() matches Some(request) ==> (request.acquires()
            || request is Kill || request is Sigaction || request is Sigprocmask)),
{
}

/// The descriptor that the kernel hands over is the one the call holds from
/// then on, until the reply to its closing arrives. A failed transfer does not
/// end the call: the closing is still asked for.
pub proof fn lemma_held_until_closed(call: CallView, reply: ReplyView)
    ensures
        call.acquires_on(reply) ==> (reply matches ReplyView::Status(Ok(fd)) && call.next(
            reply,
        ).held() == Some(fd)),
        call.held() is Some && !call.releases_on(reply) ==> call.next(reply).held()
            == call.held(),
        call.releases_on(reply) ==> call.next(reply).held() is None && call.next(
            reply,
        ).outcome() is Some,
        call.held() is None && !call.acquires_on(reply) ==> call.next(reply).held() is None,
{
}

/// Over any run, what was acquired and what was held at the start is what was
/// closed and what is held at the end.
pub proof fn lemma_descriptors_balanced(call: CallView, replies: Seq<ReplyView>)
    ensures
        call.acquired(replies) + call.holding() == call.released(replies) + call.run(
            replies,
        ).holding(),
    decreases replies.len(),
{
    if replies.len() > 0 {
        lemma_held_until_closed(call, replies.first());
        lemma_descriptors_balanced(call.next(replies.first()), replies.drop_first());
    }
}

/// No descriptor leaks: a call that starts with none and runs to its end has
/// closed as many descriptors as it was handed, whatever the kernel answered.
pub proof fn lemma_no_descriptor_leaks(call: CallView, replies: Seq<ReplyView>)
    requires
        call.held() is None,
        call.run(replies).outcome() is Some,
    ensures
        call.acquired(replies) == call.released(replies),
{
    lemma_descriptors_balanced(call, replies);
    lemma_finished_or_pending(call.run(replies));
}

/// How many descriptors a sequence of calls is handed, each call fed the
/// replies that stand beside it.
pub open spec fn acquired_by_all(runs: Seq<(CallView, Seq<ReplyView>)>) -> nat
    decreases runs.len(),
{
    if runs.len() == 0 {
        0
    } else {
        runs.first().0.acquired(runs.first().1) + acquired_by_all(runs.drop_first())
    }
}

/// How many times a sequence of calls has the closing of a descriptor
/// answered, each call fed the replies that stand beside it.
pub open spec fn released_by_all(runs: Seq<(CallView, Seq<ReplyView>)>) -> nat
    decreases runs.len(),
{
    if runs.len() == 0 {
        0
    } else {
        runs.first().0.released(runs.first().1) + released_by_all(runs.drop_first())
    }
}

/// No descriptor leaks over any sequence of calls: where each call starts
/// without a descriptor and is run to its end, as many descriptors have been
/// closed as were handed out, whatever the kernel answered to any request.
pub proof fn lemma_no_descriptor_leaks_over_calls(runs: Seq<(CallView, Seq<ReplyView>)>)
    requires
        forall|i: int|
            0 <= i < runs.len() ==> (#[trigger] runs[i]).0.held() is None && runs[i].0.run(
                runs[i].1,
            ).outcome() is Some,
    ensures
        acquired_by_all(runs) == released_by_all(runs),
    decreases runs.len(),
{
    if runs.len() > 0 {
        assert(runs.first() == runs[0]);
        lemma_no_descriptor_leaks(runs.first().0, runs.first().1);
        assert forall|i: int| 0 <= i < runs.drop_first().len() implies (#[trigger] runs.drop_first()[i]).0.held() is None
            && runs.drop_first()[i].0.run(runs.drop_first()[i].1).outcome() is Some by {
            assert(runs.drop_first()[i] == runs[i + 1]);
        }
        lemma_no_descriptor_leaks_over_calls(runs.drop_first());
    }
}

} // verus!
