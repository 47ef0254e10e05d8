//! Forwarding: the per-consumer loop that pulls lines from a cursor and
//! hands them to a destination. The decision table here is shared by every
//! sink variant: a lag is not terminal (poll again), an empty open topic
//! means wait, a closed topic ends the loop, and a delivered line is written
//! to the destination verbatim, with no added delimiter.
use vstd::prelude::*;

use crate::topic::{Cursor, RecvOutcome, Topic};

verus! {

/// What a forwarding task does in reaction to one poll of its cursor.
#[derive(Debug)]
pub enum ForwardAction {
    /// Write these bytes to the destination, then poll again.
    Write(Vec<u8>),
    /// Poll again immediately: the cursor lagged and was fast-forwarded.
    PollAgain,
    /// Wait until a line is published or the topic closes, then poll again.
    WaitThenPoll,
    /// Exit the forwarding loop: no further lines will ever arrive.
    Exit,
}

/// The decision every forwarding task makes after one poll: deliveries are
/// written through unchanged, `Lagged` is recovered from by polling again,
/// `Pending` means wait, and only `Closed` ends the loop.
pub fn forward_step(out: RecvOutcome) -> (a: ForwardAction)
    ensures
        (out matches RecvOutcome::Line(l) ==> (a matches ForwardAction::Write(w) && w@ == l@)),
        out is Line <==> a is Write,
        out is Lagged <==> a is PollAgain,
        out is Pending <==> a is WaitThenPoll,
        out is Closed <==> a is Exit,
{
    match out {
        RecvOutcome::Line(l) => ForwardAction::Write(l),
        RecvOutcome::Lagged => ForwardAction::PollAgain,
        RecvOutcome::Pending => ForwardAction::WaitThenPoll,
        RecvOutcome::Closed => ForwardAction::Exit,
    }
}

/// Where a cursor resumes reading: its own position, unless eviction has
/// already moved the oldest retained line past it.
pub open spec fn resume_point(pos: int, t: Topic) -> int {
    if pos < t.oldest_retained() {
        t.oldest_retained()
    } else {
        pos
    }
}

/// Drain a cursor of a closed topic into a byte destination, as the file and
/// console sinks do once the source has ended. This loop provably
/// terminates — no forwarding task can run forever after the topic closes —
/// and it appends to `dest` exactly the concatenation of the lines from the
/// cursor's resume point through the end of the history, in order, with no
/// bytes added or dropped.
pub fn drain_closed(c: &mut Cursor, t: &Topic, dest: &mut Vec<u8>)
    requires
        t.wf(),
        t.is_closed(),
        old(c).valid(*t),
    ensures
        final(c).valid(*t),
        final(c).pos_spec() == t.history().len(),
        final(dest)@ == old(dest)@ + t.history().subrange(
            resume_point(old(c).pos_spec(), *t),
            t.history().len() as int,
        ).flatten(),
{
    let ghost start = resume_point(old(c).pos_spec(), *t);
    proof {
        crate::topic::lemma_valid_bounds(*old(c), *t);
        assert(t.history().subrange(start, start).flatten() =~= Seq::<u8>::empty());
        assert(dest@ =~= dest@ + t.history().subrange(start, start).flatten());
    }
    loop
        invariant
            t.wf(),
            t.is_closed(),
            c.valid(*t),
            0 <= start <= t.history().len(),
            old(c).pos_spec() <= t.history().len(),
            c.pos_spec() < t.oldest_retained() ==> {
                &&& c.pos_spec() == old(c).pos_spec()
                &&& dest@ == old(dest)@
            },
            c.pos_spec() >= t.oldest_retained() ==> {
                &&& start <= c.pos_spec()
                &&& dest@ == old(dest)@ + t.history().subrange(start, c.pos_spec()).flatten()
            },
            start == resume_point(old(c).pos_spec(), *t),
        decreases t.history().len() - c.pos_spec(),
    {
        let ghost pos0 = c.pos_spec();
        proof {
            crate::topic::lemma_valid_bounds(*c, *t);
        }
        match c.recv(t) {
            RecvOutcome::Line(mut l) => {
                proof {
                    broadcast use vstd::prelude::Seq::lemma_flatten_push;

                    if pos0 < t.oldest_retained() {
                        // in that case the poll would have reported Lagged
                        assert(false);
                    }
                    assert(start <= pos0 < t.history().len());
                    assert(t.history().subrange(start, pos0 + 1) =~= t.history().subrange(
                        start,
                        pos0,
                    ).push(t.history()[pos0]));
                }
                dest.append(&mut l);
            },
            RecvOutcome::Lagged => {
                proof {
                    // only a cursor behind the window lags, so nothing had
                    // been appended yet and the cursor now sits at `start`
                    assert(pos0 < t.oldest_retained());
                    assert(c.pos_spec() == start);
                    assert(t.history().subrange(start, c.pos_spec()).flatten()
                        =~= Seq::<u8>::empty());
                    assert(dest@ =~= old(dest)@ + t.history().subrange(
                        start,
                        c.pos_spec(),
                    ).flatten());
                }
            },
            RecvOutcome::Closed => {
                proof {
                    if pos0 < t.oldest_retained() {
                        // a cursor behind the window cannot report Closed
                        assert(false);
                    }
                }
                return ;
            },
            RecvOutcome::Pending => {
                proof {
                    // a closed topic never reports Pending
                    assert(false);
                }
            },
        }
    }
}

} // verus!
