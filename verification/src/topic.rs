//! The broadcast topic: a bounded, single-producer, multi-consumer
//! distribution primitive. The producer publishes lines into a ring that
//! retains the most recent `cap` of them; each consumer reads through its own
//! cursor, which is a sequence number into the full publish history. A cursor
//! that falls behind the ring is fast-forwarded (it lags, it is never
//! blocked), and once the topic is closed every cursor terminates after
//! draining what is still retained.
use vstd::prelude::*;

verus! {

/// What one poll of a cursor reports.
#[derive(Debug)]
pub enum RecvOutcome {
    /// The next line this cursor had not yet observed.
    Line(Vec<u8>),
    /// The cursor fell behind the retention window and was fast-forwarded to
    /// the oldest retained line; polling again resumes delivery there.
    Lagged,
    /// Nothing new yet and the topic is still open: the consumer must wait
    /// for the next publish or for the close.
    Pending,
    /// The producer closed the topic and this cursor has seen everything it
    /// ever will; no further lines can arrive.
    Closed,
}

/// The distribution primitive itself. `history` is the ghost record of every
/// line ever published, in order; the ring holds the retained suffix of it.
pub struct Topic {
    ring: Vec<Vec<u8>>,
    capacity: usize,
    next_seq: u64,
    closed: bool,
    history: Ghost<Seq<Seq<u8>>>,
}

/// One consumer's independent read position into a topic, together with the
/// ghost log of what it has observed: `delivered[k]` was read from publish
/// sequence number `indices[k]`.
pub struct Cursor {
    pos: u64,
    attach: Ghost<int>,
    delivered: Ghost<Seq<Seq<u8>>>,
    indices: Ghost<Seq<int>>,
    lagged: Ghost<bool>,
}

impl Topic {
    /// Every line ever published to this topic, in publish order.
    pub closed spec fn history(&self) -> Seq<Seq<u8>> {
        self.history@
    }

    /// The retention window, fixed at construction.
    pub closed spec fn cap(&self) -> nat {
        self.capacity as nat
    }

    /// Whether the producer side has closed the topic.
    pub closed spec fn is_closed(&self) -> bool {
        self.closed
    }

    /// Sequence number of the oldest line still retained: everything before
    /// it has been evicted by the ring.
    pub open spec fn oldest_retained(&self) -> int {
        if self.history().len() <= self.cap() {
            0
        } else {
            self.history().len() - self.cap()
        }
    }

    /// The ring holds exactly the suffix of the history that is still
    /// retained, and the sequence counter matches the history length.
    pub closed spec fn wf(&self) -> bool {
        &&& 1 <= self.capacity
        &&& self.next_seq as int == self.history@.len()
        &&& self.ring@.len() == self.history@.len() - self.oldest_retained()
        &&& forall|k: int|
            0 <= k < self.ring@.len() ==> #[trigger] self.ring@[k]@ == self.history@[self.oldest_retained()
                + k]
    }

    /// A fresh topic retaining at most `capacity` lines.
    pub fn new(capacity: usize) -> (t: Topic)
        requires
            1 <= capacity,
        ensures
            t.wf(),
            t.history() == Seq::<Seq<u8>>::empty(),
            t.cap() == capacity as nat,
            !t.is_closed(),
    {
        Topic {
            ring: Vec::new(),
            capacity,
            next_seq: 0,
            closed: false,
            history: Ghost(Seq::empty()),
        }
    }

    /// Publish one line. This never waits on and never fails because of
    /// consumers: there is no precondition about cursors, and a topic with
    /// zero consumers accepts publishes all the same.
    pub fn publish(&mut self, line: Vec<u8>)
        requires
            old(self).wf(),
            !old(self).is_closed(),
            old(self).history().len() < u64::MAX,
        ensures
            final(self).wf(),
            final(self).history() == old(self).history().push(line@),
            final(self).cap() == old(self).cap(),
            !final(self).is_closed(),
    {
        proof {
            self.history@ = self.history@.push(line@);
        }
        self.ring.push(line);
        if self.ring.len() > self.capacity {
            let ghost pushed = self.ring@;
            self.ring.remove(0);
            proof {
                assert(self.ring@ =~= pushed.subrange(1, pushed.len() as int));
            }
        }
        self.next_seq = self.next_seq + 1;
        proof {
            assert forall|k: int| 0 <= k < self.ring@.len() implies #[trigger] self.ring@[k]@
                == self.history@[self.oldest_retained() + k] by {
                let old_oldest = old(self).oldest_retained();
                if k < self.ring@.len() - 1 {
                    assert(self.ring@[k] == old(self).ring@[k + self.oldest_retained()
                        - old_oldest]);
                }
            }
        }
    }

    /// Close the topic: the producer is done, no further lines will arrive.
    pub fn close(&mut self)
        requires
            old(self).wf(),
        ensures
            final(self).wf(),
            final(self).history() == old(self).history(),
            final(self).cap() == old(self).cap(),
            final(self).is_closed(),
    {
        self.closed = true;
    }

    /// Attach a new consumer. Its cursor starts at the next line to be
    /// published: it replays no history, evicted or retained.
    pub fn subscribe(&self) -> (c: Cursor)
        requires
            self.wf(),
        ensures
            c.valid(*self),
            c.pos_spec() == self.history().len(),
            c.attach_spec() == self.history().len(),
            c.delivered() == Seq::<Seq<u8>>::empty(),
            c.observed_indices() == Seq::<int>::empty(),
            !c.ever_lagged(),
    {
        Cursor {
            pos: self.next_seq,
            attach: Ghost(self.history@.len() as int),
            delivered: Ghost(Seq::empty()),
            indices: Ghost(Seq::empty()),
            lagged: Ghost(false),
        }
    }

    /// How many lines have ever been published.
    pub fn published(&self) -> (n: u64)
        requires
            self.wf(),
        ensures
            n as int == self.history().len(),
    {
        self.next_seq
    }

    /// The retention window.
    pub fn capacity(&self) -> (n: usize)
        ensures
            n as nat == self.cap(),
    {
        self.capacity
    }

    /// Whether the producer has closed the topic.
    pub fn closed_now(&self) -> (b: bool)
        ensures
            b == self.is_closed(),
    {
        self.closed
    }
}

/// Whether a poll at position `pos` observes a lag: the cursor is behind
/// the oldest retained line.
pub open spec fn poll_lags(t: Topic, pos: int) -> bool {
    pos < t.oldest_retained()
}

/// Whether a poll at position `pos` delivers a line: the position is within
/// the retained window and before the end of the history.
pub open spec fn poll_delivers(t: Topic, pos: int) -> bool {
    t.oldest_retained() <= pos < t.history().len()
}

/// The position a cursor at `pos` holds after one poll: fast-forwarded to
/// the oldest retained line on a lag, advanced by one on a delivery,
/// unmoved when it is caught up.
pub open spec fn poll_next_pos(t: Topic, pos: int) -> int {
    if poll_lags(t, pos) {
        t.oldest_retained()
    } else if poll_delivers(t, pos) {
        pos + 1
    } else {
        pos
    }
}

impl Cursor {
    /// This cursor's read position: the next sequence number it has not seen.
    pub closed spec fn pos_spec(&self) -> int {
        self.pos as int
    }

    /// The publish sequence number at which this cursor attached.
    pub closed spec fn attach_spec(&self) -> int {
        self.attach@
    }

    /// Every line this cursor has observed, in the order it observed them.
    pub closed spec fn delivered(&self) -> Seq<Seq<u8>> {
        self.delivered@
    }

    /// The publish sequence number each observed line was read from.
    pub closed spec fn observed_indices(&self) -> Seq<int> {
        self.indices@
    }

    /// Whether this cursor has ever been fast-forwarded past missed lines.
    pub closed spec fn ever_lagged(&self) -> bool {
        self.lagged@
    }

    /// The cursor's observation log is consistent with the topic: positions
    /// are in range, observed indices are strictly increasing, none precedes
    /// the attach point, each observed line is exactly the history entry at
    /// its index, and a cursor that never lagged has observed a gapless run.
    pub closed spec fn valid(&self, t: Topic) -> bool {
        &&& 0 <= self.attach@ <= self.pos as int <= t.history().len()
        &&& self.indices@.len() == self.delivered@.len()
        &&& forall|k: int|
            0 <= k < self.indices@.len() ==> self.attach@ <= #[trigger] self.indices@[k]
                < self.pos as int
        &&& forall|i: int, j: int|
            0 <= i < j < self.indices@.len() ==> #[trigger] self.indices@[i]
                < #[trigger] self.indices@[j]
        &&& forall|k: int|
            0 <= k < self.indices@.len() ==> #[trigger] self.delivered@[k] == t.history()[self.indices@[k]]
        &&& (!self.lagged@ ==> {
            &&& self.pos as int == self.attach@ + self.indices@.len()
            &&& forall|k: int|
                0 <= k < self.indices@.len() ==> #[trigger] self.indices@[k] == self.attach@ + k
        })
    }

    /// Poll for the next line. The four outcomes partition the cursor's
    /// situation: behind the window (lag and fast-forward), within the window
    /// (the exact next line is delivered), caught up on an open topic (wait),
    /// caught up on a closed topic (terminate).
    pub fn recv(&mut self, t: &Topic) -> (out: RecvOutcome)
        requires
            t.wf(),
            old(self).valid(*t),
        ensures
            final(self).valid(*t),
            final(self).attach_spec() == old(self).attach_spec(),
            final(self).ever_lagged() == (old(self).ever_lagged() || out is Lagged),
            final(self).pos_spec() == poll_next_pos(*t, old(self).pos_spec()),
            out is Lagged <==> poll_lags(*t, old(self).pos_spec()),
            out is Line <==> poll_delivers(*t, old(self).pos_spec()),
            out is Closed <==> (t.is_closed() && old(self).pos_spec() == t.history().len()),
            // a consumer behind the window is informed and fast-forwarded to
            // the oldest retained line, never blocked
            old(self).pos_spec() < t.oldest_retained() ==> {
                &&& out is Lagged
                &&& final(self).pos_spec() == t.oldest_retained()
                &&& final(self).delivered() == old(self).delivered()
                &&& final(self).observed_indices() == old(self).observed_indices()
            },
            // a consumer within the window receives exactly the next line
            t.oldest_retained() <= old(self).pos_spec() < t.history().len() ==> {
                &&& (out matches RecvOutcome::Line(l) && l@ == t.history()[old(self).pos_spec()])
                &&& final(self).pos_spec() == old(self).pos_spec() + 1
                &&& final(self).delivered() == old(self).delivered().push(
                    t.history()[old(self).pos_spec()],
                )
                &&& final(self).observed_indices() == old(self).observed_indices().push(
                    old(self).pos_spec(),
                )
            },
            // a caught-up consumer waits while the topic is open and
            // terminates once it is closed
            old(self).pos_spec() == t.history().len() ==> {
                &&& (out is Closed <==> t.is_closed())
                &&& (out is Pending <==> !t.is_closed())
                &&& final(self).pos_spec() == old(self).pos_spec()
                &&& final(self).delivered() == old(self).delivered()
                &&& final(self).observed_indices() == old(self).observed_indices()
            },
            // once the topic is closed no poll waits, and every poll that is
            // not yet Closed strictly advances toward the end of the history
            t.is_closed() ==> !(out is Pending),
            (out is Lagged || out is Line) ==> t.history().len() - final(self).pos_spec()
                < t.history().len() - old(self).pos_spec(),
    {
        let oldest: u64 = t.next_seq - (t.ring.len() as u64);
        if self.pos < oldest {
            self.pos = oldest;
            proof {
                self.lagged@ = true;
            }
            RecvOutcome::Lagged
        } else if self.pos < t.next_seq {
            let idx: usize = (self.pos - oldest) as usize;
            let stored: &Vec<u8> = &t.ring[idx];
            let mut line: Vec<u8> = Vec::new();
            let mut j: usize = 0;
            while j < stored.len()
                invariant
                    j <= stored.len(),
                    line@ == stored@.take(j as int),
                decreases stored.len() - j,
            {
                line.push(stored[j]);
                proof {
                    assert(line@ =~= stored@.take(j + 1));
                }
                j = j + 1;
            }
            proof {
                assert(line@ =~= stored@);
                self.indices@ = self.indices@.push(self.pos as int);
                self.delivered@ = self.delivered@.push(t.history@[self.pos as int]);
            }
            self.pos = self.pos + 1;
            RecvOutcome::Line(line)
        } else if t.closed {
            RecvOutcome::Closed
        } else {
            RecvOutcome::Pending
        }
    }
}

/// A valid cursor's positions are within the topic's history: it attached no
/// later than it now reads, and it never reads past what was published.
pub proof fn lemma_valid_bounds(c: Cursor, t: Topic)
    requires
        c.valid(t),
    ensures
        0 <= c.attach_spec() <= c.pos_spec() <= t.history().len(),
        c.delivered().len() == c.observed_indices().len(),
{
}

/// Every consumer observes a subsequence of the publish sequence: observed
/// indices are strictly increasing (relative order is preserved, lines are
/// never reordered) and each observed line is exactly the line published at
/// its index.
pub proof fn lemma_observed_subsequence(c: Cursor, t: Topic)
    requires
        c.valid(t),
    ensures
        c.delivered().len() == c.observed_indices().len(),
        forall|i: int, j: int|
            0 <= i < j < c.observed_indices().len() ==> #[trigger] c.observed_indices()[i]
                < #[trigger] c.observed_indices()[j],
        forall|k: int|
            0 <= k < c.observed_indices().len() ==> #[trigger] c.delivered()[k]
                == t.history()[c.observed_indices()[k]],
{
}

/// A consumer attached after some lines were published (and possibly
/// evicted) never observes any line from before its attach point: it only
/// sees lines published after attachment.
pub proof fn lemma_no_replay_before_attach(c: Cursor, t: Topic)
    requires
        c.valid(t),
    ensures
        forall|k: int|
            0 <= k < c.observed_indices().len() ==> #[trigger] c.observed_indices()[k]
                >= c.attach_spec(),
{
}

/// A consumer that never lagged has observed exactly the contiguous run of
/// lines published between its attach point and its current position: a
/// gapless, in-order copy of that slice of the history.
pub proof fn lemma_no_lag_gapless(c: Cursor, t: Topic)
    requires
        c.valid(t),
        !c.ever_lagged(),
    ensures
        c.delivered() =~= t.history().subrange(c.attach_spec(), c.pos_spec()),
{
}

/// A consumer that has fallen beyond the retention window observes a lag on
/// its next poll and is fast-forwarded to the oldest retained line; the poll
/// after that delivers exactly that oldest line. The publisher is never
/// consulted: `publish` carries no condition about any cursor.
pub proof fn lemma_lagged_consumer_recovers(t: Topic, pos: int)
    requires
        t.wf(),
        0 <= pos,
        poll_lags(t, pos),
    ensures
        poll_next_pos(t, pos) == t.oldest_retained(),
        poll_delivers(t, poll_next_pos(t, pos)),
        poll_next_pos(t, poll_next_pos(t, pos)) == t.oldest_retained() + 1,
{
}

/// On a closed topic no poll waits: below the end of the history every poll
/// strictly shrinks the distance left, and at the end the poll reports
/// Closed and moves nothing — so every consumer's forwarding loop
/// terminates after finitely many polls.
pub proof fn lemma_closed_topic_terminates(t: Topic, pos: int)
    requires
        t.wf(),
        t.is_closed(),
        0 <= pos <= t.history().len(),
    ensures
        pos < t.history().len() ==> t.history().len() - poll_next_pos(t, pos) < t.history().len()
            - pos,
        pos == t.history().len() ==> !poll_lags(t, pos) && !poll_delivers(t, pos) && poll_next_pos(
            t,
            pos,
        ) == pos,
{
}

/// Publishing more lines never invalidates an existing cursor: everything a
/// cursor has observed stays consistent when the history grows.
pub proof fn lemma_valid_preserved_by_growth(c: Cursor, t1: Topic, t2: Topic)
    requires
        c.valid(t1),
        t1.history().is_prefix_of(t2.history()),
    ensures
        c.valid(t2),
{
    assert forall|k: int| 0 <= k < c.observed_indices().len() implies #[trigger] c.delivered()[k]
        == t2.history()[c.observed_indices()[k]] by {
        assert(t1.history()[c.observed_indices()[k]] == t2.history()[c.observed_indices()[k]]);
    }
}

} // verus!
