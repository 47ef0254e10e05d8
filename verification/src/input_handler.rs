//! The ingestion engine's lifecycle: it owns the broadcast topic, publishes
//! each record the line source yields, closes the topic when the source ends
//! (a read failure is treated identically — consumers only learn that no
//! more lines will come), and hands out consumer cursors while it is alive.
//! A deliberate external stop is requested asynchronously and honoured by
//! the reading loop; tearing the handler down stops it from handing out
//! cursors.
use vstd::prelude::*;

use crate::topic::{Cursor, Topic};

verus! {

/// Retention window of the broadcast topic.
pub const RING_CAPACITY: usize = 16;

/// The engine: the topic it publishes into, plus its lifecycle flags.
pub struct InputHandler {
    topic: Topic,
    started: bool,
    torn_down: bool,
    stop_requested: bool,
}

impl InputHandler {
    /// Whether the engine was ever connected to a source.
    pub closed spec fn is_started(&self) -> bool {
        self.started
    }

    /// Whether the engine has been torn down (no more cursors are handed
    /// out).
    pub closed spec fn is_torn_down(&self) -> bool {
        self.torn_down
    }

    /// Whether an external stop has been requested.
    pub closed spec fn stop_requested_spec(&self) -> bool {
        self.stop_requested
    }

    /// The broadcast topic the engine publishes into.
    pub closed spec fn the_topic(&self) -> Topic {
        self.topic
    }

    pub closed spec fn wf(&self) -> bool {
        self.topic.wf()
    }

    /// An engine that was never connected to a source: it hands out no
    /// cursors and publishes nothing.
    pub fn new() -> (h: InputHandler)
        ensures
            h.wf(),
            !h.is_started(),
            !h.is_torn_down(),
            !h.stop_requested_spec(),
    {
        InputHandler {
            topic: Topic::new(RING_CAPACITY),
            started: false,
            torn_down: false,
            stop_requested: false,
        }
    }

    /// An engine connected to a source: its topic is fresh and open, and the
    /// caller is expected to report every record the source yields through
    /// `on_line`, then the end of the stream through `on_stream_end`.
    pub fn new_connect() -> (h: InputHandler)
        ensures
            h.wf(),
            h.is_started(),
            !h.is_torn_down(),
            !h.stop_requested_spec(),
            h.the_topic().history() == Seq::<Seq<u8>>::empty(),
            h.the_topic().cap() == RING_CAPACITY as nat,
            !h.the_topic().is_closed(),
    {
        InputHandler {
            topic: Topic::new(RING_CAPACITY),
            started: true,
            torn_down: false,
            stop_requested: false,
        }
    }

    /// One record was read from the source: republish the exact bytes read,
    /// duplicates and empty records included.
    pub fn on_line(&mut self, line: Vec<u8>)
        requires
            old(self).wf(),
            old(self).is_started(),
            !old(self).the_topic().is_closed(),
            old(self).the_topic().history().len() < u64::MAX,
        ensures
            final(self).wf(),
            final(self).the_topic().history() == old(self).the_topic().history().push(line@),
            final(self).the_topic().cap() == old(self).the_topic().cap(),
            !final(self).the_topic().is_closed(),
            final(self).is_started() == old(self).is_started(),
            final(self).is_torn_down() == old(self).is_torn_down(),
            final(self).stop_requested_spec() == old(self).stop_requested_spec(),
    {
        self.topic.publish(line);
    }

    /// The source ended, by exhaustion or by a read failure: the two are
    /// treated identically. The topic closes; nothing further is published.
    pub fn on_stream_end(&mut self)
        requires
            old(self).wf(),
        ensures
            final(self).wf(),
            final(self).the_topic().history() == old(self).the_topic().history(),
            final(self).the_topic().cap() == old(self).the_topic().cap(),
            final(self).the_topic().is_closed(),
            final(self).is_started() == old(self).is_started(),
            final(self).is_torn_down() == old(self).is_torn_down(),
            final(self).stop_requested_spec() == old(self).stop_requested_spec(),
    {
        self.topic.close();
    }

    /// Ask the reading loop to stop. Asking twice changes nothing; nothing
    /// else about the engine changes until the loop honours the request.
    pub fn request_stop(&mut self)
        requires
            old(self).wf(),
        ensures
            final(self).wf(),
            final(self).stop_requested_spec(),
            final(self).the_topic() == old(self).the_topic(),
            final(self).is_started() == old(self).is_started(),
            final(self).is_torn_down() == old(self).is_torn_down(),
    {
        self.stop_requested = true;
    }

    /// Whether the reading loop should stop before its next read.
    pub fn stop_was_requested(&self) -> (b: bool)
        ensures
            b == self.stop_requested_spec(),
    {
        self.stop_requested
    }

    /// A fresh cursor over the topic, or `None` if the engine was never
    /// started or has been torn down. The cursor starts at the next line to
    /// be published: it replays nothing.
    pub fn subscribe(&self) -> (r: Option<Cursor>)
        requires
            self.wf(),
        ensures
            r is Some <==> (self.is_started() && !self.is_torn_down()),
            (r matches Some(c) ==> {
                &&& c.valid(self.the_topic())
                &&& c.pos_spec() == self.the_topic().history().len()
                &&& c.attach_spec() == self.the_topic().history().len()
                &&& c.delivered() == Seq::<Seq<u8>>::empty()
                &&& !c.ever_lagged()
            }),
    {
        if self.started && !self.torn_down {
            Some(self.topic.subscribe())
        } else {
            None
        }
    }

    /// The topic itself, for cursors to poll against.
    pub fn topic_ref(&self) -> (t: &Topic)
        ensures
            *t == self.the_topic(),
    {
        &self.topic
    }

    /// Stop and tear down: request the stop, close the topic, and stop
    /// handing out cursors. History is not rewritten: deliveries already
    /// made stand, and draining cursors still see every retained line.
    pub fn stop(&mut self)
        requires
            old(self).wf(),
        ensures
            final(self).wf(),
            final(self).is_torn_down(),
            final(self).stop_requested_spec(),
            final(self).the_topic().is_closed(),
            final(self).the_topic().history() == old(self).the_topic().history(),
            final(self).the_topic().cap() == old(self).the_topic().cap(),
    {
        self.stop_requested = true;
        self.topic.close();
        self.torn_down = true;
    }
}

} // verus!
