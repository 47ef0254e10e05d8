//! Server lifecycle: the shutdown coordinator and the fan-out server's
//! connection registry. A listening server accepts connections, each of
//! which becomes an independently lifetimed forwarding task; firing the
//! shutdown signal stops the accepting; completing the stop cancels and
//! reaps every outstanding connection before the stop is considered done,
//! so no task outlives its server.
use vstd::prelude::*;

verus! {

/// A single-use cancellation notification: once fired it stays fired, and
/// firing it again is a no-op.
pub struct ShutdownSignal {
    fired: bool,
}

impl ShutdownSignal {
    /// Whether the signal has been fired.
    pub closed spec fn fired_spec(&self) -> bool {
        self.fired
    }

    pub fn new() -> (s: ShutdownSignal)
        ensures
            !s.fired_spec(),
    {
        ShutdownSignal { fired: false }
    }

    /// Fire the signal. Idempotent: the state after a second fire is the
    /// same as after the first.
    pub fn fire(&mut self)
        ensures
            final(self).fired_spec(),
    {
        self.fired = true;
    }

    /// Observe whether the signal has fired.
    pub fn is_fired(&self) -> (b: bool)
        ensures
            b == self.fired_spec(),
    {
        self.fired
    }
}

/// Where a fan-out server stands in its life.
#[derive(Clone, Copy, Debug, PartialEq, Eq, Structural)]
pub enum ServerPhase {
    /// Accepting new connections.
    Listening,
    /// The shutdown signal fired: no new connections are accepted.
    Stopping,
    /// Every outstanding connection task has been cancelled and reaped.
    Stopped,
}

/// The fan-out server's control state: its phase, its shutdown signal, and
/// the registry of outstanding per-connection forwarding tasks, one entry
/// per accepted connection still running.
pub struct TcpCaster {
    phase: ServerPhase,
    signal: ShutdownSignal,
    conns: Vec<u64>,
    next_conn: u64,
}

impl TcpCaster {
    pub closed spec fn phase_spec(&self) -> ServerPhase {
        self.phase
    }

    pub closed spec fn conns_spec(&self) -> Seq<u64> {
        self.conns@
    }

    pub closed spec fn signal_fired(&self) -> bool {
        self.signal.fired_spec()
    }

    /// The identity the next accepted connection would get.
    pub closed spec fn next_conn_spec(&self) -> u64 {
        self.next_conn
    }

    /// Registry sanity: connection identities are distinct and below the
    /// next identity to be issued; a stopped server has no outstanding
    /// connection; the signal has fired exactly when the server is no
    /// longer listening.
    pub closed spec fn wf(&self) -> bool {
        &&& forall|i: int, j: int|
            0 <= i < j < self.conns@.len() ==> #[trigger] self.conns@[i] != #[trigger] self.conns@[j]
        &&& forall|k: int| 0 <= k < self.conns@.len() ==> #[trigger] self.conns@[k] < self.next_conn
        &&& (self.phase is Stopped ==> self.conns@.len() == 0)
        &&& (self.signal.fired_spec() <==> !(self.phase is Listening))
    }

    /// A freshly started server: listening, no connections yet. Binding the
    /// listening address is the caller's concern and precedes this.
    pub fn new() -> (s: TcpCaster)
        ensures
            s.wf(),
            s.phase_spec() is Listening,
            s.conns_spec() == Seq::<u64>::empty(),
            !s.signal_fired(),
    {
        TcpCaster { phase: ServerPhase::Listening, signal: ShutdownSignal::new(), conns: Vec::new(), next_conn: 0 }
    }

    /// One connection was accepted. While listening (and identities are not
    /// exhausted), it is registered as a new, never-seen identity and its
    /// forwarding task may start; once the shutdown signal has fired,
    /// nothing is accepted and nothing changes.
    pub fn on_accept(&mut self) -> (r: Option<u64>)
        requires
            old(self).wf(),
        ensures
            final(self).wf(),
            final(self).phase_spec() == old(self).phase_spec(),
            (old(self).phase_spec() is Listening && old(self).next_conn_spec() < u64::MAX) ==> {
                &&& (r matches Some(id) && id == old(self).next_conn_spec())
                &&& final(self).conns_spec() == old(self).conns_spec().push(
                    old(self).next_conn_spec(),
                )
                &&& !old(self).conns_spec().contains(old(self).next_conn_spec())
            },
            !(old(self).phase_spec() is Listening && old(self).next_conn_spec() < u64::MAX) ==> {
                &&& r is None
                &&& final(self).conns_spec() == old(self).conns_spec()
            },
    {
        if self.phase == ServerPhase::Listening && self.next_conn < u64::MAX {
            let id = self.next_conn;
            self.conns.push(id);
            self.next_conn = self.next_conn + 1;
            Some(id)
        } else {
            None
        }
    }

    /// One connection's forwarding task ended (the topic closed, the peer
    /// vanished, or a write failed) and is reaped: only that entry leaves
    /// the registry; every other connection is untouched.
    #[verifier::loop_isolation(false)]
    pub fn on_conn_exit(&mut self, id: u64)
        requires
            old(self).wf(),
        ensures
            final(self).wf(),
            final(self).phase_spec() == old(self).phase_spec(),
            !final(self).conns_spec().contains(id),
            forall|x: u64|
                x != id ==> (final(self).conns_spec().contains(x) <==> old(
                    self,
                ).conns_spec().contains(x)),
            final(self).conns_spec().len() == (if old(self).conns_spec().contains(id) {
                old(self).conns_spec().len() - 1
            } else {
                old(self).conns_spec().len() as int
            }),
    {
        let ghost orig = self.conns@;
        let mut i: usize = 0;
        while i < self.conns.len()
            invariant
                self.conns@ == orig,
                self.phase == old(self).phase,
                self.signal == old(self).signal,
                self.next_conn == old(self).next_conn,
                i <= orig.len(),
                forall|j: int| 0 <= j < i ==> orig[j] != id,
            decreases orig.len() - i,
        {
            if self.conns[i] == id {
                self.conns.remove(i);
                proof {
                    assert(orig[i as int] == id);
                    assert forall|x: u64| x != id implies (self.conns@.contains(x) <==> orig.contains(
                        x,
                    )) by {
                        if self.conns@.contains(x) {
                            let k = choose|k: int| 0 <= k < self.conns@.len() && self.conns@[k] == x;
                            if k < i {
                                assert(orig[k] == x);
                            } else {
                                assert(orig[k + 1] == x);
                            }
                        }
                        if orig.contains(x) {
                            let k = choose|k: int| 0 <= k < orig.len() && orig[k] == x;
                            if k < i {
                                assert(self.conns@[k] == x);
                            } else {
                                assert(k != i);
                                assert(self.conns@[k - 1] == x);
                            }
                        }
                    }
                    assert forall|k: int| 0 <= k < self.conns@.len() implies !(#[trigger] self.conns@[k]
                        == id) by {
                        if k < i {
                            assert(orig[k] == self.conns@[k]);
                        } else {
                            assert(orig[k + 1] == self.conns@[k]);
                        }
                    }
                    assert(!self.conns@.contains(id));
                    assert(orig.contains(id));
                    assert forall|a: int, b: int| 0 <= a < b < self.conns@.len() implies #[trigger] self.conns@[a]
                        != #[trigger] self.conns@[b] by {
                        if b < i {
                            assert(orig[a] == self.conns@[a] && orig[b] == self.conns@[b]);
                        } else if a < i {
                            assert(orig[a] == self.conns@[a] && orig[b + 1] == self.conns@[b]);
                        } else {
                            assert(orig[a + 1] == self.conns@[a] && orig[b + 1] == self.conns@[b]);
                        }
                    }
                    assert forall|k: int| 0 <= k < self.conns@.len() implies #[trigger] self.conns@[k]
                        < self.next_conn by {
                        if k < i {
                            assert(orig[k] == self.conns@[k]);
                        } else {
                            assert(orig[k + 1] == self.conns@[k]);
                        }
                    }
                }
                return ;
            }
            i = i + 1;
        }
        proof {
            if orig.contains(id) {
                let k = choose|k: int| 0 <= k < orig.len() && orig[k] == id;
                assert(false);
            }
        }
    }

    /// Fire the shutdown signal: a listening server stops accepting; firing
    /// again changes nothing. Outstanding connections are not yet touched.
    pub fn fire_stop(&mut self)
        requires
            old(self).wf(),
        ensures
            final(self).wf(),
            final(self).signal_fired(),
            final(self).conns_spec() == old(self).conns_spec(),
            final(self).phase_spec() == (if old(self).phase_spec() is Listening {
                ServerPhase::Stopping
            } else {
                old(self).phase_spec()
            }),
    {
        self.signal.fire();
        if self.phase == ServerPhase::Listening {
            self.phase = ServerPhase::Stopping;
        }
    }

    /// Complete the stop: every outstanding connection task is cancelled
    /// and reaped before this returns, so the stopped server leaks nothing.
    pub fn finish_stop(&mut self)
        requires
            old(self).wf(),
            old(self).phase_spec() is Stopping,
        ensures
            final(self).wf(),
            final(self).phase_spec() is Stopped,
            final(self).conns_spec().len() == 0,
            final(self).signal_fired(),
    {
        self.conns.clear();
        self.phase = ServerPhase::Stopped;
    }

    /// Stop the server: fire the shutdown signal, then cancel and reap all
    /// outstanding connection tasks. When this returns, no connection task
    /// remains and none will ever be accepted again.
    pub fn disconnect(&mut self)
        requires
            old(self).wf(),
        ensures
            final(self).wf(),
            final(self).phase_spec() is Stopped,
            final(self).conns_spec().len() == 0,
            final(self).signal_fired(),
    {
        self.fire_stop();
        if self.phase == ServerPhase::Stopping {
            self.finish_stop();
        }
    }

    /// How many connection tasks are outstanding.
    pub fn active_connections(&self) -> (n: usize)
        ensures
            n as int == self.conns_spec().len(),
    {
        self.conns.len()
    }
}

} // verus!
