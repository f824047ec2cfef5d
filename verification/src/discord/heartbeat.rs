//! Periodic heartbeats and the tracking of their acknowledgements.
//!
//! The loop holds no timer. Its owner calls [`HeartbeatLoop::tick`] with the
//! current time and sends what it is told to send; times are milliseconds on
//! any monotonic clock.

use vstd::prelude::*;

verus! {

/// The number of consecutive unanswered heartbeats at which a link counts as
/// dead.
pub const MISSED_ACK_LIMIT: u8 = 2;

/// What a tick asks of the owner.
#[derive(Debug, Clone, Copy, PartialEq, Eq)]
pub enum Beat {
    /// No heartbeat is due yet.
    Idle,
    /// Send a heartbeat with this nonce.
    Send(u64),
    /// Too many heartbeats went unanswered: the link is dead.
    Dead,
}

/// The heartbeats of one connection: when the next one is due, and which one
/// is still unanswered.
#[derive(Debug, Clone, Copy, PartialEq, Eq)]
pub struct HeartbeatLoop {
    /// Time between two heartbeats.
    pub interval_ms: u64,
    /// When the next heartbeat is due.
    pub next_due_ms: u64,
    /// The nonce that the next heartbeat will carry.
    pub next_nonce: u64,
    /// The nonce of the heartbeat that has not been acknowledged yet.
    pub awaiting: Option<u64>,
    /// How many heartbeats in a row have gone unanswered.
    pub missed: u8,
    /// When the last acknowledgement arrived.
    pub last_ack_ms: Option<u64>,
}

/// `a + b`, stopping at the largest value.
pub open spec fn saturating_sum(a: u64, b: u64) -> u64 {
    if a + b > u64::MAX {
        u64::MAX
    } else {
        (a + b) as u64
    }
}

/// The nonce after `n`; the counter wraps around.
pub open spec fn following_nonce(n: u64) -> u64 {
    if n == u64::MAX {
        0
    } else {
        (n + 1) as u64
    }
}

impl HeartbeatLoop {
    /// A loop started at `now_ms`: its first heartbeat is due at once.
    pub open spec fn started(interval_ms: u64, now_ms: u64) -> HeartbeatLoop {
        HeartbeatLoop {
            interval_ms,
            next_due_ms: now_ms,
            next_nonce: 0,
            awaiting: None,
            missed: 0,
            last_ack_ms: None,
        }
    }

    /// The loop started again at `now_ms` on a new connection: nothing is
    /// outstanding, the next heartbeat is due at once, and the interval and
    /// the nonce counter carry over.
    pub open spec fn restarted(self, now_ms: u64) -> HeartbeatLoop {
        HeartbeatLoop { next_due_ms: now_ms, awaiting: None, missed: 0, ..self }
    }

    /// Whether a heartbeat is due at `now_ms`.
    pub open spec fn due(self, now_ms: u64) -> bool {
        self.next_due_ms <= now_ms
    }

    /// Whether a heartbeat that falls due now finds the link dead: the
    /// previous one is unanswered, and with it the limit is reached.
    pub open spec fn exhausted(self) -> bool {
        self.awaiting is Some && self.missed + 1 >= MISSED_ACK_LIMIT
    }

    /// What holds of a loop while its link is alive: fewer heartbeats than
    /// the limit have gone unanswered in a row, and none if nothing is
    /// outstanding.
    pub open spec fn healthy(self) -> bool {
        &&& self.missed < MISSED_ACK_LIMIT
        &&& self.awaiting is None ==> self.missed == 0
    }

    /// The loop and the request after a tick at `now_ms`.
    pub open spec fn ticked(self, now_ms: u64) -> (HeartbeatLoop, Beat) {
        if !self.due(now_ms) {
            (self, Beat::Idle)
        } else if self.exhausted() {
            (HeartbeatLoop { missed: MISSED_ACK_LIMIT, ..self }, Beat::Dead)
        } else {
            (
                HeartbeatLoop {
                    next_due_ms: saturating_sum(now_ms, self.interval_ms),
                    next_nonce: following_nonce(self.next_nonce),
                    awaiting: Some(self.next_nonce),
                    missed: if self.awaiting is Some {
                        (self.missed + 1) as u8
                    } else {
                        0
                    },
                    ..self
                },
                Beat::Send(self.next_nonce),
            )
        }
    }

    /// The loop after an acknowledgement of `nonce` at `now_ms`, and whether
    /// the nonce was the outstanding one. A nonce that does not match leaves
    /// the loop as it was.
    pub open spec fn acked(self, nonce: u64, now_ms: u64) -> (HeartbeatLoop, bool) {
        if self.awaiting == Some(nonce) {
            (HeartbeatLoop { awaiting: None, missed: 0, last_ack_ms: Some(now_ms), ..self }, true)
        } else {
            (self, false)
        }
    }

    /// Starts a loop at `now_ms`. Its first heartbeat is due at once.
    pub fn new(interval_ms: u64, now_ms: u64) -> (r: HeartbeatLoop)
        ensures
            r == HeartbeatLoop::started(interval_ms, now_ms),
    {
        HeartbeatLoop {
            interval_ms,
            next_due_ms: now_ms,
            next_nonce: 0,
            awaiting: None,
            missed: 0,
            last_ack_ms: None,
        }
    }

    /// Starts the loop again on a new connection.
    pub fn restart(&mut self, now_ms: u64)
        ensures
            *final(self) == old(self).restarted(now_ms),
    {
        self.next_due_ms = now_ms;
        self.awaiting = None;
        self.missed = 0;
    }

    /// Advances the loop to `now_ms` and says what to do.
    pub fn tick(&mut self, now_ms: u64) -> (beat: Beat)
        ensures
            (*final(self), beat) == old(self).ticked(now_ms),
    {
        if now_ms < self.next_due_ms {
            return Beat::Idle;
        }
        let unanswered = self.awaiting.is_some();
        if unanswered && self.missed >= MISSED_ACK_LIMIT - 1 {
            self.missed = MISSED_ACK_LIMIT;
            return Beat::Dead;
        }
        let nonce = self.next_nonce;
        self.next_due_ms = now_ms.saturating_add(self.interval_ms);
        self.next_nonce = nonce.wrapping_add(1);
        self.awaiting = Some(nonce);
        self.missed = if unanswered {
            self.missed + 1
        } else {
            0
        };
        Beat::Send(nonce)
    }

    /// Records an acknowledgement. Returns whether its nonce matched the
    /// outstanding heartbeat.
    pub fn ack(&mut self, nonce: u64, now_ms: u64) -> (matched: bool)
        ensures
            (*final(self), matched) == old(self).acked(nonce, now_ms),
    {
        let matched = match self.awaiting {
            Some(expected) => expected == nonce,
            None => false,
        };
        if matched {
            self.awaiting = None;
            self.missed = 0;
            self.last_ack_ms = Some(now_ms);
        }
        matched
    }
}

/// Two heartbeats in a row without an acknowledgement are fatal: once one
/// heartbeat is unanswered when the next falls due, and that one is unanswered
/// in turn when a third falls due, the third tick reports the link dead.
pub proof fn lemma_two_missed_acks_are_fatal(h: HeartbeatLoop, t0: u64, t1: u64, t2: u64)
    requires
        h.awaiting is None,
        h.due(t0),
        h.ticked(t0).0.due(t1),
        h.ticked(t0).0.ticked(t1).0.due(t2),
    ensures
        h.ticked(t0).1 == Beat::Send(h.next_nonce),
        h.ticked(t0).0.ticked(t1).1 == Beat::Send(following_nonce(h.next_nonce)),
        h.ticked(t0).0.ticked(t1).0.ticked(t2).1 == Beat::Dead,
{
}

/// A loop stays healthy as long as it does not report the link dead.
pub proof fn lemma_loop_stays_healthy(h: HeartbeatLoop, nonce: u64, now_ms: u64, interval_ms: u64)
    requires
        h.healthy(),
    ensures
        HeartbeatLoop::started(interval_ms, now_ms).healthy(),
        h.restarted(now_ms).healthy(),
        h.acked(nonce, now_ms).0.healthy(),
        h.ticked(now_ms).1 != Beat::Dead ==> h.ticked(now_ms).0.healthy(),
{
}

/// An acknowledgement of the outstanding heartbeat clears the count of
/// missed ones, so that the next tick that falls due sends again.
pub proof fn lemma_ack_restores(h: HeartbeatLoop, nonce: u64, t_ack: u64, t: u64)
    requires
        h.awaiting == Some(nonce),
        h.acked(nonce, t_ack).0.due(t),
    ensures
        h.acked(nonce, t_ack).1,
        h.acked(nonce, t_ack).0.missed == 0,
        h.acked(nonce, t_ack).0.ticked(t).1 == Beat::Send(h.next_nonce),
{
}

} // verus!
