//! Ping/pong liveness bookkeeping.
//!
//! The signalling layer keeps two timestamps: when the last ping was sent and
//! when the last pong (or ping) was received.  A ping is due 15 seconds after
//! the last ping; the session times out 60 seconds after the last pong.  The
//! timers themselves run outside the library; callers pass the current time
//! in milliseconds and act on the decision returned here.

use vstd::prelude::*;

use crate::error::TimeoutError;

verus! {

/// Milliseconds between outgoing pings.
pub const PING_INTERVAL_MS: u64 = 15 * 1000;

/// Milliseconds of pong silence after which the session is dead.
pub const PONG_TIMEOUT_MS: u64 = 60 * 1000;

/// The two liveness timestamps, in milliseconds of a monotone clock.
#[derive(Debug, Clone, Copy, PartialEq, Eq, Structural)]
pub struct Ping {
    pub last_ping: u64,
    pub last_pong: u64,
}

/// The decision that a ping must be sent now.
#[derive(Debug, Clone, Copy, PartialEq, Eq, Structural)]
pub struct MustPing;

impl Ping {
    /// Both timestamps start at the moment the channel opens.
    pub fn new(now: u64) -> (r: Ping)
        ensures
            r.last_ping == now,
            r.last_pong == now,
    {
        Ping { last_ping: now, last_pong: now }
    }

    /// Record that a ping was sent now; the pong deadline is untouched.
    pub fn sent_ping(&mut self, now: u64)
        ensures
            final(self).last_ping == now,
            final(self).last_pong == old(self).last_pong,
    {
        self.last_ping = now;
    }

    /// Record that a pong (or a peer ping, which proves the same liveness)
    /// arrived now: both deadlines are pushed out.
    pub fn received_pong(&mut self, now: u64)
        ensures
            final(self).last_ping == now,
            final(self).last_pong == now,
    {
        self.last_ping = now;
        self.last_pong = now;
    }

    /// What the liveness race decides at time `now`: a timeout exactly when
    /// 60 seconds passed without a pong; otherwise a ping is owed exactly
    /// when 15 seconds passed since the last one; otherwise nothing yet.
    pub fn poll(&self, now: u64) -> (r: Result<Option<MustPing>, TimeoutError>)
        requires
            now >= self.last_ping,
            now >= self.last_pong,
        ensures
            r is Err <==> now - self.last_pong >= PONG_TIMEOUT_MS,
            r == Ok::<Option<MustPing>, TimeoutError>(Some(MustPing)) <==> (now - self.last_pong
                < PONG_TIMEOUT_MS && now - self.last_ping >= PING_INTERVAL_MS),
            r == Ok::<Option<MustPing>, TimeoutError>(None) <==> (now - self.last_pong
                < PONG_TIMEOUT_MS && now - self.last_ping < PING_INTERVAL_MS),
    {
        if now - self.last_pong >= PONG_TIMEOUT_MS {
            Err(TimeoutError)
        } else if now - self.last_ping >= PING_INTERVAL_MS {
            Ok(Some(MustPing))
        } else {
            Ok(None)
        }
    }

    /// The next instant at which `poll` can decide something: the earlier of
    /// the ping and pong deadlines.  Sleeping until it loses no event.
    pub fn next_deadline(&self) -> (r: u64)
        requires
            self.last_ping + PING_INTERVAL_MS <= u64::MAX,
            self.last_pong + PONG_TIMEOUT_MS <= u64::MAX,
        ensures
            r == if self.last_ping + PING_INTERVAL_MS <= self.last_pong + PONG_TIMEOUT_MS {
                self.last_ping + PING_INTERVAL_MS
            } else {
                self.last_pong + PONG_TIMEOUT_MS
            },
    {
        let ping_deadline = self.last_ping + PING_INTERVAL_MS;
        let pong_deadline = self.last_pong + PONG_TIMEOUT_MS;
        if ping_deadline <= pong_deadline {
            ping_deadline
        } else {
            pong_deadline
        }
    }
}

} // verus!
