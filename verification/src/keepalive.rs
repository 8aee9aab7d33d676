//! The keepalive rule shared by client and server: every 30 seconds a `ping`
//! goes out, and a peer that has sent no `pong` for 60 seconds is taken as gone.

use vstd::prelude::*;

verus! {

/// Seconds between two pings.
pub const PING_INTERVAL_SECS: u64 = 30;

/// Seconds without a `pong` after which the peer is taken as gone.
pub const PONG_TIMEOUT_SECS: u64 = 60;

/// Pings that may stay unanswered: the tick after an unanswered ping ends the
/// connection, so the second tick after the last `pong` does, at most
/// `2 * PING_INTERVAL_SECS` = `PONG_TIMEOUT_SECS` after it.
pub const MAX_UNANSWERED_PINGS: u8 = 1;

/// What a ping tick asks for.
#[derive(Debug, Clone, Copy, PartialEq, Eq, Structural)]
pub enum TickAction {
    /// Send a `ping`.
    SendPing,
    /// No `pong` came within the limit: the connection is dead.
    TimedOut,
}

/// One ping tick with `n` pings unanswered: the new count and what to do.
pub open spec fn keepalive_tick(n: nat) -> (nat, TickAction) {
    if n < MAX_UNANSWERED_PINGS {
        (n + 1, TickAction::SendPing)
    } else {
        (n, TickAction::TimedOut)
    }
}

/// After a `pong`, the first tick sends a ping and the second declares the peer
/// gone unless a `pong` came in between; a `pong` before each next tick keeps
/// the connection.
pub proof fn lemma_silent_peer_times_out_on_second_tick()
    ensures
        keepalive_tick(0).1 == TickAction::SendPing,
        keepalive_tick(keepalive_tick(0).0).1 == TickAction::TimedOut,
{
}

/// In seconds: ticks come every `PING_INTERVAL_SECS`, so with the first tick after
/// the last `pong` coming `first_tick` seconds after it (at most one interval),
/// the tick that ends a silent peer's connection comes at most
/// `PONG_TIMEOUT_SECS` (60 s) after that `pong`.
pub proof fn lemma_silent_peer_dropped_within_timeout(first_tick: int)
    requires
        0 < first_tick <= PING_INTERVAL_SECS,
    ensures
        keepalive_tick(keepalive_tick(0).0).1 == TickAction::TimedOut,
        first_tick + PING_INTERVAL_SECS <= PONG_TIMEOUT_SECS,
{
}

/// Counts the pings sent since the last `pong`.
#[derive(Debug)]
pub struct Keepalive {
    unanswered: u8,
}

impl Keepalive {
    #[verifier::type_invariant]
    spec fn well_formed(self) -> bool {
        self.unanswered <= MAX_UNANSWERED_PINGS
    }

    /// Pings sent since the last `pong` (or since the start).
    pub closed spec fn unanswered_pings(self) -> nat {
        self.unanswered as nat
    }

    /// No ping sent yet.
    pub fn new() -> (r: Self)
        ensures
            r.unanswered_pings() == 0,
    {
        Keepalive { unanswered: 0 }
    }

    /// The ping timer fired: send another ping, unless the pings already sent
    /// went unanswered for too long.
    pub fn on_tick(&mut self) -> (r: TickAction)
        ensures
            (final(self).unanswered_pings(), r) == keepalive_tick(old(self).unanswered_pings()),
            final(self).unanswered_pings() <= MAX_UNANSWERED_PINGS,
    {
        proof { use_type_invariant(&*self); }
        if self.unanswered >= MAX_UNANSWERED_PINGS {
            TickAction::TimedOut
        } else {
            self.unanswered = self.unanswered + 1;
            TickAction::SendPing
        }
    }

    /// A `pong` arrived.
    pub fn on_pong(&mut self)
        ensures
            final(self).unanswered_pings() == 0,
    {
        self.unanswered = 0;
    }
}

} // verus!
