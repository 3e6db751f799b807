//! Reconnect delays of the market-data WebSocket.

use vstd::prelude::*;

verus! {

/// Longest wait between reconnects, in seconds.
pub const MAX_BACKOFF_SECS: u64 = 30;

/// First wait between reconnects, in seconds.
pub const INITIAL_BACKOFF_SECS: u64 = 1;

/// Reconnect attempts after which the stream gives up.
pub const MAX_RECONNECT_ATTEMPTS: u32 = 10;

/// A session that stayed up longer than this (seconds) resets the delay.
pub const STABLE_SESSION_SECS: u64 = 60;

/// The doubling reconnect delay of the subscription loop: it starts at one
/// second, doubles after every wait up to 30 seconds, and falls back to one
/// second once a connection has stayed up for more than a minute.
pub struct ReconnectBackoff {
    delay_secs: u64,
}

impl ReconnectBackoff {
    /// The delay the next wait starts from.
    pub closed spec fn delay(self) -> int {
        self.delay_secs as int
    }

    /// Delays stay between one and 30 seconds.
    #[verifier::type_invariant]
    pub closed spec fn inv(self) -> bool {
        1 <= self.delay_secs <= MAX_BACKOFF_SECS
    }

    pub fn new() -> (b: ReconnectBackoff)
        ensures
            b.inv(),
            b.delay() == 1,
    {
        ReconnectBackoff { delay_secs: INITIAL_BACKOFF_SECS }
    }

    /// The current delay.
    pub fn delay_secs(&self) -> (d: u64)
        ensures
            d == self.delay(),
    {
        self.delay_secs
    }

    /// Sending a subscription failed: wait the current delay, then double
    /// it (at most 30 s). Returns the seconds to wait.
    pub fn after_subscribe_failure(&mut self) -> (wait: u64)
        ensures
            wait == old(self).delay(),
            final(self).delay() == if 2 * wait < 30 { 2 * wait } else { 30 },
    {
        proof { use_type_invariant(&*self); }
        let wait = self.delay_secs;
        self.delay_secs = if wait * 2 < MAX_BACKOFF_SECS { wait * 2 } else { MAX_BACKOFF_SECS };
        wait
    }

    /// A connection ended (or could not be made) `alive_secs` seconds after
    /// the last successful subscription: the delay falls back to one second
    /// if that is more than a minute, then the wait is taken and the delay
    /// doubled (at most 30 s). Returns the seconds to wait.
    pub fn after_disconnect(&mut self, alive_secs: u64) -> (wait: u64)
        ensures
            wait == if alive_secs > 60 { 1 } else { old(self).delay() },
            final(self).delay() == if 2 * wait < 30 { 2 * wait } else { 30 },
    {
        if alive_secs > STABLE_SESSION_SECS {
            self.delay_secs = INITIAL_BACKOFF_SECS;
        }
        self.after_subscribe_failure()
    }
}

/// Two to the power `n`.
pub open spec fn pow2(n: nat) -> nat
    decreases n,
{
    if n == 0 {
        1
    } else {
        2 * pow2((n - 1) as nat)
    }
}

/// The wait before reconnect attempt `attempt` (counted from one) of the
/// all-mids stream: 2^(attempt-1) seconds, at most 30; `None` once more
/// than ten attempts have been made, when the stream stops.
pub open spec fn attempt_backoff(attempt: nat) -> Option<nat> {
    if attempt > 10 {
        None
    } else {
        let b = pow2((if attempt == 0 { 0 } else { attempt - 1 }) as nat);
        Some(if b < 30 { b } else { 30 })
    }
}

pub fn reconnect_backoff_secs(attempt: u32) -> (r: Option<u64>)
    ensures
        match attempt_backoff(attempt as nat) {
            Some(b) => r == Some(b as u64) && r->0 == b,
            None => r is None,
        },
{
    if attempt > MAX_RECONNECT_ATTEMPTS {
        return None;
    }
    let exp: u32 = if attempt == 0 { 0 } else { attempt - 1 };
    let mut b: u64 = 1;
    let mut i: u32 = 0;
    while i < exp
        invariant
            exp <= 9,
            i <= exp,
            b == pow2(i as nat),
            b <= 512,
        decreases exp - i,
    {
        proof {
            assert(pow2((i + 1) as nat) == 2 * pow2(i as nat));
            lemma_pow2_monotone((i + 1) as nat, 9);
            assert(pow2(9) == 512) by { reveal_with_fuel(pow2, 10); }
        }
        b = b * 2;
        i = i + 1;
    }
    Some(if b < MAX_BACKOFF_SECS { b } else { MAX_BACKOFF_SECS })
}

proof fn lemma_pow2_monotone(i: nat, j: nat)
    requires
        i <= j,
    ensures
        pow2(i) <= pow2(j),
    decreases j,
{
    if i < j {
        lemma_pow2_monotone(i, (j - 1) as nat);
    }
}

/// Whatever state the subscription loop is in, every wait it takes is
/// between one and 30 seconds and the delay it keeps stays in that range.
pub proof fn lemma_backoff_waits_bounded(b: ReconnectBackoff, alive_secs: u64)
    requires
        b.inv(),
    ensures
        1 <= (if alive_secs > 60 { 1 } else { b.delay() }) <= 30,
{
}

} // verus!
