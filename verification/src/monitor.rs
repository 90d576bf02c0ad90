//! The socket availability monitor: waiting, within a bound, for the
//! daemon's endpoint to appear.
//!
//! The existence of the endpoint is a hint that the daemon has come as far as
//! binding it, not a proof that it accepts connections.
//!
//! The monitor itself neither sleeps nor looks at the file system.
//! [`poll_socket`] decides, from the time that has passed and from what the
//! caller saw, whether to stop or to pause and look again. [`await_socket`]
//! runs those decisions against a clock on which a look takes no time and a
//! pause lasts exactly as long as asked, and so tells what the monitor
//! reports for a daemon that binds its endpoint at a given moment.

use vstd::prelude::*;

verus! {

/// The pause between two looks at the endpoint, in milliseconds.
pub const POLL_INTERVAL_MS: u64 = 100;

/// How long a silently started daemon is given to create its endpoint, in
/// milliseconds.
pub const SOCKET_WAIT_MS: u64 = 3000;

/// What the monitor does after a look at the endpoint.
#[derive(Clone, Copy, Debug, PartialEq, Eq, Structural)]
pub enum PollStep {
    /// The endpoint is there: stop.
    Appeared,
    /// The endpoint is not there yet: pause for this many milliseconds, then
    /// look again.
    Wait { millis: u64 },
    /// The waiting time is over: stop.
    TimedOut,
}

/// What a wait for the endpoint came to.
#[derive(Clone, Copy, Debug, PartialEq, Eq, Structural)]
pub struct AwaitReport {
    /// Whether the endpoint was seen.
    pub appeared: bool,
    /// How long the wait lasted, in milliseconds.
    pub waited_ms: u64,
}

/// The decision after a look at the endpoint, `elapsed` milliseconds into a
/// wait of `timeout` milliseconds.
///
/// Once the waiting time is over the wait ends, whatever the look showed.
pub open spec fn poll_step(elapsed: nat, timeout: nat, endpoint_exists: bool) -> PollStep {
    if elapsed >= timeout {
        PollStep::TimedOut
    } else if endpoint_exists {
        PollStep::Appeared
    } else {
        PollStep::Wait { millis: POLL_INTERVAL_MS }
    }
}

/// The first moment at or after `moment` at which the monitor looks at the
/// endpoint: the looks are one interval apart, starting at zero.
pub open spec fn next_look(moment: nat) -> nat {
    (((moment + POLL_INTERVAL_MS - 1) / (POLL_INTERVAL_MS as int)) * POLL_INTERVAL_MS) as nat
}

/// Whether a wait of `timeout` milliseconds sees an endpoint that is created
/// at `created_at`, or never where that is `None`: it does if it looks at or
/// after the creation while the waiting time is not over.
pub open spec fn seen_in_time(timeout: nat, created_at: Option<nat>) -> bool {
    match created_at {
        Some(moment) => next_look(moment) < timeout,
        None => false,
    }
}

/// How long a wait of `timeout` milliseconds lasts: up to the look that sees
/// the endpoint, or else up to the first look at or after the end of the
/// waiting time.
pub open spec fn wait_length(timeout: nat, created_at: Option<nat>) -> nat {
    match created_at {
        Some(moment) if next_look(moment) < timeout => next_look(moment),
        _ => next_look(timeout),
    }
}

/// `next_look` gives a moment at which the monitor looks, and that is less
/// than one interval after the moment asked about.
pub proof fn lemma_next_look(moment: nat)
    ensures
        next_look(moment) % POLL_INTERVAL_MS as nat == 0,
        moment <= next_look(moment) < moment + POLL_INTERVAL_MS,
{
    let q = (moment + 100 - 1) / 100;
    assert((q * 100) % 100 == 0) by (nonlinear_arith);
    assert(moment <= q * 100 < moment + 100) by (nonlinear_arith)
        requires
            q == (moment + 100 - 1) / 100,
    ;
}

/// The only moment of a look between `moment` and one interval later is
/// `next_look(moment)`.
pub proof fn lemma_next_look_unique(moment: nat, look: nat)
    requires
        look % POLL_INTERVAL_MS as nat == 0,
        moment <= look < moment + POLL_INTERVAL_MS,
    ensures
        next_look(moment) == look,
{
    lemma_next_look(moment);
    let other = next_look(moment);
    assert(other == look) by (nonlinear_arith)
        requires
            look % 100 == 0,
            other % 100 == 0,
            moment <= look < moment + 100,
            moment <= other < moment + 100,
    ;
}

/// The moment of the last look of a wait of `timeout` milliseconds, which
/// must not be zero: a wait of no time does not look at all.
pub open spec fn last_look(timeout: nat) -> nat {
    (next_look(timeout) - POLL_INTERVAL_MS) as nat
}

/// A wait sees the endpoint exactly if the endpoint is created no later
/// than the wait looks for the last time. An endpoint that is created after
/// the last look, though before the waiting time is over, goes unseen.
pub proof fn lemma_seen_iff_created_by_last_look(timeout: nat, moment: nat)
    requires
        timeout > 0,
    ensures
        last_look(timeout) < timeout <= last_look(timeout) + POLL_INTERVAL_MS,
        seen_in_time(timeout, Some(moment)) <==> moment <= last_look(timeout),
{
    lemma_next_look(timeout);
    lemma_next_look(moment);
    let last = last_look(timeout);
    assert(next_look(timeout) >= POLL_INTERVAL_MS);
    assert(last % 100 == 0) by (nonlinear_arith)
        requires
            next_look(timeout) % 100 == 0,
            next_look(timeout) >= 100,
            last == next_look(timeout) - 100,
    ;
    if moment <= last {
        assert(next_look(moment) <= last) by (nonlinear_arith)
            requires
                next_look(moment) % 100 == 0,
                last % 100 == 0,
                moment <= last,
                moment <= next_look(moment) < moment + 100,
        ;
    }
}

/// An endpoint that is created at least one interval before the waiting
/// time is over is seen.
pub proof fn lemma_created_early_is_seen(timeout: nat, moment: nat)
    requires
        moment + POLL_INTERVAL_MS <= timeout,
    ensures
        seen_in_time(timeout, Some(moment)),
{
    lemma_next_look(moment);
}

/// An endpoint that is created at the moment of one of the monitor's looks,
/// before the waiting time is over, is seen at that very moment.
pub proof fn lemma_created_at_a_look_is_seen(timeout: nat, moment: nat)
    requires
        moment % POLL_INTERVAL_MS as nat == 0,
        moment < timeout,
    ensures
        seen_in_time(timeout, Some(moment)),
        wait_length(timeout, Some(moment)) == moment,
{
    lemma_next_look_unique(moment, moment);
}

/// An endpoint that is never created, or not before the waiting time is
/// over, is not seen.
pub proof fn lemma_created_late_is_not_seen(timeout: nat, created_at: Option<nat>)
    requires
        created_at matches Some(moment) ==> moment >= timeout,
    ensures
        !seen_in_time(timeout, created_at),
{
    if let Some(moment) = created_at {
        lemma_next_look(moment);
    }
}

/// A wait never lasts as long as the waiting time and one interval
/// together, and a wait that sees the endpoint ends before the waiting time
/// is over.
pub proof fn lemma_wait_is_bounded(timeout: nat, created_at: Option<nat>)
    ensures
        wait_length(timeout, created_at) < timeout + POLL_INTERVAL_MS,
        seen_in_time(timeout, created_at) ==> wait_length(timeout, created_at) < timeout,
        !seen_in_time(timeout, created_at) ==> wait_length(timeout, created_at) >= timeout,
{
    lemma_next_look(timeout);
}

/// Decides what to do after a look at the endpoint, `elapsed_ms` into a wait
/// of `timeout_ms`.
pub fn poll_socket(elapsed_ms: u64, timeout_ms: u64, endpoint_exists: bool) -> (step: PollStep)
    ensures
        step == poll_step(elapsed_ms as nat, timeout_ms as nat, endpoint_exists),
{
    if elapsed_ms >= timeout_ms {
        PollStep::TimedOut
    } else if endpoint_exists {
        PollStep::Appeared
    } else {
        PollStep::Wait { millis: POLL_INTERVAL_MS }
    }
}

/// Tells what a wait of `timeout_ms` reports for an endpoint that is created
/// `created_at_ms` into the wait, or never where that is `None`, on a clock
/// on which a look takes no time and a pause lasts exactly as long as asked.
///
/// The waiting time must leave room for one more interval in 64 bits.
pub fn await_socket(timeout_ms: u64, created_at_ms: Option<u64>) -> (report: AwaitReport)
    requires
        timeout_ms + POLL_INTERVAL_MS <= u64::MAX,
    ensures
        report.appeared == seen_in_time(timeout_ms as nat, to_moment(created_at_ms)),
        report.waited_ms == wait_length(timeout_ms as nat, to_moment(created_at_ms)),
{
    let ghost created_at = to_moment(created_at_ms);
    let mut elapsed: u64 = 0;
    loop
        invariant
            timeout_ms + POLL_INTERVAL_MS <= u64::MAX,
            created_at == to_moment(created_at_ms),
            elapsed % POLL_INTERVAL_MS == 0,
            elapsed < timeout_ms + POLL_INTERVAL_MS,
            elapsed >= POLL_INTERVAL_MS ==> elapsed - POLL_INTERVAL_MS < timeout_ms,
            created_at_ms matches Some(moment) ==> elapsed < moment + POLL_INTERVAL_MS,
        decreases timeout_ms + POLL_INTERVAL_MS - elapsed,
    {
        let exists: bool = match created_at_ms {
            Some(moment) => moment <= elapsed,
            None => false,
        };
        match poll_socket(elapsed, timeout_ms, exists) {
            PollStep::Appeared => {
                proof {
                    lemma_next_look_unique(created_at->0, elapsed as nat);
                }
                return AwaitReport { appeared: true, waited_ms: elapsed };
            },
            PollStep::TimedOut => {
                proof {
                    if elapsed >= POLL_INTERVAL_MS {
                        lemma_next_look_unique(timeout_ms as nat, elapsed as nat);
                    }
                    if let Some(moment) = created_at {
                        lemma_next_look(moment);
                        if moment <= elapsed {
                            lemma_next_look_unique(moment, elapsed as nat);
                        }
                    }
                }
                return AwaitReport { appeared: false, waited_ms: elapsed };
            },
            PollStep::Wait { millis } => {
                elapsed = elapsed + millis;
            },
        }
    }
}

/// A moment given in 64 bits, as a natural number.
pub open spec fn to_moment(at_ms: Option<u64>) -> Option<nat> {
    match at_ms {
        Some(moment) => Some(moment as nat),
        None => None,
    }
}

} // verus!
