//! A debouncer: it lets one signal through per quiet interval.

use std::time::Duration;
use std::time::Instant;
use vstd::prelude::*;

verus! {

/// Minimum time, in milliseconds, between two database-change signals.
pub const DEBOUNCE_INTERVAL_MS: u128 = 1000;

/// Nanoseconds in a millisecond.
pub const NANOS_PER_MILLI: u128 = 1_000_000;

/// Minimum time, in nanoseconds, between two database-change signals.
pub const DEBOUNCE_INTERVAL_NANOS: u128 = DEBOUNCE_INTERVAL_MS * NANOS_PER_MILLI;

/// `std::time::Instant`, a reading of the monotonic clock. Nothing is
/// known of its value.
#[verifier::external_type_specification]
#[verifier::external_body]
pub struct ExInstant(Instant);

/// `Instant::now` reads the monotonic clock; the reading depends on when
/// the call is made, so nothing is claimed of it.
pub assume_specification[ Instant::now ]() -> (reading: Instant)
;

/// `Instant::elapsed` measures the time since the reading was taken; it
/// depends on when the call is made, so nothing is claimed of it.
pub assume_specification[ Instant::elapsed ](reading: &Instant) -> (since: Duration)
;

/// `Duration::as_nanos` gives the nanoseconds in a duration. A duration
/// is opaque here, so nothing is claimed of the number.
pub assume_specification[ Duration::as_nanos ](duration: &Duration) -> (nanos: u128)
;

/// Time from `earlier` to `now`, zero when `now` is not after `earlier`.
pub open spec fn elapsed_between(earlier: nat, now: nat) -> nat {
    if now >= earlier {
        (now - earlier) as nat
    } else {
        0
    }
}

/// Whether a signal at `now` fires: the first signal always does, a
/// later one when at least `min_interval` has passed since the last one
/// that fired.
pub open spec fn is_due(last_fire: Option<nat>, min_interval: nat, now: nat) -> bool {
    match last_fire {
        None => true,
        Some(fired_at) => elapsed_between(fired_at, now) >= min_interval,
    }
}

/// The time of the last fire after a signal at `now`.
pub open spec fn last_fire_after(last_fire: Option<nat>, min_interval: nat, now: nat) -> Option<
    nat,
> {
    if is_due(last_fire, min_interval, now) {
        Some(now)
    } else {
        last_fire
    }
}

/// Collapses a burst of signals into one: the first signal fires, and a
/// later one only when at least `min_interval` has passed since the last
/// one that fired.
///
/// Times are nanoseconds on the debouncer's own clock, which starts when
/// the debouncer is made.
pub struct Debouncer {
    origin: Instant,
    last_fire: Option<u128>,
    min_interval: u128,
}

impl Debouncer {
    /// Time of the last signal that fired, if one has.
    pub closed spec fn last_fire(&self) -> Option<nat> {
        match self.last_fire {
            Some(fired_at) => Some(fired_at as nat),
            None => None,
        }
    }

    /// Minimum time between two signals that fire.
    pub closed spec fn min_interval(&self) -> nat {
        self.min_interval as nat
    }

    /// A debouncer that has not fired yet: its first signal fires
    /// whenever it comes.
    pub fn new(min_interval: u128) -> (debouncer: Debouncer)
        ensures
            debouncer.last_fire() is None,
            debouncer.min_interval() == min_interval,
    {
        Debouncer { origin: Instant::now(), last_fire: None, min_interval }
    }

    /// Decides a signal that arrives at `now`: it fires, and becomes the
    /// last fire, exactly when it is the first signal or nothing has
    /// fired for the interval.
    pub fn try_fire(&mut self, now: u128) -> (fired: bool)
        ensures
            fired == is_due(old(self).last_fire(), old(self).min_interval(), now as nat),
            final(self).last_fire() == last_fire_after(
                old(self).last_fire(),
                old(self).min_interval(),
                now as nat,
            ),
            final(self).min_interval() == old(self).min_interval(),
    {
        let due = match self.last_fire {
            None => true,
            Some(fired_at) => {
                let elapsed: u128 = if now >= fired_at {
                    now - fired_at
                } else {
                    0
                };
                elapsed >= self.min_interval
            },
        };
        if due {
            self.last_fire = Some(now);
        }
        due
    }

    /// Decides a signal that arrives at the present moment, read from the
    /// debouncer's own clock. The first signal fires whatever the clock
    /// says.
    pub fn debounce(&mut self) -> (fired: bool)
        ensures
            final(self).min_interval() == old(self).min_interval(),
            exists|now: nat|
                fired == is_due(old(self).last_fire(), old(self).min_interval(), now)
                    && final(self).last_fire() == #[trigger] last_fire_after(
                    old(self).last_fire(),
                    old(self).min_interval(),
                    now,
                ),
            old(self).last_fire() is None ==> fired,
            fired ==> final(self).last_fire() is Some,
            !fired ==> final(self).last_fire() == old(self).last_fire(),
    {
        let since: Duration = self.origin.elapsed();
        let now: u128 = since.as_nanos();
        let ghost before = self.last_fire();
        let ghost interval = self.min_interval();
        let fired = self.try_fire(now);
        assert(self.last_fire() == last_fire_after(before, interval, now as nat));
        fired
    }
}

/// The first signal fires, whenever it comes, and becomes the last fire.
pub proof fn lemma_first_signal_fires(min_interval: nat, now: nat)
    ensures
        is_due(None, min_interval, now),
        last_fire_after(None, min_interval, now) == Some(now),
{
}

/// Within the interval after a fire no signal fires; from the end of
/// the interval on the next one does, and becomes the new last fire.
pub proof fn lemma_quiet_window(fired_at: nat, min_interval: nat, later: nat)
    requires
        later >= fired_at,
    ensures
        is_due(Some(fired_at), min_interval, later) <==> later - fired_at >= min_interval,
        later - fired_at < min_interval ==> last_fire_after(
            Some(fired_at),
            min_interval,
            later,
        ) == Some(fired_at),
        later - fired_at >= min_interval ==> last_fire_after(
            Some(fired_at),
            min_interval,
            later,
        ) == Some(later),
{
}

/// Of two signals closer together than the interval at most the first
/// fires, whether or not anything fired before them.
pub proof fn lemma_burst_fires_once(
    last_fire: Option<nat>,
    min_interval: nat,
    first: nat,
    second: nat,
)
    requires
        first <= second,
        second - first < min_interval,
        is_due(last_fire, min_interval, first),
    ensures
        !is_due(last_fire_after(last_fire, min_interval, first), min_interval, second),
{
}

/// A signal, a second half an interval later and a third a whole
/// interval after the first: the first and the third fire, the second
/// does not, whenever the first comes. (With an interval of zero every
/// signal fires.)
pub proof fn lemma_fires_suppresses_fires(min_interval: nat, first: nat)
    requires
        min_interval > 0,
    ensures
        is_due(None, min_interval, first),
        !is_due(Some(first), min_interval, first + min_interval / 2),
        is_due(Some(first), min_interval, first + min_interval),
{
}

} // verus!
