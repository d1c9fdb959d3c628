//! A timed restriction: a fixed span and the instant it was last armed.
//!
//! Instants and spans are whole nanoseconds; an instant counts from the Unix
//! epoch. A timer that was never armed, or that was cleared, starts at the
//! epoch itself.

use vstd::prelude::*;
use crate::clock::now_nanos;

verus! {

#[derive(Clone, Copy, Debug, PartialEq, Eq, Structural)]
pub struct Cooldown {
    /// How long the restriction lasts once armed.
    pub duration: u128,
    /// When the restriction was last armed.
    pub start: u128,
}

impl Cooldown {
    /// A timer of the given span that was never armed.
    pub open spec fn idle(duration: u128) -> Cooldown {
        Cooldown { duration, start: 0 }
    }

    /// The same timer, armed at `now`.
    pub open spec fn armed(self, now: u128) -> Cooldown {
        Cooldown { duration: self.duration, start: now }
    }

    /// The same timer, cleared.
    pub open spec fn cleared(self) -> Cooldown {
        Cooldown { duration: self.duration, start: 0 }
    }

    /// Time that has passed at `now` since the timer was armed. A clock that
    /// reads earlier than the arming instant counts as no time passed.
    pub open spec fn elapsed_at(self, now: nat) -> nat {
        if now >= self.start {
            (now - self.start) as nat
        } else {
            0
        }
    }

    /// Time left at `now`: the span less the elapsed time, floored at zero.
    pub open spec fn remaining_at(self, now: nat) -> nat {
        if self.elapsed_at(now) < self.duration {
            (self.duration - self.elapsed_at(now)) as nat
        } else {
            0
        }
    }

    /// Whether the restriction still holds at `now`.
    pub open spec fn active_at(self, now: nat) -> bool {
        self.elapsed_at(now) < self.duration
    }

    pub fn new(duration: u128) -> (timer: Cooldown)
        ensures
            timer == Cooldown::idle(duration),
    {
        Cooldown { duration, start: 0 }
    }

    /// Time left at the instant `now`.
    pub fn get_remaining_time_at(&self, now: u128) -> (left: u128)
        ensures
            left == self.remaining_at(now as nat),
    {
        let elapsed: u128 = if now >= self.start {
            now - self.start
        } else {
            0
        };
        if elapsed < self.duration {
            self.duration - elapsed
        } else {
            0
        }
    }

    /// Whether the restriction holds at the instant `now`.
    pub fn is_in_cooldown_at(&self, now: u128) -> (active: bool)
        ensures
            active == self.active_at(now as nat),
            active == (self.remaining_at(now as nat) > 0),
    {
        self.get_remaining_time_at(now) > 0
    }

    /// Arms the timer at the instant `now`.
    pub fn put_in_cooldown_at(&mut self, now: u128)
        ensures
            *final(self) == old(self).armed(now),
    {
        self.start = now;
    }

    /// Time left by the wall clock: the value of `remaining_at` at whatever
    /// instant the clock gave.
    pub fn get_remaining_time(&self) -> (left: u128)
        ensures
            exists|now: nat| left == #[trigger] self.remaining_at(now),
    {
        let now: u128 = now_nanos();
        let left: u128 = self.get_remaining_time_at(now);
        assert(left == self.remaining_at(now as nat));
        left
    }

    /// Whether the restriction holds by the wall clock.
    pub fn is_in_cooldown(&self) -> (active: bool)
        ensures
            exists|now: nat| active == #[trigger] self.active_at(now),
    {
        let now: u128 = now_nanos();
        let active: bool = self.is_in_cooldown_at(now);
        assert(active == self.active_at(now as nat));
        active
    }

    /// Arms the timer at the instant the wall clock gives.
    pub fn put_in_cooldown(&mut self)
        ensures
            exists|now: u128| *final(self) == #[trigger] old(self).armed(now),
    {
        let now: u128 = now_nanos();
        self.put_in_cooldown_at(now);
        assert(*final(self) == old(self).armed(now));
    }

    /// Forces the timer back to the never-armed state.
    pub fn clear_cooldown(&mut self)
        ensures
            *final(self) == old(self).cleared(),
    {
        self.start = 0;
    }
}

/// A timer is active exactly when time is left on it.
pub proof fn lemma_active_iff_time_left(timer: Cooldown, now: nat)
    ensures
        timer.active_at(now) <==> timer.remaining_at(now) > 0,
        timer.remaining_at(now) <= timer.duration,
{
}

/// A timer armed at `now` with a positive span is active at `now`, with the
/// whole span left.
pub proof fn lemma_armed_is_active(timer: Cooldown, now: u128)
    requires
        timer.duration > 0,
    ensures
        timer.armed(now).active_at(now as nat),
        timer.armed(now).remaining_at(now as nat) == timer.duration,
{
}

} // verus!
