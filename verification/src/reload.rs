//! Reload countdowns: when a shooter is ready to fire again.

use vstd::prelude::*;

verus! {

/// The countdown after one tick in which nothing was fired: one less, and
/// never below zero.
pub open spec fn cooled(countdown: u32) -> u32 {
    if countdown == 0 {
        0
    } else {
        (countdown - 1) as u32
    }
}

/// Advances the player's reload countdown by one tick. The player may fire
/// while it is zero; firing itself, and the reset that goes with it, is the
/// caller's business.
pub fn cool_down(countdown: u32) -> (next: u32)
    ensures
        next == cooled(countdown),
{
    if countdown != 0 {
        countdown - 1
    } else {
        countdown
    }
}

/// The reload state of one enemy: ticks left until the next shot, and the value
/// the countdown is reset to after a shot.
#[derive(Clone, Copy, Debug, PartialEq, Eq, Structural)]
pub struct FiringState {
    pub countdown: u32,
    pub period: u32,
}

impl FiringState {
    /// Whether the enemy fires on the next tick.
    pub open spec fn due(self) -> bool {
        self.countdown == 0
    }

    /// The state after one tick: a due enemy fires and starts over at its
    /// period, any other counts down by one.
    pub open spec fn ticked(self) -> FiringState {
        if self.due() {
            FiringState { countdown: self.period, period: self.period }
        } else {
            FiringState { countdown: (self.countdown - 1) as u32, period: self.period }
        }
    }

    /// The state after `ticks` ticks.
    pub open spec fn after(self, ticks: nat) -> FiringState
        decreases ticks,
    {
        if ticks == 0 {
            self
        } else {
            self.after((ticks - 1) as nat).ticked()
        }
    }

    /// Runs one tick and says whether the enemy fires on it.
    pub fn tick(&mut self) -> (fires: bool)
        ensures
            fires == old(self).due(),
            *final(self) == old(self).ticked(),
    {
        if self.countdown != 0 {
            self.countdown = self.countdown - 1;
            false
        } else {
            self.countdown = self.period;
            true
        }
    }

    /// A countdown of `c` runs out after exactly `c` ticks: the enemy holds
    /// its fire for the first `c` ticks and is due on the one after them.
    pub proof fn lemma_counts_down(self, ticks: nat)
        requires
            ticks <= self.countdown,
        ensures
            self.after(ticks).countdown == self.countdown - ticks,
            self.after(ticks).period == self.period,
            self.after(ticks).due() <==> ticks == self.countdown,
        decreases ticks,
    {
        if ticks > 0 {
            self.lemma_counts_down((ticks - 1) as nat);
        }
    }

    /// Shots are `period + 1` ticks apart: after a tick on which the enemy
    /// fired it is due again on the tick `period` later, and on none before.
    pub proof fn lemma_fires_once_per_cycle(self, ticks: nat)
        requires
            self.due(),
            1 <= ticks <= self.period + 1,
        ensures
            self.after(ticks).due() <==> ticks == self.period + 1,
            self.after(ticks).period == self.period,
    {
        let fired = self.ticked();
        assert(self.after(1) == fired) by {
            assert(self.after(0) == self);
        }
        self.lemma_after_splits(1, (ticks - 1) as nat);
        fired.lemma_counts_down((ticks - 1) as nat);
    }

    /// Ticking `first` times and then `then` times is ticking `first + then` times.
    pub proof fn lemma_after_splits(self, first: nat, then: nat)
        ensures
            self.after(first + then) == self.after(first).after(then),
        decreases then,
    {
        if then > 0 {
            self.lemma_after_splits(first, (then - 1) as nat);
            assert((first + then - 1) as nat == first + (then - 1) as nat);
        }
    }
}

} // verus!
