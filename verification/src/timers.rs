//! The delay and sound timers and the buzzer gate.

use vstd::prelude::*;

verus! {

/// The two countdown timers.
#[derive(Clone, Copy, Debug, PartialEq, Eq)]
pub struct Timers {
    /// The delay timer.
    pub delay: u8,
    /// The sound timer.
    pub sound: u8,
}

/// A counter after one tick: one less, and zero stays zero.
pub open spec fn ticked(counter: u8) -> u8 {
    if counter > 0 {
        (counter - 1) as u8
    } else {
        0
    }
}

/// A counter after `ticks` ticks.
pub open spec fn ticked_by(counter: u8, ticks: nat) -> u8
    decreases ticks,
{
    if ticks == 0 {
        counter
    } else {
        ticked(ticked_by(counter, (ticks - 1) as nat))
    }
}

/// Whether the tone is audible at this value of the sound timer.
pub open spec fn audible(sound: u8) -> bool {
    sound > 1
}

/// Any number of ticks takes a counter down by that number and never below
/// zero; a counter at zero stays at zero.
pub proof fn lemma_ticks_saturate(counter: u8, ticks: nat)
    ensures
        ticked_by(counter, ticks) == (if counter >= ticks {
            counter - ticks
        } else {
            0
        }),
        ticked_by(0, ticks) == 0,
    decreases ticks,
{
    if ticks > 0 {
        lemma_ticks_saturate(counter, (ticks - 1) as nat);
        lemma_ticks_saturate(0, (ticks - 1) as nat);
    }
}

impl Timers {
    /// Both timers at zero.
    pub fn new() -> (timers: Self)
        ensures
            timers.delay == 0,
            timers.sound == 0,
    {
        Timers { delay: 0, sound: 0 }
    }

    /// Consumes one tick: each timer goes down by one and stops at zero.
    pub fn tick(&mut self)
        ensures
            final(self).delay == ticked(old(self).delay),
            final(self).sound == ticked(old(self).sound),
    {
        self.delay = self.delay.saturating_sub(1);
        self.sound = self.sound.saturating_sub(1);
    }

    /// Whether the buzzer is to sound: the sound timer is above one.
    pub fn buzzer_on(&self) -> (on: bool)
        ensures
            on == audible(self.sound),
    {
        self.sound > 1
    }
}

} // verus!
