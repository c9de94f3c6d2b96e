//! Background units: what one pass through a unit's loop does, and what it
//! asks of the execution context that runs it.

use crate::shared::SharedCounter;
use crate::shared::ShutdownFlag;
use rand::Rng;
use vstd::prelude::*;

verus! {

/// Every pause of a unit is shorter than this many milliseconds.
pub const PAUSE_LIMIT_MILLIS: u64 = 1000;

/// What a unit asks of its execution context after one pass.
#[derive(Clone, Copy, Debug, PartialEq, Eq, Structural)]
pub enum Step {
    /// Leave the loop: shutdown was signalled.
    Stop,
    /// Wait, then make another pass.
    Pause {
        /// How long to wait, in milliseconds.
        millis: u64,
        /// True when the wait has to block the underlying worker outright
        /// instead of yielding it to other units.
        blocking: bool,
    },
}

/// `ThreadRng::random_range` on the generator that `rand::rng` hands out,
/// over the range from zero up to and excluding `bound`: the value drawn
/// lies in that range. The call panics on an empty range, which the
/// precondition rules out, and when the operating system cannot seed the
/// generator.
#[verifier::external_body]
fn random_below(bound: u64) -> (drawn: u64)
    requires
        bound > 0,
    ensures
        drawn < bound,
{
    rand::rng().random_range(0..bound)
}

/// A pause length for one pass of a unit.
pub fn draw_pause() -> (millis: u64)
    ensures
        millis < PAUSE_LIMIT_MILLIS,
{
    random_below(PAUSE_LIMIT_MILLIS)
}

/// An autonomous unit, ready to be run by an execution context of its own.
pub enum BackgroundUnit {
    /// Adds one to the shared counter on every pass and yields while it
    /// waits.
    Counting {
        /// The tally this unit adds to.
        counter: SharedCounter,
        /// The shutdown signal of the unit's model.
        finished: ShutdownFlag,
    },
    /// Counts nothing and blocks its worker while it waits.
    Disruptive {
        /// The shutdown signal of the unit's model.
        finished: ShutdownFlag,
    },
}

impl BackgroundUnit {
    /// True for a unit that blocks its worker.
    pub open spec fn disruptive(&self) -> bool {
        self is Disruptive
    }

    /// The shutdown signal that the unit watches.
    pub open spec fn signal(&self) -> ShutdownFlag {
        match self {
            BackgroundUnit::Counting { finished, .. } => *finished,
            BackgroundUnit::Disruptive { finished } => *finished,
        }
    }

    /// What a pass may return once the unit has read its signal as
    /// `finished`.
    pub open spec fn pass(&self, finished: bool, step: Step) -> bool {
        if finished {
            step == Step::Stop
        } else {
            step matches Step::Pause { millis, blocking } && millis < PAUSE_LIMIT_MILLIS
                && blocking == self.disruptive()
        }
    }

    /// One pass of the unit, given what it read from its shutdown signal.
    /// A raised signal ends the loop at once, with the counter untouched.
    /// Otherwise a counting unit adds one to its counter, and either kind
    /// asks for a pause of less than a second.
    pub fn step_after(&self, finished: bool) -> (step: Step)
        ensures
            self.pass(finished, step),
    {
        if finished {
            return Step::Stop;
        }
        let millis = draw_pause();
        match self {
            BackgroundUnit::Counting { counter, .. } => {
                counter.increment();
                Step::Pause { millis, blocking: false }
            },
            BackgroundUnit::Disruptive { .. } => Step::Pause { millis, blocking: true },
        }
    }

    /// One pass of the unit: reads the shutdown signal and acts on it.
    pub fn step(&self) -> (step: Step)
        ensures
            self.pass(true, step) || self.pass(false, step),
    {
        let finished = match self {
            BackgroundUnit::Counting { finished, .. } => finished.is_raised(),
            BackgroundUnit::Disruptive { finished } => finished.is_raised(),
        };
        self.step_after(finished)
    }
}

/// Shutdown is noticed within one pass: a unit that reads its signal as
/// raised stops at once, and a unit that goes on asks for a pause below the
/// limit, so that it reads its signal again less than a second later.
pub proof fn lemma_pass_is_bounded(unit: BackgroundUnit, finished: bool, step: Step)
    requires
        unit.pass(finished, step),
    ensures
        finished ==> step == Step::Stop,
        !finished ==> (step matches Step::Pause { millis, .. } && millis < PAUSE_LIMIT_MILLIS),
{
}

} // verus!
