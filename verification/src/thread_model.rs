//! The closed set of scheduling strategies, and the operations that every
//! thread model offers to its driver.

use crate::ledger::ModelError;
use crate::ledger::ModelState;
use crate::ledger::Teardown;
use crate::shared::SharedCounter;
use crate::unit::BackgroundUnit;
use crate::unit::PAUSE_LIMIT_MILLIS;
use vstd::prelude::*;
use vstd::string::StringExecFns;

verus! {

/// Which scheduling strategy a model instance implements.
#[derive(Clone, Copy, Debug, PartialEq, Eq, Structural)]
pub enum ThreadModelKind {
    /// Cooperative tasks multiplexed over a bounded pool of workers.
    ManyToMany,
    /// Every unit runs in turn on the caller's own execution context.
    ManyToOne,
    /// One dedicated operating-system thread per unit.
    OneToOne,
}

impl ThreadModelKind {
    /// The display name of the strategy, as a sequence of characters.
    pub open spec fn label(self) -> Seq<char> {
        match self {
            ThreadModelKind::ManyToMany => "Many to Many"@,
            ThreadModelKind::ManyToOne => "Many to One"@,
            ThreadModelKind::OneToOne => "One to One"@,
        }
    }

    /// Whether disruptive units mean anything under this strategy: they need
    /// a bounded pool of workers to starve, which only the pooled model has.
    pub open spec fn admits_disruption(self) -> bool {
        self == ThreadModelKind::ManyToMany
    }

    /// The display name of the strategy.
    pub fn to_string(&self) -> (name: String)
        ensures
            name@ == self.label(),
    {
        match self {
            ThreadModelKind::ManyToMany => String::from_str("Many to Many"),
            ThreadModelKind::ManyToOne => String::from_str("Many to One"),
            ThreadModelKind::OneToOne => String::from_str("One to One"),
        }
    }

    /// Tells the driver whether to offer creation of disruptive units.
    pub fn supports_evil_task(&self) -> (yes: bool)
        ensures
            yes == self.admits_disruption(),
    {
        match self {
            ThreadModelKind::ManyToMany => true,
            _ => false,
        }
    }
}

/// A population of foreground and background units under one scheduling
/// strategy. The driver creates units, drives one tick at a time with
/// `run_interactive` followed by `join_interactive`, and ends the instance
/// with `shutdown`.
///
/// A model never starts an execution context itself. Creating a unit returns
/// what the unit's context is to run on; the driver starts the context and
/// joins it after `shutdown`.
pub trait ThreadModel {
    /// The tick token that is handed to every foreground unit. The model
    /// passes it on without looking inside.
    type Tick;

    /// What the execution context of a new foreground unit is started with.
    type ForegroundSeat;

    /// The abstract state of the instance.
    spec fn state(&self) -> ModelState;

    /// The instance is consistent: its channels match its bookkeeping.
    spec fn inv(&self) -> bool;

    /// The number of the unit that a seat belongs to.
    spec fn seat_number(seat: &Self::ForegroundSeat) -> nat;

    /// A consistent instance counts within the machine's word, and has no
    /// more ticks pending than it has foreground units.
    proof fn lemma_bounded(&self)
        requires
            self.inv(),
        ensures
            self.state().foreground <= usize::MAX,
            self.state().background <= usize::MAX,
            self.state().pending <= self.state().foreground,
    ;

    /// The strategy of this model. Has no effect.
    fn get_kind(&self) -> (kind: ThreadModelKind)
        ensures
            kind == self.state().kind,
    ;

    /// Adds one foreground unit and returns the seat for its execution
    /// context. Units are numbered in creation order, from zero.
    fn create_foreground_task(&mut self) -> (seat: Result<Self::ForegroundSeat, ModelError>)
        requires
            old(self).inv(),
        ensures
            final(self).inv(),
            match old(self).state().admission_error(old(self).state().foreground) {
                Some(e) => seat matches Err(err) && err == e && final(self).state() == old(
                    self
                ).state(),
                None => seat matches Ok(s) && Self::seat_number(&s) == old(self).state().foreground
                    && final(self).state() == old(self).state().with_foreground(),
            },
    ;

    /// Takes back foreground unit number `unit`, for a driver that could not
    /// start the unit's execution context and has discarded its seat. Only
    /// the unit created last can be taken back, and only if it was created
    /// after the ticks of a pending round were issued; the model is then as
    /// it was before the unit was created. Otherwise nothing changes.
    fn abandon_foreground_task(&mut self, unit: usize) -> (abandoned: bool)
        requires
            old(self).inv(),
        ensures
            final(self).inv(),
            abandoned == old(self).state().retractable(unit as nat),
            final(self).state() == (if abandoned {
                old(self).state().without_foreground()
            } else {
                old(self).state()
            }),
    ;

    /// Adds one background unit bound to `counter`. Where units have
    /// contexts of their own the unit is returned for the driver to run;
    /// otherwise the model keeps it and steps it while joining.
    fn create_background_task(&mut self, counter: SharedCounter) -> (unit: Result<
        Option<BackgroundUnit>,
        ModelError,
    >)
        requires
            old(self).inv(),
        ensures
            final(self).inv(),
            match old(self).state().admission_error(old(self).state().background) {
                Some(e) => unit matches Err(err) && err == e && final(self).state() == old(
                    self
                ).state(),
                None => final(self).state() == old(self).state().with_background() && (
                unit matches Ok(handed) && (if old(self).state().dispatches() {
                    handed matches Some(BackgroundUnit::Counting { counter: bound, .. }) && bound
                        == counter
                } else {
                    handed is None
                })),
            },
    ;

    /// Takes back background unit number `unit`, counted from zero in
    /// creation order, for a driver that could not start the execution
    /// context of the unit it was handed. Only the unit created last can be
    /// taken back; the model is then as it was before the unit was
    /// created. Otherwise, and where the model keeps its background units
    /// to itself, nothing changes.
    fn abandon_background_task(&mut self, unit: usize) -> (abandoned: bool)
        requires
            old(self).inv(),
        ensures
            final(self).inv(),
            abandoned == old(self).state().background_retractable(unit as nat),
            final(self).state() == (if abandoned {
                old(self).state().without_background()
            } else {
                old(self).state()
            }),
    ;

    /// Adds one disruptive unit where the strategy admits disruption, and
    /// returns it for the driver to run. Under the other strategies the
    /// call changes nothing and returns no unit.
    fn create_evil_task(&mut self) -> (unit: Result<Option<BackgroundUnit>, ModelError>)
        requires
            old(self).inv(),
        ensures
            final(self).inv(),
            if !old(self).state().kind.admits_disruption() {
                final(self).state() == old(self).state() && match old(self).state().refusal() {
                    Some(e) => unit matches Err(err) && err == e,
                    None => unit matches Ok(None),
                }
            } else {
                match old(self).state().admission_error(old(self).state().background) {
                    Some(e) => unit matches Err(err) && err == e && final(self).state() == old(
                        self
                    ).state(),
                    None => unit matches Ok(Some(BackgroundUnit::Disruptive { .. })) && final(
                        self
                    ).state() == old(self).state().with_background(),
                }
            },
    ;

    /// The number of background and disruptive units created so far.
    fn num_background_tasks(&self) -> (count: usize)
        ensures
            count == self.state().background,
    ;

    /// Hands one tick to every foreground unit, in creation order, and
    /// returns without waiting for the units to finish. Where the caller's
    /// context does the work, nothing is sent and the result is the number
    /// of units that the caller now renders itself, in creation order.
    ///
    /// A round is refused while the ticks of the round before it are
    /// waiting to be joined. A send that fails means that a unit is gone:
    /// the instance becomes broken, with the ticks it had delivered still
    /// pending.
    fn run_interactive(&mut self, tick: &Self::Tick) -> (inline: Result<usize, ModelError>)
        requires
            old(self).inv(),
        ensures
            final(self).inv(),
            old(self).state().round_yields(final(self).state(), inline),
    ;

    /// Waits until every pending tick has been acknowledged, one
    /// acknowledgement per tick, in whatever order the units finish. Where
    /// the caller's context does the work, every background unit makes one
    /// pass instead, in creation order, and the result holds the pause that
    /// each unit asks for: the caller sleeps them out one after the other.
    fn join_interactive(&mut self) -> (pauses: Result<Vec<u64>, ModelError>)
        requires
            old(self).inv(),
        ensures
            final(self).inv(),
            old(self).state().join_yields(
                final(self).state(),
                match pauses {
                    Ok(owed) => Ok(owed.len()),
                    Err(e) => Err(e),
                },
            ),
            pauses matches Ok(owed) ==> forall|i: int|
                0 <= i < owed.len() ==> #[trigger] owed[i] < PAUSE_LIMIT_MILLIS,
    ;

    /// Tears the instance down: signals shutdown to every background unit,
    /// then closes every tick channel, and returns the numbers of execution
    /// contexts that the driver has to join. A second call finds nothing
    /// left to do.
    fn shutdown(&mut self) -> (left: Teardown)
        requires
            old(self).inv(),
        ensures
            final(self).inv(),
            final(self).state() == old(self).state().closed(),
            left == old(self).state().teardown(),
    ;
}

} // verus!
