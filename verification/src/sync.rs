//! The sequential model: no unit has an execution context of its own. The
//! caller renders every foreground unit during a round and pays for the
//! background work while joining.

use crate::ledger::Ledger;
use crate::ledger::ModelError;
use crate::ledger::ModelState;
use crate::ledger::Teardown;
use crate::shared::SharedCounter;
use crate::thread_model::ThreadModel;
use crate::thread_model::ThreadModelKind;
use crate::unit::draw_pause;
use crate::unit::BackgroundUnit;
use crate::unit::PAUSE_LIMIT_MILLIS;
use vstd::prelude::*;

verus! {

/// A background unit that is stepped by the caller.
pub struct SyncBackgroundTask {
    counter: SharedCounter,
}

impl SyncBackgroundTask {
    /// A unit bound to `counter`.
    pub fn new(counter: SharedCounter) -> (task: Self)
        ensures
            task.counter() == counter,
    {
        SyncBackgroundTask { counter }
    }

    /// The tally this unit adds to.
    pub closed spec fn counter(&self) -> SharedCounter {
        self.counter
    }

    /// One pass: adds one to the counter and returns the pause, in
    /// milliseconds, that the caller owes before it goes on.
    pub fn run(&mut self) -> (millis: u64)
        ensures
            millis < PAUSE_LIMIT_MILLIS,
            final(self).counter() == old(self).counter(),
    {
        self.counter.increment();
        draw_pause()
    }
}

/// The sequential thread model.
pub struct ManyToOneModel {
    ledger: Ledger,
    background_tasks: Vec<SyncBackgroundTask>,
}

impl ManyToOneModel {
    /// An empty model.
    pub fn new() -> (model: Self)
        ensures
            model.wf(),
            model@ == ModelState::empty(ThreadModelKind::ManyToOne),
    {
        ManyToOneModel {
            ledger: Ledger::new(ThreadModelKind::ManyToOne),
            background_tasks: Vec::new(),
        }
    }

    /// The model keeps one task for every background unit it counts.
    pub closed spec fn wf(&self) -> bool {
        &&& self.ledger@.kind == ThreadModelKind::ManyToOne
        &&& self.ledger@.pending == 0
        &&& self.background_tasks@.len() == self.ledger@.background
    }

    /// The counters of the background units, in creation order.
    pub closed spec fn counters(&self) -> Seq<SharedCounter> {
        self.background_tasks@.map_values(|task: SyncBackgroundTask| task.counter())
    }

    /// A consistent model is sequential, counts within the machine's word,
    /// never has a tick pending, and has one counter per background unit.
    pub proof fn lemma_counters(&self)
        requires
            self.wf(),
        ensures
            self@.kind == ThreadModelKind::ManyToOne,
            self@.foreground <= usize::MAX,
            self@.background <= usize::MAX,
            self@.pending == 0,
            self.counters().len() == self@.background,
    {
        self.ledger.lemma_bounded();
    }
}

impl Default for ManyToOneModel {
    fn default() -> (model: Self)
        ensures
            model.wf(),
            model@ == ModelState::empty(ThreadModelKind::ManyToOne),
    {
        ManyToOneModel::new()
    }
}

impl View for ManyToOneModel {
    type V = ModelState;

    closed spec fn view(&self) -> ModelState {
        self.ledger@
    }
}

impl ThreadModel for ManyToOneModel {
    type Tick = ();

    type ForegroundSeat = usize;

    open spec fn state(&self) -> ModelState {
        self@
    }

    open spec fn inv(&self) -> bool {
        self.wf()
    }

    open spec fn seat_number(seat: &usize) -> nat {
        *seat as nat
    }

    proof fn lemma_bounded(&self) {
        self.lemma_counters();
    }

    fn get_kind(&self) -> (kind: ThreadModelKind) {
        self.ledger.kind()
    }

    fn create_foreground_task(&mut self) -> (seat: Result<usize, ModelError>)
        ensures
            final(self).counters() == old(self).counters(),
    {
        self.ledger.admit_foreground()
    }

    fn abandon_foreground_task(&mut self, unit: usize) -> (abandoned: bool)
        ensures
            final(self).counters() == old(self).counters(),
    {
        self.ledger.retract_foreground(unit)
    }

    fn abandon_background_task(&mut self, unit: usize) -> (abandoned: bool)
        ensures
            !abandoned,
            final(self).counters() == old(self).counters(),
    {
        self.ledger.retract_background(unit)
    }

    fn create_background_task(&mut self, counter: SharedCounter) -> (unit: Result<
        Option<BackgroundUnit>,
        ModelError,
    >)
        ensures
            final(self).counters() == (if unit is Ok {
                old(self).counters().push(counter)
            } else {
                old(self).counters()
            }),
    {
        match self.ledger.admit_background() {
            Ok(_) => {
                self.background_tasks.push(SyncBackgroundTask::new(counter));
                assert(self.counters() =~= old(self).counters().push(counter));
                Ok(None)
            },
            Err(e) => Err(e),
        }
    }

    fn create_evil_task(&mut self) -> (unit: Result<Option<BackgroundUnit>, ModelError>)
        ensures
            final(self).counters() == old(self).counters(),
    {
        match self.ledger.admit_evil() {
            Ok(_) => Ok(None),
            Err(e) => Err(e),
        }
    }

    fn num_background_tasks(&self) -> (count: usize) {
        self.ledger.background()
    }

    fn run_interactive(&mut self, tick: &()) -> (inline: Result<usize, ModelError>)
        ensures
            final(self).counters() == old(self).counters(),
    {
        let inline = self.ledger.settle_round(0);
        assert((self@, inline) == old(self)@.round_outcome(0));
        inline
    }

    fn join_interactive(&mut self) -> (pauses: Result<Vec<u64>, ModelError>)
        ensures
            final(self).counters() == old(self).counters(),
    {
        proof {
            self.ledger.lemma_bounded();
        }
        let steps = match self.ledger.settle_join(0) {
            Ok(steps) => steps,
            Err(e) => {
                assert((self@, Err::<usize, ModelError>(e)) == old(self)@.join_outcome(0));
                return Err(e);
            },
        };
        let mut owed: Vec<u64> = Vec::new();
        let mut i: usize = 0;
        while i < steps
            invariant
                i <= steps,
                steps == self.background_tasks@.len(),
                self.wf(),
                (self.ledger@, Ok::<usize, ModelError>(steps)) == old(self).ledger@.join_outcome(0),
                self.counters() == old(self).counters(),
                owed@.len() == i,
                forall|k: int| 0 <= k < owed@.len() ==> #[trigger] owed@[k] < PAUSE_LIMIT_MILLIS,
            decreases steps - i,
        {
            let ghost before = self.counters();
            let millis = self.background_tasks[i].run();
            assert(self.counters() =~= before);
            owed.push(millis);
            i += 1;
        }
        assert((self@, Ok::<usize, ModelError>(owed.len())) == old(self)@.join_outcome(0));
        Ok(owed)
    }

    fn shutdown(&mut self) -> (left: Teardown)
        ensures
            final(self).counters().len() == 0,
    {
        self.background_tasks.clear();
        self.ledger.close()
    }
}

} // verus!
