//! The one-thread-per-task model: every unit has a dedicated thread. Ticks
//! and acknowledgements travel over zero-capacity channels, so every
//! hand-off is a true rendezvous.

use crate::channel::thread_channel;
use crate::channel::thread_recv;
use crate::channel::thread_send;
use crate::channel::thread_sender;
use crate::ledger::Ledger;
use crate::ledger::ModelError;
use crate::ledger::ModelState;
use crate::ledger::Phase;
use crate::ledger::Teardown;
use crate::shared::SharedCounter;
use crate::shared::ShutdownFlag;
use crate::thread_model::ThreadModel;
use crate::thread_model::ThreadModelKind;
use crate::unit::BackgroundUnit;
use std::sync::mpsc::Receiver;
use std::sync::mpsc::SyncSender;
use vstd::prelude::*;

verus! {

/// How many values a rendezvous channel buffers: none.
pub const RENDEZVOUS_BOUND: usize = 0;

/// What the thread of a foreground unit runs on: it receives a tick from
/// `tick_rx`, presents the unit, and acknowledges on `done_tx`, until
/// `tick_rx` reports that the channel is closed.
#[verifier::reject_recursive_types(T)]
pub struct OsForegroundSeat<T> {
    /// The number of the unit, in creation order.
    pub thread_nr: usize,
    /// Where the unit's ticks arrive.
    pub tick_rx: Receiver<T>,
    /// Where the unit reports that it is done with a tick.
    pub done_tx: SyncSender<()>,
}

/// Prepares foreground unit number `thread_nr`: opens its tick channel and
/// returns the seat for the unit's thread, together with the sending side
/// of the channel.
pub fn os_foreground<T>(thread_nr: usize, on_done_tx: SyncSender<()>) -> (unit: (
    OsForegroundSeat<T>,
    SyncSender<T>,
))
    ensures
        unit.0.thread_nr == thread_nr,
        unit.0.done_tx == on_done_tx,
{
    let (show_tx, show_rx) = thread_channel::<T>(RENDEZVOUS_BOUND);
    (OsForegroundSeat { thread_nr, tick_rx: show_rx, done_tx: on_done_tx }, show_tx)
}

/// Prepares a background unit that adds to `counter` until `finished` is
/// raised. Its thread makes one pass after the other and sleeps out every
/// pause.
pub fn os_background(counter: SharedCounter, finished: ShutdownFlag) -> (unit: BackgroundUnit)
    ensures
        unit == (BackgroundUnit::Counting { counter, finished }),
{
    BackgroundUnit::Counting { counter, finished }
}

/// The one-thread-per-task model.
#[verifier::reject_recursive_types(T)]
pub struct OneToOneModel<T> {
    ledger: Ledger,
    foreground_tasks: Vec<SyncSender<T>>,
    on_done: Option<(SyncSender<()>, Receiver<()>)>,
    finished: ShutdownFlag,
}

impl<T> View for OneToOneModel<T> {
    type V = ModelState;

    closed spec fn view(&self) -> ModelState {
        self.ledger@
    }
}

impl<T> OneToOneModel<T> {
    /// An empty model, with its completion channel and its shutdown signal.
    pub fn new() -> (model: Self)
        ensures
            model.wf(),
            model@ == ModelState::empty(ThreadModelKind::OneToOne),
    {
        let on_done = thread_channel::<()>(RENDEZVOUS_BOUND);
        OneToOneModel {
            ledger: Ledger::new(ThreadModelKind::OneToOne),
            foreground_tasks: Vec::new(),
            on_done: Some(on_done),
            finished: ShutdownFlag::new(),
        }
    }

    /// The model holds one open tick channel for every foreground unit it
    /// counts, and its completion channel for as long as it is not torn
    /// down.
    pub closed spec fn wf(&self) -> bool {
        &&& self.ledger@.kind == ThreadModelKind::OneToOne
        &&& self.foreground_tasks@.len() == self.ledger@.foreground
        &&& self.ledger@.pending <= self.ledger@.foreground
        &&& self.ledger@.phase != Phase::Closed ==> self.on_done is Some
    }

    /// The shutdown signal that the model's background units watch.
    pub closed spec fn signal(&self) -> ShutdownFlag {
        self.finished
    }

    /// How many tick channels the model holds the sending side of.
    pub closed spec fn tick_channels(&self) -> nat {
        self.foreground_tasks@.len()
    }

    /// True while the model holds its completion channel.
    pub closed spec fn completion_channel(&self) -> bool {
        self.on_done is Some
    }

    /// A consistent model is of its own kind, counts within the machine's
    /// word, has no more ticks pending than it has foreground units, and
    /// holds one tick channel per foreground unit, and its completion
    /// channel unless it is torn down.
    pub proof fn lemma_channels(&self)
        requires
            self.wf(),
        ensures
            self@.kind == ThreadModelKind::OneToOne,
            self@.foreground <= usize::MAX,
            self@.background <= usize::MAX,
            self@.pending <= self@.foreground,
            self.tick_channels() == self@.foreground,
            self@.phase != Phase::Closed ==> self.completion_channel(),
    {
        self.ledger.lemma_bounded();
    }
}

impl<T> Default for OneToOneModel<T> {
    fn default() -> (model: Self)
        ensures
            model.wf(),
            model@ == ModelState::empty(ThreadModelKind::OneToOne),
    {
        OneToOneModel::new()
    }
}

impl<T: Clone> ThreadModel for OneToOneModel<T> {
    type Tick = T;

    type ForegroundSeat = OsForegroundSeat<T>;

    open spec fn state(&self) -> ModelState {
        self@
    }

    open spec fn inv(&self) -> bool {
        self.wf()
    }

    open spec fn seat_number(seat: &OsForegroundSeat<T>) -> nat {
        seat.thread_nr as nat
    }

    proof fn lemma_bounded(&self) {
        self.lemma_channels();
    }

    fn get_kind(&self) -> (kind: ThreadModelKind) {
        self.ledger.kind()
    }

    fn create_foreground_task(&mut self) -> (seat: Result<OsForegroundSeat<T>, ModelError>)
        ensures
            final(self).signal() == old(self).signal(),
    {
        let on_done_tx = match &self.on_done {
            Some((on_done_tx, _)) => thread_sender(on_done_tx),
            None => {
                return Err(ModelError::ShutDown);
            },
        };
        let thread_nr = match self.ledger.admit_foreground() {
            Ok(thread_nr) => thread_nr,
            Err(e) => {
                return Err(e);
            },
        };
        let (seat, show_tx) = os_foreground::<T>(thread_nr, on_done_tx);
        self.foreground_tasks.push(show_tx);
        Ok(seat)
    }

    fn abandon_foreground_task(&mut self, unit: usize) -> (abandoned: bool)
        ensures
            final(self).signal() == old(self).signal(),
    {
        let abandoned = self.ledger.retract_foreground(unit);
        if abandoned {
            self.foreground_tasks.pop();
        }
        abandoned
    }

    fn abandon_background_task(&mut self, unit: usize) -> (abandoned: bool)
        ensures
            final(self).signal() == old(self).signal(),
    {
        self.ledger.retract_background(unit)
    }

    fn create_background_task(&mut self, counter: SharedCounter) -> (unit: Result<
        Option<BackgroundUnit>,
        ModelError,
    >)
        ensures
            unit matches Ok(Some(handed)) ==> handed.signal() == old(self).signal(),
            final(self).signal() == old(self).signal(),
    {
        match self.ledger.admit_background() {
            Ok(_) => Ok(Some(os_background(counter, self.finished.share()))),
            Err(e) => Err(e),
        }
    }

    fn create_evil_task(&mut self) -> (unit: Result<Option<BackgroundUnit>, ModelError>)
        ensures
            final(self).signal() == old(self).signal(),
    {
        match self.ledger.admit_evil() {
            Ok(_) => Ok(None),
            Err(e) => Err(e),
        }
    }

    fn num_background_tasks(&self) -> (count: usize) {
        self.ledger.background()
    }

    fn run_interactive(&mut self, tick: &T) -> (inline: Result<usize, ModelError>)
        ensures
            final(self).signal() == old(self).signal(),
    {
        let sends = match self.ledger.open_round() {
            Ok(sends) => sends,
            Err(e) => {
                assert((self@, Err::<usize, ModelError>(e)) == self@.round_outcome(0));
                return Err(e);
            },
        };
        proof {
            self.ledger.lemma_bounded();
        }
        let mut delivered: usize = 0;
        let mut open = true;
        while open && delivered < sends
            invariant
                delivered <= sends,
                sends == self.foreground_tasks@.len(),
            decreases sends - delivered + (if open { 1nat } else { 0nat }),
        {
            if thread_send(&self.foreground_tasks[delivered], tick.clone()) {
                delivered = delivered + 1;
            } else {
                open = false;
            }
        }
        let inline = self.ledger.settle_round(delivered);
        assert((self@, inline) == old(self)@.round_outcome(delivered as nat));
        inline
    }

    fn join_interactive(&mut self) -> (pauses: Result<Vec<u64>, ModelError>)
        ensures
            final(self).signal() == old(self).signal(),
    {
        let awaited = match self.ledger.open_join() {
            Ok(awaited) => awaited,
            Err(e) => {
                assert((self@, Err::<usize, ModelError>(e)) == self@.join_outcome(0));
                return Err(e);
            },
        };
        let mut observed: usize = 0;
        if let Some((_, on_done_rx)) = &self.on_done {
            let mut open = true;
            while open && observed < awaited
                invariant
                    observed <= awaited,
                decreases awaited - observed + (if open { 1nat } else { 0nat }),
            {
                match thread_recv(on_done_rx) {
                    Some(_) => {
                        observed = observed + 1;
                    },
                    None => {
                        open = false;
                    },
                }
            }
        }
        match self.ledger.settle_join(observed) {
            Ok(_) => {
                assert((self@, Ok::<usize, ModelError>(0)) == old(self)@.join_outcome(
                    observed as nat,
                ));
                Ok(Vec::new())
            },
            Err(e) => {
                assert((self@, Err::<usize, ModelError>(e)) == old(self)@.join_outcome(
                    observed as nat,
                ));
                Err(e)
            },
        }
    }

    fn shutdown(&mut self) -> (left: Teardown)
        ensures
            final(self).tick_channels() == 0,
            !final(self).completion_channel(),
            final(self).signal() == old(self).signal(),
    {
        self.finished.raise();
        self.foreground_tasks.clear();
        self.on_done = None;
        self.ledger.close()
    }
}

} // verus!
