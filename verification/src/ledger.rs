//! The bookkeeping that every thread model shares: how many units exist, how
//! many ticks are still unacknowledged, and whether the instance is still
//! usable. `ModelState` is the mathematical picture; `Ledger` is the
//! executable record whose view it is. Nothing here touches a channel or a
//! thread: what happened outside is passed in as plain values.

use crate::thread_model::ThreadModelKind;
use vstd::prelude::*;

verus! {

/// Where a model instance stands in its life.
#[derive(Clone, Copy, Debug, PartialEq, Eq, Structural)]
pub enum Phase {
    /// Units may be created and driven.
    Live,
    /// A unit's channel closed while the model was being driven. The instance
    /// refuses further work and waits to be torn down.
    Broken,
    /// Torn down.
    Closed,
}

/// Why an operation on a model was refused.
#[derive(Clone, Copy, Debug, PartialEq, Eq, Structural)]
pub enum ModelError {
    /// A send or receive failed because the peer had already gone away.
    ChannelClosed,
    /// One more unit would exceed what the machine can count.
    Exhausted,
    /// A round of ticks is still waiting to be joined: a unit has to
    /// acknowledge one tick before it is handed the next.
    RoundPending,
    /// The model has been torn down.
    ShutDown,
}

/// Numbers of execution contexts that a torn down model leaves for its driver
/// to join.
#[derive(Clone, Copy, Debug, PartialEq, Eq, Structural)]
pub struct Teardown {
    /// Contexts of foreground units.
    pub foreground: usize,
    /// Contexts of background and disruptive units.
    pub background: usize,
}

/// A request to create one unit.
#[derive(Clone, Copy, Debug, PartialEq, Eq, Structural)]
pub enum Creation {
    /// A foreground unit.
    Foreground,
    /// A background unit.
    Background,
    /// A disruptive unit.
    Evil,
}

/// How often `which` occurs among `requests`.
pub open spec fn occurrences(requests: Seq<Creation>, which: Creation) -> nat
    decreases requests.len(),
{
    if requests.len() == 0 {
        0
    } else {
        occurrences(requests.drop_last(), which) + (if requests.last() == which {
            1nat
        } else {
            0nat
        })
    }
}

/// The abstract state of a model instance.
pub struct ModelState {
    /// The strategy.
    pub kind: ThreadModelKind,
    /// Live foreground units.
    pub foreground: nat,
    /// Background and disruptive units created so far.
    pub background: nat,
    /// Ticks handed to a unit and not yet acknowledged.
    pub pending: nat,
    /// Rounds of ticks completed since the model was created.
    pub rounds: nat,
    /// Acknowledgements joined since the model was created.
    pub acknowledged: nat,
    /// Where the instance stands in its life.
    pub phase: Phase,
}

impl ModelState {
    /// A freshly created model: live, with no units and nothing pending.
    pub open spec fn empty(kind: ThreadModelKind) -> ModelState {
        ModelState {
            kind,
            foreground: 0,
            background: 0,
            pending: 0,
            rounds: 0,
            acknowledged: 0,
            phase: Phase::Live,
        }
    }

    /// The error with which an instance that is not live refuses work.
    pub open spec fn refusal(self) -> Option<ModelError> {
        match self.phase {
            Phase::Live => None,
            Phase::Broken => Some(ModelError::ChannelClosed),
            Phase::Closed => Some(ModelError::ShutDown),
        }
    }

    /// True when units run on execution contexts of their own, reached
    /// through channels; false when the caller's context does all the work.
    pub open spec fn dispatches(self) -> bool {
        self.kind != ThreadModelKind::ManyToOne
    }

    /// The state after one more foreground unit.
    pub open spec fn with_foreground(self) -> ModelState {
        ModelState { foreground: self.foreground + 1, ..self }
    }

    /// The state after one more background unit.
    pub open spec fn with_background(self) -> ModelState {
        ModelState { background: self.background + 1, ..self }
    }

    /// The state after a request for a disruptive unit: one more unit where
    /// the strategy admits disruption, no change elsewhere.
    pub open spec fn with_evil(self) -> ModelState {
        if self.kind.admits_disruption() {
            self.with_background()
        } else {
            self
        }
    }

    /// The state after one creation request.
    pub open spec fn created(self, request: Creation) -> ModelState {
        match request {
            Creation::Foreground => self.with_foreground(),
            Creation::Background => self.with_background(),
            Creation::Evil => self.with_evil(),
        }
    }

    /// The state after a series of creation requests, first to last.
    pub open spec fn created_all(self, requests: Seq<Creation>) -> ModelState
        decreases requests.len(),
    {
        if requests.len() == 0 {
            self
        } else {
            self.created_all(requests.drop_last()).created(requests.last())
        }
    }

    /// True when foreground unit `unit` can still be taken back: the model
    /// is live, the unit is the one created last, and it was created after
    /// the ticks of a pending round were issued, so that none is on its way
    /// to it. A pending round ticked the units numbered below `pending`.
    pub open spec fn retractable(self, unit: nat) -> bool {
        self.phase == Phase::Live && unit + 1 == self.foreground && unit >= self.pending
    }

    /// The state after the foreground unit created last was taken back.
    pub open spec fn without_foreground(self) -> ModelState {
        ModelState { foreground: (self.foreground - 1) as nat, ..self }
    }

    /// True when background unit `unit` can still be taken back: the model
    /// is live, its units have execution contexts of their own, and the
    /// unit is the one created last.
    pub open spec fn background_retractable(self, unit: nat) -> bool {
        self.phase == Phase::Live && self.dispatches() && unit + 1 == self.background
    }

    /// The state after the background unit created last was taken back.
    pub open spec fn without_background(self) -> ModelState {
        ModelState { background: (self.background - 1) as nat, ..self }
    }

    /// Why a unit cannot be added to a population of `count`, if it cannot.
    pub open spec fn admission_error(self, count: nat) -> Option<ModelError> {
        if self.refusal() is Some {
            self.refusal()
        } else if count >= usize::MAX {
            Some(ModelError::Exhausted)
        } else {
            None
        }
    }

    /// Ticks that one round sends over channels: one per foreground unit
    /// where units have contexts of their own.
    pub open spec fn ticks_to_send(self) -> nat {
        if self.dispatches() {
            self.foreground
        } else {
            0
        }
    }

    /// Foreground units that the caller renders itself during one round.
    pub open spec fn inline_renders(self) -> nat {
        if self.dispatches() {
            0
        } else {
            self.foreground
        }
    }

    /// Background units that the caller steps itself while joining.
    pub open spec fn inline_steps(self) -> nat {
        if self.dispatches() {
            0
        } else {
            self.background
        }
    }

    /// Why a round of ticks cannot start, if it cannot.
    pub open spec fn round_error(self) -> Option<ModelError> {
        if self.refusal() is Some {
            self.refusal()
        } else if self.pending > 0 {
            Some(ModelError::RoundPending)
        } else {
            None
        }
    }

    /// The state after a round in which every tick reached its unit.
    pub open spec fn ticked(self) -> ModelState {
        ModelState { pending: self.ticks_to_send(), rounds: self.rounds + 1, ..self }
    }

    /// The state after a round that delivered `delivered` ticks and then
    /// found a channel closed.
    pub open spec fn tick_failed(self, delivered: nat) -> ModelState {
        ModelState { pending: delivered, phase: Phase::Broken, ..self }
    }

    /// The state after every pending tick was acknowledged.
    pub open spec fn joined(self) -> ModelState {
        ModelState { pending: 0, acknowledged: self.acknowledged + self.pending, ..self }
    }

    /// The state after `observed` acknowledgements arrived and the
    /// completion channel then closed.
    pub open spec fn join_failed(self, observed: nat) -> ModelState {
        ModelState {
            pending: (self.pending - observed) as nat,
            acknowledged: self.acknowledged + observed,
            phase: Phase::Broken,
            ..self
        }
    }

    /// The state after `count` rounds on a model with nothing pending, each
    /// completed and joined: that many rounds more, and one acknowledgement
    /// more for every tick that each of them sent.
    pub open spec fn after_rounds(self, count: nat) -> ModelState {
        ModelState {
            rounds: self.rounds + count,
            acknowledged: self.acknowledged + count * self.ticks_to_send(),
            ..self
        }
    }

    /// The state after teardown: no units, nothing pending, closed for good.
    pub open spec fn closed(self) -> ModelState {
        ModelState { foreground: 0, background: 0, pending: 0, phase: Phase::Closed, ..self }
    }

    /// What a round of ticks returns and leaves behind when `delivered` of
    /// its sends succeed.
    pub open spec fn round_outcome(self, delivered: nat) -> (ModelState, Result<usize, ModelError>) {
        if self.round_error() is Some {
            (self, Err(self.round_error()->Some_0))
        } else if delivered >= self.ticks_to_send() {
            (self.ticked(), Ok(self.inline_renders() as usize))
        } else {
            (self.tick_failed(delivered), Err(ModelError::ChannelClosed))
        }
    }

    /// What joining returns and leaves behind when `observed`
    /// acknowledgements arrive.
    pub open spec fn join_outcome(self, observed: nat) -> (ModelState, Result<usize, ModelError>) {
        if self.refusal() is Some {
            (self, Err(self.refusal()->Some_0))
        } else if observed >= self.pending {
            (self.joined(), Ok(self.inline_steps() as usize))
        } else {
            (self.join_failed(observed), Err(ModelError::ChannelClosed))
        }
    }

    /// A round of ticks may turn this state into `after` and return `inline`:
    /// some number of its sends succeeded, and the round ended as that
    /// number says.
    pub open spec fn round_yields(self, after: ModelState, inline: Result<usize, ModelError>) -> bool {
        exists|delivered: nat|
            delivered <= self.ticks_to_send() && (after, inline) == #[trigger] self.round_outcome(
                delivered,
            )
    }

    /// Joining may turn this state into `after` and return `inline`: some
    /// number of acknowledgements arrived, and joining ended as that number
    /// says.
    pub open spec fn join_yields(self, after: ModelState, inline: Result<usize, ModelError>) -> bool {
        exists|observed: nat|
            observed <= self.pending && (after, inline) == #[trigger] self.join_outcome(observed)
    }

    /// The execution contexts that teardown leaves to be joined.
    pub open spec fn teardown(self) -> Teardown {
        if self.dispatches() {
            Teardown { foreground: self.foreground as usize, background: self.background as usize }
        } else {
            Teardown { foreground: 0, background: 0 }
        }
    }
}

/// Every tick is acknowledged exactly once: a round that succeeds issues
/// one tick per foreground unit, each either rendered by the caller or
/// pending. Joining then succeeds only by observing exactly as many
/// acknowledgements as ticks are pending, never one more, and leaves
/// nothing pending.
pub proof fn lemma_round_is_joined_exactly(
    state: ModelState,
    ticked: ModelState,
    inline: usize,
    joined: ModelState,
    stepped: usize,
)
    requires
        state.foreground <= usize::MAX,
        state.round_yields(ticked, Ok(inline)),
        ticked.join_yields(joined, Ok(stepped)),
    ensures
        inline + ticked.pending == state.foreground,
        forall|observed: nat|
            observed <= ticked.pending && (joined, Ok::<usize, ModelError>(stepped))
                == #[trigger] ticked.join_outcome(observed) ==> observed == ticked.pending,
        joined.pending == 0,
        joined.foreground == state.foreground,
{
}

/// Rendezvous count: on a fresh model of any strategy, after `n` foreground
/// units were created, a round that succeeds issues exactly `n` ticks, and
/// joining succeeds only by observing an acknowledgement for each of them
/// that is pending, never one more.
pub proof fn lemma_rendezvous_count(
    kind: ThreadModelKind,
    n: nat,
    ticked: ModelState,
    inline: usize,
    joined: ModelState,
    stepped: usize,
)
    requires
        n <= usize::MAX,
        ModelState::empty(kind).created_all(
            Seq::new(n, |i: int| Creation::Foreground),
        ).round_yields(ticked, Ok(inline)),
        ticked.join_yields(joined, Ok(stepped)),
    ensures
        inline + ticked.pending == n,
        forall|observed: nat|
            observed <= ticked.pending && (joined, Ok::<usize, ModelError>(stepped))
                == #[trigger] ticked.join_outcome(observed) ==> observed == ticked.pending,
        joined.pending == 0,
        joined.foreground == n,
{
    let requests = Seq::new(n, |i: int| Creation::Foreground);
    lemma_creation_counts(ModelState::empty(kind), requests);
    lemma_only_foreground(n);
    lemma_round_is_joined_exactly(
        ModelState::empty(kind).created_all(requests),
        ticked,
        inline,
        joined,
        stepped,
    );
}

/// A series of `n` requests for foreground units holds `n` of them and no
/// request of another kind.
pub proof fn lemma_only_foreground(n: nat)
    ensures
        occurrences(Seq::new(n, |i: int| Creation::Foreground), Creation::Foreground) == n,
        occurrences(Seq::new(n, |i: int| Creation::Foreground), Creation::Background) == 0,
        occurrences(Seq::new(n, |i: int| Creation::Foreground), Creation::Evil) == 0,
    decreases n,
{
    if n > 0 {
        lemma_only_foreground((n - 1) as nat);
        assert(Seq::new(n, |i: int| Creation::Foreground).drop_last() =~= Seq::new(
            (n - 1) as nat,
            |i: int| Creation::Foreground,
        ));
    }
}

/// What a series of creation requests does to a state: every count grows
/// by the number of requests of its kind, disruptive units counting as
/// background units where the strategy admits them and not at all where it
/// does not. Nothing else changes.
pub proof fn lemma_creation_counts(start: ModelState, requests: Seq<Creation>)
    ensures
        start.created_all(requests) == (ModelState {
            foreground: start.foreground + occurrences(requests, Creation::Foreground),
            background: start.background + occurrences(requests, Creation::Background) + (
            if start.kind.admits_disruption() {
                occurrences(requests, Creation::Evil)
            } else {
                0
            }),
            ..start
        }),
    decreases requests.len(),
{
    if requests.len() > 0 {
        lemma_creation_counts(start, requests.drop_last());
    }
}

/// Background count: on a fresh model, after any series of creation
/// requests in any order, the number of background units is the number of
/// requests for background units plus, under the pooled strategy, the
/// number of requests for disruptive units. Requests for foreground units
/// do not enter into it.
pub proof fn lemma_background_count(kind: ThreadModelKind, requests: Seq<Creation>)
    ensures
        ModelState::empty(kind).created_all(requests).background == occurrences(
            requests,
            Creation::Background,
        ) + (if kind.admits_disruption() {
            occurrences(requests, Creation::Evil)
        } else {
            0
        }),
{
    lemma_creation_counts(ModelState::empty(kind), requests);
}

/// While a model is alive its background count never goes down through
/// its driving: neither creating a unit, nor a round of ticks, nor joining
/// lowers it, however the round or the joining ends. Only taking back the
/// unit created last, whose execution context never started, lowers it
/// again, by the one that its creation had added.
pub proof fn lemma_background_monotonic(
    state: ModelState,
    request: Creation,
    delivered: nat,
    observed: nat,
)
    ensures
        state.created(request).background >= state.background,
        state.round_outcome(delivered).0.background == state.background,
        state.join_outcome(observed).0.background == state.background,
        state.background > 0 ==> state.without_background().background + 1 == state.background,
        state.without_foreground().background == state.background,
{
}

/// Creating a unit of one sort leaves the units of the other sort alone: on
/// a live model with room for one more, a foreground unit is admitted,
/// gets the last number and leaves the background count as it was, and a
/// background or disruptive unit leaves the foreground count as it was.
pub proof fn lemma_creation_keeps_other_count(state: ModelState)
    requires
        state.phase == Phase::Live,
    ensures
        state.foreground < usize::MAX ==> state.admission_error(state.foreground) is None,
        state.background < usize::MAX ==> state.admission_error(state.background) is None,
        state.with_foreground().foreground == state.foreground + 1,
        state.with_foreground().background == state.background,
        state.with_background().background == state.background + 1,
        state.with_background().foreground == state.foreground,
        state.with_evil().foreground == state.foreground,
        state.with_evil().background == state.background + (if state.kind.admits_disruption() {
            1nat
        } else {
            0nat
        }),
{
}

/// A creation that failed leaves no trace: a unit whose execution context
/// could not be started can be taken back at once, whether or not a round
/// is waiting to be joined, and the model is then exactly as it was before
/// the unit was created.
pub proof fn lemma_failed_creation_leaves_no_trace(state: ModelState)
    requires
        state.phase == Phase::Live,
        state.pending <= state.foreground,
    ensures
        state.with_foreground().retractable(state.foreground),
        state.with_foreground().without_foreground() == state,
        state.dispatches() ==> state.with_background().background_retractable(state.background),
        state.with_background().without_background() == state,
        state.kind.admits_disruption() ==> state.with_evil().background_retractable(
            state.background,
        ) && state.with_evil().without_background() == state,
{
}

/// Rounds add up: one round that is completed and joined on a model with
/// nothing pending is `after_rounds(1)`, and one more such round after
/// `count` of them makes `count + 1`.
pub proof fn lemma_rounds_add_up(state: ModelState, count: nat)
    requires
        state.pending == 0,
    ensures
        state.after_rounds(0) == state,
        state.after_rounds(count).ticked().joined() == state.after_rounds(count + 1),
        state.after_rounds(count).pending == 0,
        state.after_rounds(count).round_error() == state.round_error(),
{
    assert((count + 1) * state.ticks_to_send() == count * state.ticks_to_send()
        + state.ticks_to_send()) by (nonlinear_arith);
}

/// Teardown is final: a torn down model has no units and nothing pending,
/// refuses every creation, every round and every joining with `ShutDown`,
/// and a second teardown changes nothing and leaves nothing to join.
pub proof fn lemma_shutdown_is_final(state: ModelState, delivered: nat, observed: nat)
    ensures
        state.closed().foreground == 0 && state.closed().background == 0 && state.closed().pending
            == 0,
        state.closed().admission_error(0) == Some(ModelError::ShutDown),
        state.closed().round_outcome(delivered) == (
            state.closed(),
            Err::<usize, ModelError>(ModelError::ShutDown),
        ),
        state.closed().join_outcome(observed) == (
            state.closed(),
            Err::<usize, ModelError>(ModelError::ShutDown),
        ),
        state.closed().closed() == state.closed(),
        state.closed().teardown() == (Teardown { foreground: 0, background: 0 }),
{
}

/// The executable record of a model's bookkeeping. The counts of units and
/// of pending ticks are kept at run time; the tallies of completed rounds
/// and of joined acknowledgements serve contracts alone and are kept as
/// ghost values, which cost nothing and cannot overflow.
pub struct Ledger {
    kind: ThreadModelKind,
    foreground: usize,
    background: usize,
    pending: usize,
    rounds: Ghost<nat>,
    acknowledged: Ghost<nat>,
    phase: Phase,
}

impl View for Ledger {
    type V = ModelState;

    closed spec fn view(&self) -> ModelState {
        ModelState {
            kind: self.kind,
            foreground: self.foreground as nat,
            background: self.background as nat,
            pending: self.pending as nat,
            rounds: self.rounds@,
            acknowledged: self.acknowledged@,
            phase: self.phase,
        }
    }
}

impl Ledger {
    /// The ledger of a freshly created model.
    pub fn new(kind: ThreadModelKind) -> (ledger: Ledger)
        ensures
            ledger@ == ModelState::empty(kind),
    {
        Ledger {
            kind,
            foreground: 0,
            background: 0,
            pending: 0,
            rounds: Ghost(0),
            acknowledged: Ghost(0),
            phase: Phase::Live,
        }
    }

    /// The ledger of a live model that already counts the given numbers of
    /// units and of pending ticks, and has completed no round yet.
    pub fn with_counts(
        kind: ThreadModelKind,
        foreground: usize,
        background: usize,
        pending: usize,
    ) -> (ledger: Ledger)
        ensures
            ledger@ == (ModelState {
                kind,
                foreground: foreground as nat,
                background: background as nat,
                pending: pending as nat,
                rounds: 0,
                acknowledged: 0,
                phase: Phase::Live,
            }),
    {
        Ledger {
            kind,
            foreground,
            background,
            pending,
            rounds: Ghost(0),
            acknowledged: Ghost(0),
            phase: Phase::Live,
        }
    }

    /// Every count of a ledger fits the machine's word.
    pub proof fn lemma_bounded(&self)
        ensures
            self@.foreground <= usize::MAX,
            self@.background <= usize::MAX,
            self@.pending <= usize::MAX,
    {
    }

    /// The strategy.
    pub fn kind(&self) -> (kind: ThreadModelKind)
        ensures
            kind == self@.kind,
    {
        self.kind
    }

    /// Live foreground units.
    pub fn foreground(&self) -> (count: usize)
        ensures
            count == self@.foreground,
    {
        self.foreground
    }

    /// Background and disruptive units created so far.
    pub fn background(&self) -> (count: usize)
        ensures
            count == self@.background,
    {
        self.background
    }

    /// Ticks not yet acknowledged.
    pub fn pending(&self) -> (count: usize)
        ensures
            count == self@.pending,
    {
        self.pending
    }

    /// Where the instance stands in its life.
    pub fn phase(&self) -> (phase: Phase)
        ensures
            phase == self@.phase,
    {
        self.phase
    }

    /// The error with which the instance refuses work, if it does.
    pub fn refusal(&self) -> (refusal: Option<ModelError>)
        ensures
            refusal == self@.refusal(),
    {
        match self.phase {
            Phase::Live => None,
            Phase::Broken => Some(ModelError::ChannelClosed),
            Phase::Closed => Some(ModelError::ShutDown),
        }
    }

    /// Registers one more foreground unit and returns its number, which is
    /// the number of units that were there before it.
    pub fn admit_foreground(&mut self) -> (unit: Result<usize, ModelError>)
        ensures
            match old(self)@.admission_error(old(self)@.foreground) {
                Some(e) => unit == Err::<usize, ModelError>(e) && final(self)@ == old(self)@,
                None => unit == Ok::<usize, ModelError>(old(self)@.foreground as usize)
                    && final(self)@ == old(self)@.with_foreground(),
            },
    {
        if let Some(e) = self.refusal() {
            return Err(e);
        }
        if self.foreground == usize::MAX {
            return Err(ModelError::Exhausted);
        }
        let unit = self.foreground;
        self.foreground = unit + 1;
        Ok(unit)
    }

    /// Takes foreground unit `unit` back, provided it is the one created
    /// last and no pending tick is on its way to it, and says whether it
    /// did.
    pub fn retract_foreground(&mut self, unit: usize) -> (retracted: bool)
        ensures
            retracted == old(self)@.retractable(unit as nat),
            final(self)@ == (if retracted {
                old(self)@.without_foreground()
            } else {
                old(self)@
            }),
    {
        match self.phase {
            Phase::Live => {
                if self.foreground > 0 && unit == self.foreground - 1 && unit >= self.pending {
                    self.foreground = unit;
                    true
                } else {
                    false
                }
            },
            _ => false,
        }
    }

    /// Takes background unit `unit` back, provided it is the one created
    /// last and has an execution context of its own to start, and says
    /// whether it did.
    pub fn retract_background(&mut self, unit: usize) -> (retracted: bool)
        ensures
            retracted == old(self)@.background_retractable(unit as nat),
            final(self)@ == (if retracted {
                old(self)@.without_background()
            } else {
                old(self)@
            }),
    {
        let dispatches = match self.kind {
            ThreadModelKind::ManyToOne => false,
            _ => true,
        };
        match self.phase {
            Phase::Live => {
                if dispatches && self.background > 0 && unit == self.background - 1 {
                    self.background = unit;
                    true
                } else {
                    false
                }
            },
            _ => false,
        }
    }

    /// Registers one more background unit and returns its number.
    pub fn admit_background(&mut self) -> (unit: Result<usize, ModelError>)
        ensures
            match old(self)@.admission_error(old(self)@.background) {
                Some(e) => unit == Err::<usize, ModelError>(e) && final(self)@ == old(self)@,
                None => unit == Ok::<usize, ModelError>(old(self)@.background as usize)
                    && final(self)@ == old(self)@.with_background(),
            },
    {
        if let Some(e) = self.refusal() {
            return Err(e);
        }
        if self.background == usize::MAX {
            return Err(ModelError::Exhausted);
        }
        let unit = self.background;
        self.background = unit + 1;
        Ok(unit)
    }

    /// Registers a disruptive unit where the strategy admits one, and says
    /// whether it did. Under the other strategies the request is accepted
    /// and changes nothing.
    pub fn admit_evil(&mut self) -> (created: Result<bool, ModelError>)
        ensures
            final(self)@ == (if created is Ok {
                old(self)@.with_evil()
            } else {
                old(self)@
            }),
            created == (if !old(self)@.kind.admits_disruption() {
                match old(self)@.refusal() {
                    Some(e) => Err::<bool, ModelError>(e),
                    None => Ok::<bool, ModelError>(false),
                }
            } else {
                match old(self)@.admission_error(old(self)@.background) {
                    Some(e) => Err::<bool, ModelError>(e),
                    None => Ok::<bool, ModelError>(true),
                }
            }),
    {
        if let Some(e) = self.refusal() {
            return Err(e);
        }
        if !self.kind.supports_evil_task() {
            return Ok(false);
        }
        match self.admit_background() {
            Ok(_) => Ok(true),
            Err(e) => Err(e),
        }
    }

    /// Checks that a round of ticks may start, which takes a live model with
    /// no tick pending, and returns how many ticks it has to send over
    /// channels.
    pub fn open_round(&self) -> (sends: Result<usize, ModelError>)
        ensures
            match self@.round_error() {
                Some(e) => sends == Err::<usize, ModelError>(e),
                None => sends == Ok::<usize, ModelError>(self@.ticks_to_send() as usize),
            },
    {
        if let Some(e) = self.refusal() {
            return Err(e);
        }
        if self.pending > 0 {
            return Err(ModelError::RoundPending);
        }
        match self.kind {
            ThreadModelKind::ManyToOne => Ok(0),
            _ => Ok(self.foreground),
        }
    }

    /// Records a round of ticks of which `delivered` reached their units,
    /// and returns the number of foreground units that the caller has to
    /// render itself.
    pub fn settle_round(&mut self, delivered: usize) -> (inline: Result<usize, ModelError>)
        ensures
            (final(self)@, inline) == old(self)@.round_outcome(delivered as nat),
    {
        let sends = match self.open_round() {
            Ok(sends) => sends,
            Err(e) => {
                return Err(e);
            },
        };
        if delivered >= sends {
            self.pending = sends;
            self.rounds = Ghost(self.rounds@ + 1);
            match self.kind {
                ThreadModelKind::ManyToOne => Ok(self.foreground),
                _ => Ok(0),
            }
        } else {
            self.pending = delivered;
            self.phase = Phase::Broken;
            Err(ModelError::ChannelClosed)
        }
    }

    /// Checks that joining may start and returns how many acknowledgements
    /// it has to wait for.
    pub fn open_join(&self) -> (awaited: Result<usize, ModelError>)
        ensures
            match self@.refusal() {
                Some(e) => awaited == Err::<usize, ModelError>(e),
                None => awaited == Ok::<usize, ModelError>(self@.pending as usize),
            },
    {
        if let Some(e) = self.refusal() {
            return Err(e);
        }
        Ok(self.pending)
    }

    /// Records that `observed` acknowledgements arrived, and returns the
    /// number of background units that the caller has to step itself.
    pub fn settle_join(&mut self, observed: usize) -> (inline: Result<usize, ModelError>)
        ensures
            (final(self)@, inline) == old(self)@.join_outcome(observed as nat),
    {
        if let Some(e) = self.refusal() {
            return Err(e);
        }
        if observed >= self.pending {
            self.acknowledged = Ghost(self.acknowledged@ + self.pending as nat);
            self.pending = 0;
            match self.kind {
                ThreadModelKind::ManyToOne => Ok(self.background),
                _ => Ok(0),
            }
        } else {
            self.acknowledged = Ghost(self.acknowledged@ + observed as nat);
            self.pending = self.pending - observed;
            self.phase = Phase::Broken;
            Err(ModelError::ChannelClosed)
        }
    }

    /// Closes the ledger for good and returns the execution contexts that
    /// are left to be joined. Closing a closed ledger returns none.
    pub fn close(&mut self) -> (left: Teardown)
        ensures
            final(self)@ == old(self)@.closed(),
            left == old(self)@.teardown(),
    {
        let left = match self.kind {
            ThreadModelKind::ManyToOne => Teardown { foreground: 0, background: 0 },
            _ => Teardown { foreground: self.foreground, background: self.background },
        };
        self.foreground = 0;
        self.background = 0;
        self.pending = 0;
        self.phase = Phase::Closed;
        left
    }
}

} // verus!
