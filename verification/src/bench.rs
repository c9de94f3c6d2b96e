//! The benchmark harness: the same small piece of work, dispatched once per
//! worker and iteration by each of the three strategies, and timed.

use crate::clock::clock_elapsed;
use crate::clock::clock_start;
use crate::clock::Elapsed;
use crate::clock::NANOS_PER_SEC;
use crate::ledger::lemma_rounds_add_up;
use crate::ledger::ModelError;
use crate::ledger::Phase;
use crate::report::format_report;
use crate::report::report_text;
use crate::shared::SharedCounter;
use crate::thread_model::ThreadModel;
use vstd::prelude::*;

verus! {

/// How many steps the dummy computation of one piece of work takes.
pub const WORK_STEPS: u64 = 100;

/// One piece of work: adds one to the counter and then counts up to
/// `WORK_STEPS`, which costs the same every time. Returns the count.
pub fn do_work(counter: &SharedCounter) -> (sum: u64)
    ensures
        sum == WORK_STEPS,
{
    counter.increment();
    let mut s: u64 = 0;
    let mut step: u64 = 0;
    while step < WORK_STEPS
        invariant
            step <= WORK_STEPS,
            s == step,
        decreases WORK_STEPS - step,
    {
        s = s.wrapping_add(1);
        step = step + 1;
    }
    s
}

/// Times `iterations` rounds of a model that dispatches to execution
/// contexts of its own: every round hands a tick to every foreground unit
/// and waits for all of them, so that round follows round only after every
/// acknowledgement of the one before. On success exactly `iterations`
/// rounds were completed and one acknowledgement was joined for every tick
/// of every round. The first refusal or failure ends the measurement and
/// is returned; fewer acknowledgements than that were then joined.
///
/// What a sequential model leaves to its caller during a round is not
/// carried out here; for that strategy see `bench_many_to_one`.
pub fn time_rounds<M: ThreadModel>(model: &mut M, tick: &M::Tick, iterations: usize) -> (elapsed:
    Result<Elapsed, ModelError>)
    requires
        old(model).inv(),
    ensures
        final(model).inv(),
        iterations == 0 ==> elapsed is Ok && final(model).state() == old(model).state(),
        iterations > 0 ==> match old(model).state().round_error() {
            Some(e) => elapsed matches Err(err) && err == e && final(model).state() == old(
                model
            ).state(),
            None => match elapsed {
                Ok(_) => final(model).state() == old(model).state().after_rounds(
                    iterations as nat,
                ),
                Err(e) => e == ModelError::ChannelClosed && final(model).state().phase
                    == Phase::Broken && final(model).state().kind == old(model).state().kind
                    && final(model).state().foreground == old(model).state().foreground
                    && final(model).state().background == old(model).state().background
                    && final(model).state().rounds <= old(model).state().rounds + iterations
                    && final(model).state().acknowledged < old(model).state().acknowledged
                    + iterations * old(model).state().ticks_to_send(),
            },
        },
        old(model).state().round_error() is None && old(model).state().ticks_to_send() == 0
            ==> elapsed is Ok,
        elapsed matches Ok(span) ==> span.spec_subsec_nanos() < NANOS_PER_SEC,
{
    let ghost start_state = model.state();
    let ghost sends = start_state.ticks_to_send();
    let start = clock_start();
    let mut round: usize = 0;
    proof {
        assert(0 * sends == 0) by (nonlinear_arith);
    }
    while round < iterations
        invariant
            model.inv(),
            round <= iterations,
            start_state == old(model).state(),
            sends == start_state.ticks_to_send(),
            round > 0 ==> start_state.round_error() is None,
            start_state.round_error() is None ==> model.state() == start_state.after_rounds(
                round as nat,
            ),
            start_state.round_error() is Some ==> model.state() == start_state,
        decreases iterations - round,
    {
        let ghost before = model.state();
        proof {
            if start_state.round_error() is None {
                lemma_rounds_add_up(start_state, round as nat);
            }
            assert(round * sends + sends == (round + 1) * sends) by (nonlinear_arith);
            assert((round + 1) * sends <= iterations * sends) by (nonlinear_arith)
                requires
                    round < iterations,
            ;
        }
        match model.run_interactive(tick) {
            Ok(_) => {},
            Err(e) => {
                return Err(e);
            },
        }
        assert(model.state() == before.ticked());
        match model.join_interactive() {
            Ok(_) => {},
            Err(e) => {
                return Err(e);
            },
        }
        assert(model.state() == before.ticked().joined());
        round = round + 1;
    }
    Ok(clock_elapsed(&start))
}

/// Times the sequential strategy: `n_workers` handles to one counter, and
/// `iterations` passes in which every handle does one piece of work in turn
/// on the caller's own execution context.
pub fn bench_many_to_one(n_workers: usize, iterations: usize) -> (elapsed: Elapsed)
    ensures
        elapsed.spec_subsec_nanos() < NANOS_PER_SEC,
{
    let counter = SharedCounter::new();
    let mut tasks: Vec<SharedCounter> = Vec::new();
    let mut worker: usize = 0;
    while worker < n_workers
        invariant
            worker <= n_workers,
            tasks@.len() == worker,
        decreases n_workers - worker,
    {
        tasks.push(counter.share());
        worker = worker + 1;
    }
    let start = clock_start();
    let mut round: usize = 0;
    while round < iterations
        invariant
            tasks@.len() == n_workers,
        decreases iterations - round,
    {
        let mut turn: usize = 0;
        while turn < n_workers
            invariant
                tasks@.len() == n_workers,
            decreases n_workers - turn,
        {
            do_work(&tasks[turn]);
            turn = turn + 1;
        }
        round = round + 1;
    }
    clock_elapsed(&start)
}

/// Runs the three benchmarks at the same worker count and iteration count,
/// one-thread-per-task first, pooled tasks second, sequential last, and
/// reports the total time and the time per operation of each.
///
/// The two strategies that need execution contexts of their own are
/// measured by the caller's `one_to_one` and `many_to_many`, which start
/// the workers, time the rounds and join the workers again before they
/// return.
pub fn run_benchmarks<F, G>(
    n_workers: usize,
    iterations: usize,
    one_to_one: F,
    many_to_many: G,
) -> (report: String) where
    F: FnOnce(usize, usize) -> Elapsed,
    G: FnOnce(usize, usize) -> Elapsed,

    requires
        call_requires(one_to_one, (n_workers, iterations)),
        call_requires(many_to_many, (n_workers, iterations)),
    ensures
        exists|first: Elapsed, second: Elapsed, third: Elapsed|
            call_ensures(one_to_one, (n_workers, iterations), first) && call_ensures(
                many_to_many,
                (n_workers, iterations),
                second,
            ) && report@ == #[trigger] report_text(
                n_workers as nat,
                iterations as nat,
                first,
                second,
                third,
            ),
{
    let first = one_to_one(n_workers, iterations);
    let second = many_to_many(n_workers, iterations);
    let third = bench_many_to_one(n_workers, iterations);
    format_report(n_workers, iterations, first, second, third)
}

} // verus!
