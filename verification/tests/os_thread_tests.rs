use std::sync::atomic::AtomicUsize;
use std::sync::atomic::Ordering;
use std::sync::Arc;
use std::time::Duration;
use thread_models::async_os_thread::os_background;
use thread_models::async_os_thread::os_foreground;
use thread_models::async_os_thread::OneToOneModel;
use thread_models::async_os_thread::OsForegroundSeat;
use thread_models::ledger::ModelError;
use thread_models::ledger::Teardown;
use thread_models::shared::SharedCounter;
use thread_models::shared::ShutdownFlag;
use thread_models::thread_model::ThreadModel;
use thread_models::thread_model::ThreadModelKind;
use thread_models::unit::BackgroundUnit;
use thread_models::unit::Step;
use tokio::runtime::Runtime;
use tokio::task::JoinHandle;

fn foreground_worker(
    runtime: &Runtime,
    seat: OsForegroundSeat<u32>,
    seen: Arc<AtomicUsize>,
) -> JoinHandle<()> {
    runtime.spawn_blocking(move || {
        while let Ok(tick) = seat.tick_rx.recv() {
            seen.fetch_add(tick as usize, Ordering::SeqCst);
            let _ = seat.done_tx.send(());
        }
    })
}

fn pause(runtime: &Runtime, millis: u64) {
    runtime.block_on(async move {
        tokio::time::sleep(Duration::from_millis(millis)).await;
    });
}

fn background_worker(runtime: &Runtime, unit: BackgroundUnit) -> JoinHandle<()> {
    let handle = runtime.handle().clone();
    runtime.spawn_blocking(move || {
        while let Step::Pause { millis, blocking } = unit.step() {
            assert!(!blocking);
            handle.block_on(async move {
                tokio::time::sleep(Duration::from_millis(millis)).await;
            });
        }
    })
}

#[test]
fn one_to_one_model_starts_empty() {
    let model: OneToOneModel<u32> = OneToOneModel::new();
    assert_eq!(model.get_kind(), ThreadModelKind::OneToOne);
    assert_eq!(model.num_background_tasks(), 0);
}

#[test]
fn five_threads_all_acknowledge_one_round() {
    let runtime = Runtime::new().unwrap();
    let mut model: OneToOneModel<u32> = OneToOneModel::new();
    let seen = Arc::new(AtomicUsize::new(0));
    let mut handles = Vec::new();
    for expected in 0..5 {
        let seat = model.create_foreground_task().unwrap();
        assert_eq!(seat.thread_nr, expected);
        handles.push(foreground_worker(&runtime, seat, seen.clone()));
    }
    assert_eq!(model.run_interactive(&1), Ok(0));
    assert_eq!(handles.len(), 5);
    assert!(handles.iter().all(|handle| !handle.is_finished()));
    assert_eq!(model.join_interactive(), Ok(Vec::new()));
    assert_eq!(seen.load(Ordering::SeqCst), 5);
    assert_eq!(model.shutdown(), Teardown { foreground: 5, background: 0 });
    for handle in handles {
        runtime.block_on(handle).unwrap();
    }
}

#[test]
fn one_to_one_rounds_repeat_with_exact_counts() {
    let runtime = Runtime::new().unwrap();
    let mut model: OneToOneModel<u32> = OneToOneModel::new();
    let seen = Arc::new(AtomicUsize::new(0));
    let mut handles = Vec::new();
    for _ in 0..3 {
        let seat = model.create_foreground_task().unwrap();
        handles.push(foreground_worker(&runtime, seat, seen.clone()));
    }
    for round in 1..=10 {
        assert_eq!(model.run_interactive(&1), Ok(0));
        assert_eq!(model.join_interactive(), Ok(Vec::new()));
        assert_eq!(seen.load(Ordering::SeqCst), 3 * round);
    }
    model.shutdown();
    for handle in handles {
        runtime.block_on(handle).unwrap();
    }
}

#[test]
fn one_to_one_round_is_refused_until_the_last_one_is_joined() {
    let runtime = Runtime::new().unwrap();
    let mut model: OneToOneModel<u32> = OneToOneModel::new();
    let seen = Arc::new(AtomicUsize::new(0));
    let mut handles = Vec::new();
    for _ in 0..2 {
        let seat = model.create_foreground_task().unwrap();
        handles.push(foreground_worker(&runtime, seat, seen.clone()));
    }
    assert_eq!(model.run_interactive(&1), Ok(0));
    assert_eq!(model.run_interactive(&1), Err(ModelError::RoundPending));
    assert_eq!(model.join_interactive(), Ok(Vec::new()));
    assert_eq!(seen.load(Ordering::SeqCst), 2);
    assert_eq!(model.run_interactive(&1), Ok(0));
    assert_eq!(model.join_interactive(), Ok(Vec::new()));
    assert_eq!(seen.load(Ordering::SeqCst), 4);
    model.shutdown();
    for handle in handles {
        runtime.block_on(handle).unwrap();
    }
}

#[test]
fn one_to_one_join_without_round_returns_at_once() {
    let runtime = Runtime::new().unwrap();
    let mut model: OneToOneModel<u32> = OneToOneModel::new();
    let seen = Arc::new(AtomicUsize::new(0));
    let seat = model.create_foreground_task().unwrap();
    let handle = foreground_worker(&runtime, seat, seen.clone());
    assert_eq!(model.join_interactive(), Ok(Vec::new()));
    assert_eq!(seen.load(Ordering::SeqCst), 0);
    model.shutdown();
    runtime.block_on(handle).unwrap();
}

#[test]
fn one_to_one_unit_created_between_round_and_join_is_not_awaited() {
    let runtime = Runtime::new().unwrap();
    let mut model: OneToOneModel<u32> = OneToOneModel::new();
    let seen = Arc::new(AtomicUsize::new(0));
    let mut handles = Vec::new();
    for _ in 0..2 {
        let seat = model.create_foreground_task().unwrap();
        handles.push(foreground_worker(&runtime, seat, seen.clone()));
    }
    assert_eq!(model.run_interactive(&1), Ok(0));
    let seat = model.create_foreground_task().unwrap();
    assert_eq!(seat.thread_nr, 2);
    handles.push(foreground_worker(&runtime, seat, seen.clone()));
    assert_eq!(model.join_interactive(), Ok(Vec::new()));
    assert_eq!(seen.load(Ordering::SeqCst), 2);
    assert_eq!(model.run_interactive(&1), Ok(0));
    assert_eq!(model.join_interactive(), Ok(Vec::new()));
    assert_eq!(seen.load(Ordering::SeqCst), 5);
    assert_eq!(model.shutdown(), Teardown { foreground: 3, background: 0 });
    for handle in handles {
        runtime.block_on(handle).unwrap();
    }
}

#[test]
fn one_to_one_background_unit_counts_until_shutdown() {
    let runtime = Runtime::new().unwrap();
    let mut model: OneToOneModel<u32> = OneToOneModel::new();
    let counter = SharedCounter::new();
    let unit = model.create_background_task(counter.share()).unwrap().unwrap();
    assert_eq!(model.num_background_tasks(), 1);
    let handle = background_worker(&runtime, unit);
    assert_eq!(model.join_interactive(), Ok(Vec::new()));
    while counter.load() == 0 {
        pause(&runtime, 1);
    }
    let before = counter.load();
    assert!(before >= 1);
    assert_eq!(model.shutdown(), Teardown { foreground: 0, background: 1 });
    runtime.block_on(handle).unwrap();
    let after = counter.load();
    assert!(after >= before);
    pause(&runtime, 20);
    assert_eq!(counter.load(), after);
}

#[test]
fn one_to_one_evil_task_is_a_no_op() {
    let mut model: OneToOneModel<u32> = OneToOneModel::new();
    assert!(matches!(model.create_evil_task(), Ok(None)));
    assert_eq!(model.num_background_tasks(), 0);
    let counter = SharedCounter::new();
    assert!(matches!(
        model.create_background_task(counter),
        Ok(Some(BackgroundUnit::Counting { .. }))
    ));
    assert!(matches!(model.create_evil_task(), Ok(None)));
    assert_eq!(model.num_background_tasks(), 1);
    model.shutdown();
}

#[test]
fn one_to_one_dropped_unit_breaks_the_model() {
    let runtime = Runtime::new().unwrap();
    let mut model: OneToOneModel<u32> = OneToOneModel::new();
    let seen = Arc::new(AtomicUsize::new(0));
    let first = model.create_foreground_task().unwrap();
    let handle = foreground_worker(&runtime, first, seen.clone());
    let second = model.create_foreground_task().unwrap();
    drop(second);
    assert_eq!(model.run_interactive(&1), Err(ModelError::ChannelClosed));
    assert_eq!(model.run_interactive(&1), Err(ModelError::ChannelClosed));
    assert_eq!(model.join_interactive(), Err(ModelError::ChannelClosed));
    assert!(matches!(model.create_foreground_task(), Err(ModelError::ChannelClosed)));
    assert!(matches!(
        model.create_background_task(SharedCounter::new()),
        Err(ModelError::ChannelClosed)
    ));
    assert!(matches!(model.create_evil_task(), Err(ModelError::ChannelClosed)));
    assert_eq!(model.shutdown(), Teardown { foreground: 2, background: 0 });
    runtime.block_on(handle).unwrap();
    assert_eq!(seen.load(Ordering::SeqCst), 1);
}

#[test]
fn one_to_one_shutdown_is_final_and_idempotent() {
    let mut model: OneToOneModel<u32> = OneToOneModel::new();
    let counter = SharedCounter::new();
    let unit = model.create_background_task(counter.share()).unwrap().unwrap();
    assert_eq!(model.shutdown(), Teardown { foreground: 0, background: 1 });
    assert_eq!(unit.step(), Step::Stop);
    assert_eq!(counter.load(), 0);
    assert_eq!(model.shutdown(), Teardown { foreground: 0, background: 0 });
    assert_eq!(model.num_background_tasks(), 0);
    assert_eq!(model.run_interactive(&1), Err(ModelError::ShutDown));
    assert_eq!(model.join_interactive(), Err(ModelError::ShutDown));
    assert!(matches!(model.create_foreground_task(), Err(ModelError::ShutDown)));
    assert!(matches!(
        model.create_background_task(SharedCounter::new()),
        Err(ModelError::ShutDown)
    ));
    assert!(matches!(model.create_evil_task(), Err(ModelError::ShutDown)));
}

#[test]
fn one_to_one_foreground_unit_can_be_abandoned() {
    let runtime = Runtime::new().unwrap();
    let mut model: OneToOneModel<u32> = OneToOneModel::new();
    let seen = Arc::new(AtomicUsize::new(0));
    let first = model.create_foreground_task().unwrap();
    let handle = foreground_worker(&runtime, first, seen.clone());
    let second = model.create_foreground_task().unwrap();
    assert!(!model.abandon_foreground_task(0));
    assert!(!model.abandon_foreground_task(2));
    assert!(model.abandon_foreground_task(second.thread_nr));
    drop(second);
    assert_eq!(model.run_interactive(&1), Ok(0));
    assert_eq!(model.join_interactive(), Ok(Vec::new()));
    assert_eq!(seen.load(Ordering::SeqCst), 1);
    assert_eq!(model.shutdown(), Teardown { foreground: 1, background: 0 });
    runtime.block_on(handle).unwrap();
}

#[test]
fn one_to_one_failed_creation_during_a_pending_round_leaves_no_trace() {
    let runtime = Runtime::new().unwrap();
    let mut model: OneToOneModel<u32> = OneToOneModel::new();
    let seen = Arc::new(AtomicUsize::new(0));
    let counter = SharedCounter::new();
    let mut handles = Vec::new();
    for _ in 0..2 {
        let seat = model.create_foreground_task().unwrap();
        handles.push(foreground_worker(&runtime, seat, seen.clone()));
    }
    let unit = model.create_background_task(counter.share()).unwrap().unwrap();
    assert_eq!(model.run_interactive(&1), Ok(0));
    let late = model.create_foreground_task().unwrap();
    assert_eq!(late.thread_nr, 2);
    assert!(!model.abandon_foreground_task(1));
    assert!(model.abandon_foreground_task(late.thread_nr));
    drop(late);
    assert!(!model.abandon_foreground_task(1));
    assert_eq!(model.num_background_tasks(), 1);
    assert_eq!(model.join_interactive(), Ok(Vec::new()));
    assert_eq!(seen.load(Ordering::SeqCst), 2);
    assert_eq!(model.run_interactive(&1), Ok(0));
    assert_eq!(model.join_interactive(), Ok(Vec::new()));
    assert_eq!(seen.load(Ordering::SeqCst), 4);
    assert_eq!(model.shutdown(), Teardown { foreground: 2, background: 1 });
    assert_eq!(unit.step(), Step::Stop);
    for handle in handles {
        runtime.block_on(handle).unwrap();
    }
}

#[test]
fn one_to_one_background_unit_can_be_abandoned() {
    let mut model: OneToOneModel<u32> = OneToOneModel::new();
    let counter = SharedCounter::new();
    assert!(!model.abandon_background_task(0));
    let first = model.create_background_task(counter.share()).unwrap().unwrap();
    let second = model.create_background_task(counter.share()).unwrap().unwrap();
    assert_eq!(model.num_background_tasks(), 2);
    assert!(!model.abandon_background_task(0));
    assert!(!model.abandon_background_task(2));
    assert!(model.abandon_background_task(1));
    drop(second);
    assert_eq!(model.num_background_tasks(), 1);
    assert!(matches!(first.step(), Step::Pause { blocking: false, .. }));
    assert_eq!(counter.load(), 1);
    assert_eq!(model.shutdown(), Teardown { foreground: 0, background: 1 });
    assert!(!model.abandon_background_task(0));
    assert_eq!(first.step(), Step::Stop);
}

#[test]
fn one_to_one_shutdown_releases_units_with_unjoined_ticks() {
    let runtime = Runtime::new().unwrap();
    let mut model: OneToOneModel<u32> = OneToOneModel::default();
    let seen = Arc::new(AtomicUsize::new(0));
    let mut handles = Vec::new();
    for _ in 0..3 {
        let seat = model.create_foreground_task().unwrap();
        handles.push(foreground_worker(&runtime, seat, seen.clone()));
    }
    assert_eq!(model.run_interactive(&1), Ok(0));
    assert_eq!(model.shutdown(), Teardown { foreground: 3, background: 0 });
    for handle in handles {
        runtime.block_on(handle).unwrap();
    }
}

#[test]
fn os_foreground_opens_a_rendezvous_channel() {
    let runtime = Runtime::new().unwrap();
    let (done_tx, done_rx) = std::sync::mpsc::sync_channel::<()>(0);
    let (seat, tick_tx) = os_foreground::<u32>(7, done_tx);
    assert_eq!(seat.thread_nr, 7);
    assert!(tick_tx.try_send(1).is_err());
    let handle = runtime.spawn_blocking(move || {
        let tick = seat.tick_rx.recv().unwrap();
        seat.done_tx.send(()).unwrap();
        tick
    });
    tick_tx.send(41).unwrap();
    done_rx.recv().unwrap();
    assert_eq!(runtime.block_on(handle).unwrap(), 41);
}

#[test]
fn os_background_makes_a_counting_unit() {
    let counter = SharedCounter::new();
    let finished = ShutdownFlag::new();
    let unit = os_background(counter.share(), finished.share());
    assert!(matches!(unit, BackgroundUnit::Counting { .. }));
    assert!(matches!(unit.step(), Step::Pause { blocking: false, .. }));
    assert_eq!(counter.load(), 1);
    finished.raise();
    assert_eq!(unit.step(), Step::Stop);
    assert_eq!(counter.load(), 1);
}
