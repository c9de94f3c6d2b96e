use thread_models::shared::SharedCounter;
use thread_models::shared::ShutdownFlag;

#[test]
fn counter_starts_at_zero_and_counts_by_one() {
    let counter = SharedCounter::new();
    assert_eq!(counter.load(), 0);
    assert_eq!(counter.increment(), 0);
    assert_eq!(counter.increment(), 1);
    assert_eq!(counter.increment(), 2);
    assert_eq!(counter.load(), 3);
}

#[test]
fn shared_handles_see_one_tally() {
    let counter = SharedCounter::new();
    let other = counter.share();
    other.increment();
    counter.increment();
    assert_eq!(counter.load(), 2);
    assert_eq!(other.load(), 2);
    let fresh = SharedCounter::new();
    assert_eq!(fresh.load(), 0);
}

#[test]
fn counter_never_goes_down_between_reads() {
    let counter = SharedCounter::new();
    let mut last = counter.load();
    for _ in 0..1000 {
        counter.increment();
        let now = counter.load();
        assert!(now >= last);
        assert_eq!(now, last + 1);
        last = now;
    }
}

#[test]
fn flag_starts_lowered_and_stays_raised() {
    let flag = ShutdownFlag::new();
    assert!(!flag.is_raised());
    flag.raise();
    assert!(flag.is_raised());
    flag.raise();
    assert!(flag.is_raised());
}

#[test]
fn shared_flags_see_one_signal() {
    let flag = ShutdownFlag::new();
    let other = flag.share();
    assert!(!other.is_raised());
    flag.raise();
    assert!(other.is_raised());
    let fresh = ShutdownFlag::new();
    assert!(!fresh.is_raised());
}
