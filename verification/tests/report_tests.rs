use std::time::Duration;
use thread_models::clock::Elapsed;
use thread_models::report::format_report;
use thread_models::report::operations;
use thread_models::report::per_op;
use thread_models::report::push_decimal;
use thread_models::report::push_line;
use thread_models::report::push_padded;
use thread_models::report::push_per_op;
use thread_models::report::push_strategy;
use thread_models::report::PER_OP_DIGITS;

fn decimal(n: u128) -> String {
    let mut out = String::new();
    push_decimal(&mut out, n);
    out
}

fn padded(n: u128, width: usize) -> String {
    let mut out = String::new();
    push_padded(&mut out, n, width);
    out
}

fn per_op_text(total_nanos: u128, operations: u128) -> String {
    let mut out = String::new();
    push_per_op(&mut out, total_nanos, operations);
    out
}

#[test]
fn decimal_has_no_leading_zeros() {
    assert_eq!(decimal(0), "0");
    assert_eq!(decimal(7), "7");
    assert_eq!(decimal(10), "10");
    assert_eq!(decimal(1234567890), "1234567890");
    assert_eq!(decimal(u128::MAX), "340282366920938463463374607431768211455");
}

#[test]
fn decimal_appends_to_what_is_there() {
    let mut out = String::from("n = ");
    push_decimal(&mut out, 42);
    assert_eq!(out, "n = 42");
}

#[test]
fn padded_keeps_the_last_digits() {
    assert_eq!(padded(0, 0), "");
    assert_eq!(padded(5, 0), "");
    assert_eq!(padded(0, 3), "000");
    assert_eq!(padded(42, 9), "000000042");
    assert_eq!(padded(123456789, 9), "123456789");
    assert_eq!(padded(1123456789, 9), "123456789");
    assert_eq!(PER_OP_DIGITS, 9);
}

#[test]
fn per_op_is_the_quotient_to_the_nearest_nanosecond() {
    assert_eq!(per_op_text(1_000_000, 1000), "0.000001000");
    assert_eq!(per_op_text(1_234_567_000, 1000), "0.001234567");
    assert_eq!(per_op_text(1_234_567_499, 1000), "0.001234567");
    assert_eq!(per_op_text(1_234_567_500, 1000), "0.001234568");
    assert_eq!(per_op_text(1_234_567_999, 1000), "0.001234568");
    assert_eq!(per_op_text(2_500_000_000, 1), "2.500000000");
    assert_eq!(per_op_text(12_000_000_001, 1), "12.000000001");
    assert_eq!(per_op_text(999_999_999_600, 1000), "1.000000000");
    assert_eq!(per_op_text(0, 5), "0.000000000");
}

#[test]
fn per_op_below_a_nanosecond_rounds_to_the_nearest() {
    assert_eq!(per_op_text(7, 10), "0.000000001");
    assert_eq!(per_op_text(5, 10), "0.000000001");
    assert_eq!(per_op_text(4, 10), "0.000000000");
    assert_eq!(per_op_text(999, 1000), "0.000000001");
    assert_eq!(per_op_text(499, 1000), "0.000000000");
    assert_eq!(per_op_text(1, 3), "0.000000000");
    assert_eq!(per_op_text(2, 3), "0.000000001");
}

#[test]
fn per_op_in_nanoseconds() {
    assert_eq!(per_op(7, 10), Some(1));
    assert_eq!(per_op(15, 10), Some(2));
    assert_eq!(per_op(14, 10), Some(1));
    assert_eq!(per_op(0, 1), Some(0));
    assert_eq!(per_op(u128::MAX, 1), Some(u128::MAX));
    assert_eq!(per_op(u128::MAX, 2), Some(1u128 << 127));
    assert_eq!(per_op(u128::MAX, u128::MAX), Some(1));
    assert_eq!(per_op(u128::MAX - 1, u128::MAX), Some(1));
    assert_eq!(per_op(u128::MAX / 2, u128::MAX), Some(0));
    assert_eq!(per_op(5, 0), None);
    assert_eq!(per_op(0, 0), None);
}

#[test]
fn per_op_without_operations_has_no_quotient() {
    assert_eq!(per_op_text(0, 0), "NaN");
    assert_eq!(per_op_text(1, 0), "inf");
    assert_eq!(per_op_text(5_000_000_000, 0), "inf");
}

#[test]
fn operations_is_the_full_product() {
    assert_eq!(operations(10, 100), 1000);
    assert_eq!(operations(0, 100), 0);
    assert_eq!(operations(1000, 5000), 5_000_000);
    assert_eq!(operations(usize::MAX, usize::MAX), (usize::MAX as u128) * (usize::MAX as u128));
}

#[test]
fn line_joins_label_total_and_per_op() {
    let mut out = String::from(">");
    push_line(&mut out, "Label", "1.5s", 1_500_000_000, 1000);
    assert_eq!(out, ">Label: 1.5s total, 0.001500000s/op\n");
}

#[test]
fn strategy_line_spells_the_total_as_a_duration() {
    let mut out = String::new();
    push_strategy(&mut out, "A", Elapsed::new(1, 500_000_000).unwrap(), 1000);
    assert_eq!(out, "A: 1.5s total, 0.001500000s/op\n");
    let mut out = String::new();
    push_strategy(&mut out, "B", Elapsed::new(0, 12_250_000).unwrap(), 10);
    assert_eq!(out, "B: 12.25ms total, 0.001225000s/op\n");
    let mut out = String::new();
    push_strategy(&mut out, "C", Elapsed::new(0, 100).unwrap(), 3);
    assert_eq!(out, "C: 100ns total, 0.000000033s/op\n");
    let mut out = String::new();
    push_strategy(&mut out, "D", Elapsed::new(0, 0).unwrap(), 0);
    assert_eq!(out, "D: 0ns total, NaNs/op\n");
}

#[test]
fn strategy_line_agrees_with_the_standard_library() {
    for (secs, nanos) in [(0u64, 1u32), (0, 1_500), (0, 999_999_999), (59, 1), (u64::MAX, 999_999_999)] {
        let mut out = String::new();
        push_strategy(&mut out, "x", Elapsed::new(secs, nanos).unwrap(), 0);
        let expected = format!("x: {:?} total, infs/op\n", Duration::new(secs, nanos));
        assert_eq!(out, expected);
    }
}

#[test]
fn report_has_a_heading_and_three_lines() {
    let report = format_report(
        10,
        100,
        Elapsed::new(2, 0).unwrap(),
        Elapsed::new(0, 500_000_000).unwrap(),
        Elapsed::new(0, 1_000_000).unwrap(),
    );
    assert_eq!(
        report,
        "Benchmark results (workers = 10, iters = 100)\n\n\
         One-to-One (OS threads): 2s total, 0.002000000s/op\n\
         Many-to-Many (async tasks): 500ms total, 0.000500000s/op\n\
         Many-to-One (sequential): 1ms total, 0.000001000s/op\n"
    );
}

#[test]
fn report_without_operations() {
    let zero = Elapsed::new(0, 0).unwrap();
    let some = Elapsed::new(0, 40).unwrap();
    let report = format_report(0, 100, some, zero, some);
    assert_eq!(
        report,
        "Benchmark results (workers = 0, iters = 100)\n\n\
         One-to-One (OS threads): 40ns total, infs/op\n\
         Many-to-Many (async tasks): 0ns total, NaNs/op\n\
         Many-to-One (sequential): 40ns total, infs/op\n"
    );
}
