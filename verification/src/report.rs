//! The text of a benchmark report, character by character.

use crate::clock::duration_debug;
use crate::clock::duration_text;
use crate::clock::Elapsed;
use crate::clock::NANOS_PER_SEC;
use vstd::prelude::*;
use vstd::string::StringExecFns;

verus! {

/// How many digits of a second a per-operation time is printed with.
pub const PER_OP_DIGITS: usize = 9;

/// The character of one decimal digit.
pub open spec fn digit(d: nat) -> char {
    if d == 0 {
        '0'
    } else if d == 1 {
        '1'
    } else if d == 2 {
        '2'
    } else if d == 3 {
        '3'
    } else if d == 4 {
        '4'
    } else if d == 5 {
        '5'
    } else if d == 6 {
        '6'
    } else if d == 7 {
        '7'
    } else if d == 8 {
        '8'
    } else {
        '9'
    }
}

/// A number in decimal, without leading zeros.
pub open spec fn decimal(n: nat) -> Seq<char>
    decreases n,
{
    if n < 10 {
        seq![digit(n)]
    } else {
        decimal(n / 10).push(digit(n % 10))
    }
}

/// The last `width` decimal digits of a number, with leading zeros.
pub open spec fn padded(n: nat, width: nat) -> Seq<char>
    decreases width,
{
    if width == 0 {
        Seq::empty()
    } else {
        padded(n / 10, (width - 1) as nat).push(digit(n % 10))
    }
}

/// The time per operation in nanoseconds when `operations` operations took
/// `total_nanos` nanoseconds: the quotient, rounded to the nearest whole
/// nanosecond, a half rounding up.
pub open spec fn per_op_nanos(total_nanos: nat, operations: nat) -> nat
    recommends
        operations > 0,
{
    let quotient = total_nanos / operations;
    let rest = total_nanos % operations;
    if rest >= operations - rest {
        quotient + 1
    } else {
        quotient
    }
}

/// The time per operation is the nearest whole number of nanoseconds: it
/// differs from the exact quotient by at most half a nanosecond. So it is
/// at least one nanosecond as soon as the exact quotient is at least half a
/// nanosecond, and zero only below that.
pub proof fn lemma_per_op_is_nearest(total_nanos: nat, operations: nat)
    requires
        operations > 0,
    ensures
        2 * (total_nanos - per_op_nanos(total_nanos, operations) * operations) < operations,
        2 * (per_op_nanos(total_nanos, operations) * operations - total_nanos) <= operations,
        2 * total_nanos >= operations <==> per_op_nanos(total_nanos, operations) >= 1,
{
    let quotient = total_nanos / operations;
    let rest = total_nanos % operations;
    vstd::arithmetic::div_mod::lemma_fundamental_div_mod(total_nanos as int, operations as int);
    assert(total_nanos == operations * quotient + rest);
    assert(operations * quotient == quotient * operations) by (nonlinear_arith);
    assert((quotient + 1) * operations == quotient * operations + operations)
        by (nonlinear_arith);
    assert(quotient >= 1 ==> quotient * operations >= operations) by (nonlinear_arith);
    assert(quotient == 0 ==> quotient * operations == 0) by (nonlinear_arith);
}

/// The time per operation in seconds, printed to the nanosecond. Without
/// operations there is no quotient: the text is `NaN` where no time passed
/// either, and `inf` otherwise.
pub open spec fn per_op_text(total_nanos: nat, operations: nat) -> Seq<char> {
    if operations == 0 {
        if total_nanos == 0 {
            "NaN"@
        } else {
            "inf"@
        }
    } else {
        let per_op = per_op_nanos(total_nanos, operations);
        decimal(per_op / (NANOS_PER_SEC as nat)) + "."@ + padded(
            per_op % (NANOS_PER_SEC as nat),
            PER_OP_DIGITS as nat,
        )
    }
}

/// One line of the report: the strategy's label, the total as `total`
/// spells it, and the time per operation.
pub open spec fn line_text(
    label: Seq<char>,
    total: Seq<char>,
    total_nanos: nat,
    operations: nat,
) -> Seq<char> {
    label + ": "@ + total + " total, "@ + per_op_text(total_nanos, operations) + "s/op\n"@
}

/// The heading of the report.
pub open spec fn heading_text(workers: nat, iterations: nat) -> Seq<char> {
    "Benchmark results (workers = "@ + decimal(workers) + ", iters = "@ + decimal(iterations)
        + ")\n\n"@
}

/// The line of one strategy that took `elapsed` for `operations`
/// operations.
pub open spec fn strategy_text(label: Seq<char>, elapsed: Elapsed, operations: nat) -> Seq<char> {
    line_text(
        label,
        duration_debug(elapsed.spec_secs(), elapsed.spec_subsec_nanos()),
        elapsed.nanos(),
        operations,
    )
}

/// The whole report: the heading and one line for each of the three
/// strategies, each over `workers` times `iterations` operations.
pub open spec fn report_text(
    workers: nat,
    iterations: nat,
    one_to_one: Elapsed,
    many_to_many: Elapsed,
    many_to_one: Elapsed,
) -> Seq<char> {
    heading_text(workers, iterations) + strategy_text(
        "One-to-One (OS threads)"@,
        one_to_one,
        workers * iterations,
    ) + strategy_text("Many-to-Many (async tasks)"@, many_to_many, workers * iterations)
        + strategy_text("Many-to-One (sequential)"@, many_to_one, workers * iterations)
}

fn digit_text(d: u8) -> (text: &'static str)
    requires
        d < 10,
    ensures
        text@ == seq![digit(d as nat)],
{
    proof {
        reveal_strlit("0");
        reveal_strlit("1");
        reveal_strlit("2");
        reveal_strlit("3");
        reveal_strlit("4");
        reveal_strlit("5");
        reveal_strlit("6");
        reveal_strlit("7");
        reveal_strlit("8");
        reveal_strlit("9");
    }
    let text = match d {
        0 => "0",
        1 => "1",
        2 => "2",
        3 => "3",
        4 => "4",
        5 => "5",
        6 => "6",
        7 => "7",
        8 => "8",
        _ => "9",
    };
    assert(text@ =~= seq![digit(d as nat)]);
    text
}

/// Appends a number in decimal.
pub fn push_decimal(out: &mut String, n: u128)
    ensures
        final(out)@ == old(out)@ + decimal(n as nat),
    decreases n,
{
    if n >= 10 {
        push_decimal(out, n / 10);
    }
    out.append(digit_text((n % 10) as u8));
    assert(out@ =~= old(out)@ + decimal(n as nat));
}

/// Appends the last `width` decimal digits of a number, with leading zeros.
pub fn push_padded(out: &mut String, n: u128, width: usize)
    ensures
        final(out)@ == old(out)@ + padded(n as nat, width as nat),
    decreases width,
{
    if width > 0 {
        push_padded(out, n / 10, width - 1);
        out.append(digit_text((n % 10) as u8));
    }
    assert(out@ =~= old(out)@ + padded(n as nat, width as nat));
}

/// The time per operation in nanoseconds, rounded to the nearest whole
/// nanosecond, for at least one operation.
pub fn per_op(total_nanos: u128, operations: u128) -> (nanos: Option<u128>)
    ensures
        match nanos {
            Some(n) => operations > 0 && n == per_op_nanos(total_nanos as nat, operations as nat),
            None => operations == 0,
        },
{
    if operations == 0 {
        return None;
    }
    let quotient = total_nanos / operations;
    let rest = total_nanos % operations;
    if rest >= operations - rest {
        assert(quotient < u128::MAX) by (nonlinear_arith)
            requires
                quotient == total_nanos / operations,
                rest == total_nanos % operations,
                rest >= operations - rest,
                operations > 0,
                total_nanos <= u128::MAX,
        {
            assert(operations >= 2);
            assert(quotient * operations <= total_nanos);
        }
        Some(quotient + 1)
    } else {
        Some(quotient)
    }
}

/// Appends the time per operation.
pub fn push_per_op(out: &mut String, total_nanos: u128, operations: u128)
    ensures
        final(out)@ == old(out)@ + per_op_text(total_nanos as nat, operations as nat),
{
    match per_op(total_nanos, operations) {
        None => {
            if total_nanos == 0 {
                out.append("NaN");
            } else {
                out.append("inf");
            }
        },
        Some(nanos) => {
            push_decimal(out, nanos / (NANOS_PER_SEC as u128));
            out.append(".");
            push_padded(out, nanos % (NANOS_PER_SEC as u128), PER_OP_DIGITS);
            assert(out@ =~= old(out)@ + per_op_text(total_nanos as nat, operations as nat));
        },
    }
}

/// Appends one line of the report, given the text that spells the total.
pub fn push_line(out: &mut String, label: &str, total: &str, total_nanos: u128, operations: u128)
    ensures
        final(out)@ == old(out)@ + line_text(
            label@,
            total@,
            total_nanos as nat,
            operations as nat,
        ),
{
    out.append(label);
    out.append(": ");
    out.append(total);
    out.append(" total, ");
    push_per_op(out, total_nanos, operations);
    out.append("s/op\n");
    assert(out@ =~= old(out)@ + line_text(
        label@,
        total@,
        total_nanos as nat,
        operations as nat,
    ));
}

/// Appends the line of one strategy.
pub fn push_strategy(out: &mut String, label: &str, elapsed: Elapsed, operations: u128)
    ensures
        final(out)@ == old(out)@ + strategy_text(label@, elapsed, operations as nat),
{
    let total = duration_text(elapsed.secs(), elapsed.subsec_nanos());
    push_line(out, label, total.as_str(), elapsed.as_nanos(), operations);
}

/// The product of two machine words, which always fits in 128 bits.
pub fn operations(workers: usize, iterations: usize) -> (product: u128)
    ensures
        product == workers * iterations,
{
    assert(workers * iterations <= 0xffff_ffff_ffff_ffff * 0xffff_ffff_ffff_ffff)
        by (nonlinear_arith)
        requires
            workers <= 0xffff_ffff_ffff_ffff,
            iterations <= 0xffff_ffff_ffff_ffff,
    ;
    workers as u128 * iterations as u128
}

/// The report on three measurements, each taken over `workers` times
/// `iterations` operations.
pub fn format_report(
    workers: usize,
    iterations: usize,
    one_to_one: Elapsed,
    many_to_many: Elapsed,
    many_to_one: Elapsed,
) -> (report: String)
    ensures
        report@ == report_text(
            workers as nat,
            iterations as nat,
            one_to_one,
            many_to_many,
            many_to_one,
        ),
{
    let count = operations(workers, iterations);
    let mut out = String::from_str("Benchmark results (workers = ");
    push_decimal(&mut out, workers as u128);
    out.append(", iters = ");
    push_decimal(&mut out, iterations as u128);
    out.append(")\n\n");
    assert(out@ =~= heading_text(workers as nat, iterations as nat));
    push_strategy(&mut out, "One-to-One (OS threads)", one_to_one, count);
    push_strategy(&mut out, "Many-to-Many (async tasks)", many_to_many, count);
    push_strategy(&mut out, "Many-to-One (sequential)", many_to_one, count);
    out
}

} // verus!
