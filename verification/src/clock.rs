//! Wall-clock measurement. The clock itself is the standard library's and
//! is taken on trust; what it measured is kept as plain numbers.

use std::time::Duration;
use std::time::Instant;
use vstd::prelude::*;

verus! {

/// Nanoseconds in one second.
pub const NANOS_PER_SEC: u32 = 1000000000;

/// `std::time::Instant`, opaque to the verifier.
#[verifier::external_type_specification]
#[verifier::external_body]
pub struct ExInstant(Instant);

/// A span of time: whole seconds and the nanoseconds beyond them.
#[derive(Clone, Copy, Debug, PartialEq, Eq, Structural)]
pub struct Elapsed {
    secs: u64,
    subsec_nanos: u32,
}

impl Elapsed {
    /// The nanoseconds stay below one second.
    #[verifier::type_invariant]
    closed spec fn wf(self) -> bool {
        self.subsec_nanos < NANOS_PER_SEC
    }

    /// The whole seconds of the span.
    pub closed spec fn spec_secs(self) -> u64 {
        self.secs
    }

    /// The nanoseconds beyond the whole seconds.
    pub closed spec fn spec_subsec_nanos(self) -> u32 {
        self.subsec_nanos
    }

    /// The whole span in nanoseconds.
    pub open spec fn nanos(self) -> nat {
        (self.spec_secs() * NANOS_PER_SEC + self.spec_subsec_nanos()) as nat
    }

    /// The span of `secs` seconds and `subsec_nanos` nanoseconds, where the
    /// nanoseconds stay below one second.
    pub fn new(secs: u64, subsec_nanos: u32) -> (span: Option<Elapsed>)
        ensures
            match span {
                Some(e) => subsec_nanos < NANOS_PER_SEC && e.spec_secs() == secs
                    && e.spec_subsec_nanos() == subsec_nanos,
                None => subsec_nanos >= NANOS_PER_SEC,
            },
    {
        if subsec_nanos < NANOS_PER_SEC {
            Some(Elapsed { secs, subsec_nanos })
        } else {
            None
        }
    }

    /// The whole seconds of the span.
    #[verifier::when_used_as_spec(spec_secs)]
    pub fn secs(self) -> (secs: u64)
        ensures
            secs == self.spec_secs(),
    {
        self.secs
    }

    /// The nanoseconds beyond the whole seconds.
    #[verifier::when_used_as_spec(spec_subsec_nanos)]
    pub fn subsec_nanos(self) -> (nanos: u32)
        ensures
            nanos == self.spec_subsec_nanos(),
            nanos < NANOS_PER_SEC,
    {
        proof {
            use_type_invariant(self);
        }
        self.subsec_nanos
    }

    /// The whole span in nanoseconds.
    pub fn as_nanos(self) -> (nanos: u128)
        ensures
            nanos == self.nanos(),
    {
        assert(self.secs * NANOS_PER_SEC <= u64::MAX * 1000000000) by (nonlinear_arith)
            requires
                NANOS_PER_SEC == 1000000000,
                self.secs <= u64::MAX,
        ;
        self.secs as u128 * NANOS_PER_SEC as u128 + self.subsec_nanos as u128
    }
}

/// `Instant::now`: the present moment of the monotonic clock.
#[verifier::external_body]
pub(crate) fn clock_start() -> (start: Instant) {
    Instant::now()
}

/// `Instant::elapsed`: the time that has passed since `start`, split by
/// `Duration::as_secs` and `Duration::subsec_nanos` into whole seconds and
/// the nanoseconds beyond them, which are always less than one second.
#[verifier::external_body]
pub(crate) fn clock_elapsed(start: &Instant) -> (span: Elapsed)
    ensures
        span.spec_subsec_nanos() < NANOS_PER_SEC,
{
    let passed = start.elapsed();
    Elapsed { secs: passed.as_secs(), subsec_nanos: passed.subsec_nanos() }
}

/// What the standard library prints for a duration in its debug form:
/// the span in the largest unit that leaves a whole part, such as `1.5s`,
/// `12.25ms` or `100ns`.
pub uninterp spec fn duration_debug(secs: u64, subsec_nanos: u32) -> Seq<char>;

/// The `Debug` form of the `Duration` that `Duration::new` makes of the
/// two numbers. With the nanoseconds below one second the constructor has
/// nothing to carry and cannot overflow.
#[verifier::external_body]
pub(crate) fn duration_text(secs: u64, subsec_nanos: u32) -> (text: String)
    requires
        subsec_nanos < NANOS_PER_SEC,
    ensures
        text@ == duration_debug(secs, subsec_nanos),
{
    format!("{:?}", Duration::new(secs, subsec_nanos))
}

} // verus!
