//! What a run reports: the trials in their fixed order, and each trial's
//! elapsed time as seconds with six decimals.
use vstd::prelude::*;

verus! {

/// The call mechanism that one trial measures.
#[derive(Clone, Copy, Debug, PartialEq, Eq, Structural)]
pub enum Dispatch {
    Dynamic,
    FunctionPointer,
    Static,
}

/// The order in which a run performs and reports its trials.
pub open spec fn spec_trial_order() -> Seq<Dispatch> {
    seq![Dispatch::Dynamic, Dispatch::FunctionPointer, Dispatch::Static]
}

pub fn trial_order() -> (r: Vec<Dispatch>)
    ensures
        r@ == spec_trial_order(),
{
    let r = vec![Dispatch::Dynamic, Dispatch::FunctionPointer, Dispatch::Static];
    assert(r@ =~= spec_trial_order());
    r
}

pub const NANOS_PER_MICRO: u64 = 1000;

pub const MICROS_PER_SECOND: u64 = 1_000_000;

/// An elapsed time in microseconds, rounded to the nearest one (a half
/// rounds up).
pub open spec fn rounded_micros(nanos: nat) -> nat {
    (nanos + 500) / 1000
}

/// An elapsed time as whole seconds and the six decimals after the point.
#[derive(Clone, Copy, Debug, PartialEq, Eq, Structural)]
pub struct SecondsReading {
    pub whole: u64,
    pub micros: u64,
}

impl SecondsReading {
    pub open spec fn wf(&self) -> bool {
        self.micros < MICROS_PER_SECOND
    }

    /// The reading as a count of microseconds.
    pub open spec fn total_micros(&self) -> nat {
        (self.whole * MICROS_PER_SECOND + self.micros) as nat
    }
}

/// The reading of `nanos` nanoseconds, rounded to the microsecond.
pub fn seconds_reading(nanos: u64) -> (r: SecondsReading)
    ensures
        r.wf(),
        r.total_micros() == rounded_micros(nanos as nat),
{
    let half: u64 = if nanos % NANOS_PER_MICRO >= 500 { 1 } else { 0 };
    let micros = nanos / NANOS_PER_MICRO + half;
    let r = SecondsReading { whole: micros / MICROS_PER_SECOND, micros: micros % MICROS_PER_SECOND };
    assert(micros == (nanos + 500) / 1000) by (nonlinear_arith)
        requires
            half == (if nanos % 1000 >= 500 { 1int } else { 0int }),
            micros == nanos / 1000 + half,
    ;
    assert(micros == r.whole * 1_000_000 + r.micros) by (nonlinear_arith)
        requires
            r.whole == micros / 1_000_000,
            r.micros == micros % 1_000_000,
    ;
    r
}

} // verus!
