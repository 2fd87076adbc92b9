//! Units of work: the no-op ones that the benchmark times, and a counting one
//! that shows how often a loop invoked its unit.
use vstd::prelude::*;

verus! {

/// The tally after one counted invocation: one more, held at `u64::MAX`.
pub open spec fn counted(tally: u64) -> u64 {
    if tally < u64::MAX {
        (tally + 1) as u64
    } else {
        tally
    }
}

/// Relies on std::hint::black_box: it returns its argument unchanged, and the
/// optimizer must treat what happens to the value as unknown.
#[verifier::external_body]
fn opaque(tally: u64) -> (r: u64)
    ensures
        r == tally,
{
    std::hint::black_box(tally)
}

/// A capability reached through dynamic dispatch.
pub trait DoWork {
    /// The tally that one invocation hands back for `tally`.
    spec fn next_tally(&self, tally: u64) -> u64;

    fn do_work(&self, tally: u64) -> (r: u64)
        ensures
            r == self.next_tally(tally),
    ;
}

/// A stateless worker whose work has no effect the optimizer may remove.
pub struct ConcreteWorker;

impl DoWork for ConcreteWorker {
    open spec fn next_tally(&self, tally: u64) -> u64 {
        tally
    }

    #[inline(never)]
    fn do_work(&self, tally: u64) -> (r: u64) {
        opaque(tally)
    }
}

/// A worker that counts its invocations in the tally.
pub struct CountingWorker;

impl DoWork for CountingWorker {
    open spec fn next_tally(&self, tally: u64) -> u64 {
        counted(tally)
    }

    #[inline(never)]
    fn do_work(&self, tally: u64) -> (r: u64) {
        count_invocation(tally)
    }
}

/// The no-op unit handed around as a plain function value.
#[inline(never)]
pub fn work_function(tally: u64) -> (r: u64)
    ensures
        r == tally,
{
    opaque(tally)
}

/// The counting unit as a plain function value.
#[inline(never)]
pub fn count_invocation(tally: u64) -> (r: u64)
    ensures
        r == counted(tally),
{
    if tally < u64::MAX {
        opaque(tally + 1)
    } else {
        opaque(tally)
    }
}

/// A stateless helper object whose method a closure forwards to.
pub struct InnerObject;

impl InnerObject {
    #[inline(never)]
    pub fn action(&self, tally: u64) -> (r: u64)
        ensures
            r == tally,
    {
        opaque(tally)
    }
}

} // verus!
