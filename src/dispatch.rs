//! The three loop drivers, one per call mechanism, and what they do in terms
//! of the tally.
use vstd::prelude::*;
use crate::work::{counted, DoWork};

verus! {

/// `step` applied `n` times to `seed`.
pub open spec fn iterate(step: spec_fn(u64) -> u64, n: nat, seed: u64) -> u64
    decreases n,
{
    if n == 0 {
        seed
    } else {
        step(iterate(step, (n - 1) as nat, seed))
    }
}

/// What one invocation of `w` does to the tally.
pub open spec fn worker_step<W: DoWork + ?Sized>(w: &W) -> spec_fn(u64) -> u64 {
    |t: u64| w.next_tally(t)
}

/// `trace` lists the tallies that successive invocations of `f` passed along:
/// each entry after the first is what `f` may return for the one before it.
pub open spec fn is_run<F: Fn(u64) -> u64>(f: F, trace: Seq<u64>) -> bool {
    forall|i: int| 0 <= i < trace.len() - 1 ==> f.ensures((trace[i],), #[trigger] trace[i + 1])
}

/// `f` was invoked exactly `n` times, starting from `seed` and ending at `r`.
pub open spec fn invoked_times<F: Fn(u64) -> u64>(f: F, n: nat, seed: u64, r: u64) -> bool {
    exists|trace: Seq<u64>|
        #![trigger is_run(f, trace)]
        trace.len() == n + 1 && trace[0] == seed && trace.last() == r && is_run(f, trace)
}

/// Invokes `worker` `iterations` times, threading the tally from `seed`. Called
/// at `W = dyn DoWork`, every invocation goes through the trait object's
/// vtable.
pub fn run_dynamic_dispatch<W: DoWork + ?Sized>(worker: &W, iterations: u64, seed: u64) -> (r: u64)
    ensures
        r == iterate(worker_step(worker), iterations as nat, seed),
{
    let mut tally = seed;
    let mut i: u64 = 0;
    while i < iterations
        invariant
            i <= iterations,
            tally == iterate(worker_step(worker), i as nat, seed),
        decreases iterations - i,
    {
        tally = worker.do_work(tally);
        i = i + 1;
    }
    tally
}

/// The loop shared by the two drivers that take a callable.
fn drive<F: Fn(u64) -> u64>(f: &F, iterations: u64, seed: u64) -> (r: u64)
    requires
        forall|t: u64| f.requires((t,)),
    ensures
        invoked_times(*f, iterations as nat, seed, r),
{
    let mut tally = seed;
    let mut i: u64 = 0;
    let ghost mut trace: Seq<u64> = seq![seed];
    while i < iterations
        invariant
            i <= iterations,
            forall|t: u64| f.requires((t,)),
            trace.len() == i + 1,
            trace[0] == seed,
            trace.last() == tally,
            is_run(*f, trace),
        decreases iterations - i,
    {
        let next = f(tally);
        proof {
            let old_trace = trace;
            trace = trace.push(next);
            assert forall|j: int| 0 <= j < trace.len() - 1 implies f.ensures(
                (trace[j],),
                #[trigger] trace[j + 1],
            ) by {
                if j < old_trace.len() - 1 {
                    assert(trace[j] == old_trace[j] && trace[j + 1] == old_trace[j + 1]);
                }
            }
        }
        tally = next;
        i = i + 1;
    }
    assert(is_run(*f, trace));
    tally
}

/// Invokes `func`, a stateless callable passed by value, `iterations` times,
/// threading the tally from `seed`. With a `fn` pointer as `func` every call
/// is an indirect jump.
pub fn run_function_pointer<F: Fn(u64) -> u64 + Copy>(func: F, iterations: u64, seed: u64) -> (r: u64)
    requires
        forall|t: u64| func.requires((t,)),
    ensures
        invoked_times(func, iterations as nat, seed, r),
{
    drive(&func, iterations, seed)
}

/// Invokes `f` `iterations` times, threading the tally from `seed`; the call
/// is resolved for each concrete `F` at compile time.
pub fn run_static_dispatch<F: Fn(u64) -> u64>(f: F, iterations: u64, seed: u64) -> (r: u64)
    requires
        forall|t: u64| f.requires((t,)),
    ensures
        invoked_times(f, iterations as nat, seed, r),
{
    drive(&f, iterations, seed)
}

/// Every value that `f` may return is the counted successor of its argument.
pub open spec fn counts_invocations<F: Fn(u64) -> u64>(f: F) -> bool {
    forall|t: u64, r: u64| f.ensures((t,), r) ==> r == counted(t)
}

/// Every value that `f` may return is its argument.
pub open spec fn keeps_tally<F: Fn(u64) -> u64>(f: F) -> bool {
    forall|t: u64, r: u64| f.ensures((t,), r) ==> r == t
}

/// The dynamic driver run `n` times on a counting worker raises the tally by `n`.
pub proof fn lemma_counting_worker_counts<W: DoWork + ?Sized>(w: &W, n: nat, seed: u64)
    requires
        forall|t: u64| #[trigger] w.next_tally(t) == counted(t),
        seed + n <= u64::MAX,
    ensures
        iterate(worker_step(w), n, seed) == seed + n,
    decreases n,
{
    if n > 0 {
        lemma_counting_worker_counts(w, (n - 1) as nat, seed);
    }
}

/// The dynamic driver run on a worker that keeps the tally hands back the
/// tally it started from, however often it runs.
pub proof fn lemma_no_op_worker_keeps_tally<W: DoWork + ?Sized>(w: &W, n: nat, seed: u64)
    requires
        forall|t: u64| #[trigger] w.next_tally(t) == t,
    ensures
        iterate(worker_step(w), n, seed) == seed,
    decreases n,
{
    if n > 0 {
        lemma_no_op_worker_keeps_tally(w, (n - 1) as nat, seed);
    }
}

proof fn lemma_counting_trace<F: Fn(u64) -> u64>(f: F, trace: Seq<u64>, k: int)
    requires
        counts_invocations(f),
        is_run(f, trace),
        0 <= k < trace.len(),
        trace[0] + trace.len() - 1 <= u64::MAX,
    ensures
        trace[k] == trace[0] + k,
    decreases k,
{
    if k > 0 {
        lemma_counting_trace(f, trace, k - 1);
        assert(f.ensures((trace[k - 1],), trace[(k - 1) + 1]));
    }
}

proof fn lemma_keeping_trace<F: Fn(u64) -> u64>(f: F, trace: Seq<u64>, k: int)
    requires
        keeps_tally(f),
        is_run(f, trace),
        0 <= k < trace.len(),
    ensures
        trace[k] == trace[0],
    decreases k,
{
    if k > 0 {
        lemma_keeping_trace(f, trace, k - 1);
        assert(f.ensures((trace[k - 1],), trace[(k - 1) + 1]));
    }
}

/// A counting unit invoked exactly `n` times from `seed` ends with the tally
/// at `seed + n`, whichever mechanism invoked it.
pub proof fn lemma_counting_unit_counts<F: Fn(u64) -> u64>(f: F, n: nat, seed: u64, r: u64)
    requires
        counts_invocations(f),
        invoked_times(f, n, seed, r),
        seed + n <= u64::MAX,
    ensures
        r == seed + n,
{
    let trace = choose|trace: Seq<u64>|
        #![trigger is_run(f, trace)]
        trace.len() == n + 1 && trace[0] == seed && trace.last() == r && is_run(f, trace);
    lemma_counting_trace(f, trace, n as int);
}

/// A unit that keeps the tally, invoked any number of times, hands back the
/// tally it started from.
pub proof fn lemma_no_op_unit_keeps_tally<F: Fn(u64) -> u64>(f: F, n: nat, seed: u64, r: u64)
    requires
        keeps_tally(f),
        invoked_times(f, n, seed, r),
    ensures
        r == seed,
{
    let trace = choose|trace: Seq<u64>|
        #![trigger is_run(f, trace)]
        trace.len() == n + 1 && trace[0] == seed && trace.last() == r && is_run(f, trace);
    lemma_keeping_trace(f, trace, n as int);
}

/// With counting units, the three mechanisms agree: a counting worker run `n`
/// times by the dynamic driver, and two counting callables each invoked
/// exactly `n` times, all end with the tally at `seed + n`.
pub proof fn lemma_dispatch_variants_agree<
    W: DoWork + ?Sized,
    F: Fn(u64) -> u64,
    G: Fn(u64) -> u64,
>(w: &W, f: F, g: G, n: nat, seed: u64, r_f: u64, r_g: u64)
    requires
        forall|t: u64| #[trigger] w.next_tally(t) == counted(t),
        counts_invocations(f),
        counts_invocations(g),
        invoked_times(f, n, seed, r_f),
        invoked_times(g, n, seed, r_g),
        seed + n <= u64::MAX,
    ensures
        iterate(worker_step(w), n, seed) == seed + n,
        r_f == seed + n,
        r_g == seed + n,
{
    lemma_counting_worker_counts(w, n, seed);
    lemma_counting_unit_counts(f, n, seed, r_f);
    lemma_counting_unit_counts(g, n, seed, r_g);
}

/// Zero iterations invoke nothing: every driver hands back the seed.
pub proof fn lemma_zero_iterations_invoke_nothing<F: Fn(u64) -> u64, W: DoWork + ?Sized>(
    f: F,
    w: &W,
    seed: u64,
    r: u64,
)
    requires
        invoked_times(f, 0, seed, r),
    ensures
        r == seed,
        iterate(worker_step(w), 0, seed) == seed,
{
}

} // verus!
