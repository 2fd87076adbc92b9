use dispatch_bench::dispatch::{run_dynamic_dispatch, run_function_pointer, run_static_dispatch};
use dispatch_bench::work::{count_invocation, work_function, ConcreteWorker, CountingWorker, DoWork, InnerObject};

#[test]
fn dynamic_dispatch_counts_five() {
    assert_eq!(run_dynamic_dispatch::<dyn DoWork>(&CountingWorker, 5, 0), 5);
}

#[test]
fn function_pointer_counts_five() {
    let func: fn(u64) -> u64 = count_invocation;
    assert_eq!(run_function_pointer(func, 5, 0), 5);
}

#[test]
fn static_dispatch_counts_five() {
    let worker = CountingWorker;
    assert_eq!(run_static_dispatch(|t| worker.do_work(t), 5, 0), 5);
}

#[test]
fn each_variant_runs_the_configured_count() {
    let func: fn(u64) -> u64 = count_invocation;
    assert_eq!(run_dynamic_dispatch::<dyn DoWork>(&CountingWorker, 1000, 0), 1000);
    assert_eq!(run_function_pointer(func, 1000, 0), 1000);
    assert_eq!(run_static_dispatch(count_invocation, 1000, 0), 1000);
}

#[test]
fn counting_starts_from_the_seed() {
    assert_eq!(run_dynamic_dispatch::<dyn DoWork>(&CountingWorker, 3, 40), 43);
    assert_eq!(run_static_dispatch(count_invocation, 3, 40), 43);
}

#[test]
fn zero_iterations_invoke_nothing() {
    let func: fn(u64) -> u64 = count_invocation;
    assert_eq!(run_dynamic_dispatch::<dyn DoWork>(&CountingWorker, 0, 11), 11);
    assert_eq!(run_function_pointer(func, 0, 11), 11);
    assert_eq!(run_static_dispatch(count_invocation, 0, 11), 11);
}

#[test]
fn no_op_units_keep_the_tally() {
    let func: fn(u64) -> u64 = work_function;
    let inner = InnerObject;
    assert_eq!(run_dynamic_dispatch::<dyn DoWork>(&ConcreteWorker, 1000, 9), 9);
    assert_eq!(run_function_pointer(func, 1000, 9), 9);
    assert_eq!(run_static_dispatch(|t| inner.action(t), 1000, 9), 9);
}

#[test]
fn count_invocation_adds_one() {
    assert_eq!(count_invocation(7), 8);
    assert_eq!(CountingWorker.do_work(0), 1);
}

#[test]
fn count_invocation_holds_at_the_largest_tally() {
    assert_eq!(count_invocation(u64::MAX), u64::MAX);
    assert_eq!(run_dynamic_dispatch::<dyn DoWork>(&CountingWorker, 5, u64::MAX - 2), u64::MAX);
}

#[test]
fn no_op_units_hand_back_their_argument() {
    assert_eq!(work_function(42), 42);
    assert_eq!(ConcreteWorker.do_work(42), 42);
    assert_eq!(InnerObject.action(42), 42);
}
