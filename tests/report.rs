use dispatch_bench::report::{seconds_reading, trial_order, Dispatch, SecondsReading};

#[test]
fn trials_run_in_fixed_order() {
    assert_eq!(
        trial_order(),
        vec![Dispatch::Dynamic, Dispatch::FunctionPointer, Dispatch::Static]
    );
}

#[test]
fn zero_elapsed_reads_zero_seconds() {
    assert_eq!(seconds_reading(0), SecondsReading { whole: 0, micros: 0 });
}

#[test]
fn reading_rounds_to_the_microsecond() {
    assert_eq!(seconds_reading(1_234_567_890), SecondsReading { whole: 1, micros: 234_568 });
    assert_eq!(seconds_reading(1_234_567_499), SecondsReading { whole: 1, micros: 234_567 });
}

#[test]
fn half_a_microsecond_rounds_up() {
    assert_eq!(seconds_reading(499), SecondsReading { whole: 0, micros: 0 });
    assert_eq!(seconds_reading(500), SecondsReading { whole: 0, micros: 1 });
}

#[test]
fn rounding_carries_into_the_seconds() {
    assert_eq!(seconds_reading(999_999_500), SecondsReading { whole: 1, micros: 0 });
}

#[test]
fn largest_elapsed_time_reads_without_overflow() {
    assert_eq!(
        seconds_reading(u64::MAX),
        SecondsReading { whole: 18_446_744_073, micros: 709_552 }
    );
}
