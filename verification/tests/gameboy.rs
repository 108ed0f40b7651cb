use gbemu_rust::gameboy::{cycles_due, CPU_CLOCK_HZ, M_CYCLE_CLOCK, M_CYCLE_NANOS};

#[test]
fn a_machine_cycle_is_953_nanoseconds() {
    assert_eq!(4_194_304, CPU_CLOCK_HZ);
    assert_eq!(4, M_CYCLE_CLOCK);
    assert_eq!(953, M_CYCLE_NANOS);
}

#[test]
fn cycles_due_counts_whole_cycles() {
    assert_eq!(0, cycles_due(0, 0));
    assert_eq!(0, cycles_due(952, 0));
    assert_eq!(1, cycles_due(953, 0));
    assert_eq!(1, cycles_due(1905, 0));
    assert_eq!(2, cycles_due(1906, 0));
    assert_eq!(2, cycles_due(2000, 0));
    assert_eq!(1_049_317, cycles_due(1_000_000_000, 0));
}

#[test]
fn cycles_due_starts_from_the_time_already_run() {
    assert_eq!(0, cycles_due(1906, 1906));
    assert_eq!(1, cycles_due(2859, 1906));
    assert_eq!(0, cycles_due(2858, 1906));
}

#[test]
fn cycles_due_is_zero_when_the_clock_lags() {
    assert_eq!(0, cycles_due(100, 200));
    assert_eq!(0, cycles_due(0, u128::MAX));
}
