//! The period of the scan timer.

use trove::{timer_cycles, F_CPU};

#[test]
fn cpu_runs_at_sixteen_megahertz() {
    assert_eq!(F_CPU, 16_000_000);
}

#[test]
fn timer_counts_eight_ticks_for_a_microsecond() {
    assert_eq!(timer_cycles(0), 0);
    assert_eq!(timer_cycles(1), 8);
    assert_eq!(timer_cycles(1500), 12_000);
    assert_eq!(timer_cycles(8191), 65_528);
}

#[test]
fn timer_register_keeps_the_low_sixteen_bits() {
    assert_eq!(timer_cycles(8192), 0);
    assert_eq!(timer_cycles(8193), 8);
    assert_eq!(timer_cycles(10_000), 14_464);
    assert_eq!(timer_cycles(u32::MAX / 8), 65_528);
}
