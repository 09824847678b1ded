//! The period of the timer that triggers a keyscan.

use vstd::prelude::*;

verus! {

/// CPU frequency of the ATmega32u4 (16Mhz).
pub const F_CPU: u32 = 16_000_000;

/// Timer ticks in a microsecond of the scan interval.
pub const TICKS_PER_MICRO: u32 = F_CPU / 2_000_000;

/// The value of the timer's 16-bit top register for an interval of
/// `interval` microseconds: eight ticks for each microsecond, of which the
/// register holds the low sixteen bits.
pub open spec fn spec_timer_cycles(interval: u32) -> u16 {
    ((8 * interval) % 0x1_0000) as u16
}

/// Gets the value of the timer's top register for a scan interval of
/// `interval` microseconds.
#[verifier::when_used_as_spec(spec_timer_cycles)]
pub fn timer_cycles(interval: u32) -> (cycles: u16)
    requires
        8 * interval <= u32::MAX,
    ensures
        cycles == spec_timer_cycles(interval),
        8 * interval <= u16::MAX ==> cycles == 8 * interval,
{
    let cycles = TICKS_PER_MICRO * interval;
    assert(cycles & 0xffff == cycles % 0x1_0000) by (bit_vector);
    (cycles & 0xffff) as u16
}

} // verus!
