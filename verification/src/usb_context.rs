//! The order in which the reports of a scan go to the host.
//!
//! Every report of a scan is pushed to the host and followed by a blank
//! report, so that the host never sees a key stuck. After each push the USB
//! device is polled once. Pushing and polling are the caller's part; which
//! report is pushed at which step is decided here.

use crate::report::{blank_report, is_blank, KeyboardReport};
use vstd::prelude::*;

verus! {

/// Maximum number of [`KeyboardReport`]s that can be returned by a matrix scan.
///
/// There are 4 rows, 12 columns, and each report holds 6 key codes: 4 * 12 / 6 = 8
pub const MAX_KEYBOARD_REPORTS: usize = 8;

/// Number of pushes that dispatch `count` reports: each report and a blank
/// report after it.
pub open spec fn dispatch_len(count: int) -> int {
    2 * count
}

/// Whether `pushed` is what is pushed at step `step` of the dispatch of
/// `reports`: report number `step / 2` at an even step, a blank report at an
/// odd step, and nothing once all reports are dispatched.
pub open spec fn is_dispatched<const N: usize>(
    reports: [KeyboardReport; N],
    step: int,
    pushed: Option<KeyboardReport>,
) -> bool {
    if 0 <= step < dispatch_len(N as int) {
        match pushed {
            Some(report) => if step % 2 == 0 {
                report == reports[step / 2]
            } else {
                is_blank(report)
            },
            None => false,
        }
    } else {
        pushed is None
    }
}

/// Gets the report to push at step `step` of the dispatch of `reports`, or
/// `None` when the dispatch is over.
pub fn dispatch_report<const N: usize>(reports: &[KeyboardReport; N], step: usize) -> (pushed: Option<
    KeyboardReport,
>)
    ensures
        is_dispatched(*reports, step as int, pushed),
{
    if step / 2 >= N {
        None
    } else if step % 2 == 0 {
        Some(reports[step / 2])
    } else {
        Some(blank_report())
    }
}

} // verus!
