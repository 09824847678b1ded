//! Firmware core of a mechanical-keyboard controller.
//!
//! The core takes the sampled rows of a key matrix, removes the bounce of
//! the switches, maps the keys that are down to keycodes and packs them into
//! HID keyboard reports:
//!
//! - [`RowState`] holds one flag for each column of a row;
//! - [`Debounce`] confirms a change of a column only after four samples in
//!   a row that show it;
//! - [`KeyScanner`] debounces all rows and makes the reports;
//! - [`RawSpinLock`] is the flag that guards the context shared between the
//!   interrupt handlers;
//! - [`layers`] holds the key layouts.
//!
//! Reading the pins of the matrix and talking to the USB host are left to
//! the program around this library.

pub mod debounce;
pub mod debounce_row_state;
pub mod key_defs;
pub mod key_scanner;
pub mod layers;
pub mod lock;
pub mod report;
pub mod row_state;
pub mod setup;
pub mod usb_context;

pub use crate::debounce::{Debounce, DebounceView};
pub use crate::debounce_row_state::DebounceRowState;
pub use crate::key_defs::{key_is_modifier, key_to_modifier, COLS, COL_KEYS, ROWS};
pub use crate::key_scanner::{KeyScanner, RowView, ScannerView};
pub use crate::layers::{
    active_layer, layer_index, layer_key, passthrough_key, set_active_layer, Layer,
};
pub use crate::lock::RawSpinLock;
pub use crate::report::{blank_report, KeyboardReport, ReportWriter, KEYS_PER_REPORT};
pub use crate::row_state::{RowState, MAX_COLS};
pub use crate::setup::{timer_cycles, F_CPU};
pub use crate::usb_context::{dispatch_report, MAX_KEYBOARD_REPORTS};
