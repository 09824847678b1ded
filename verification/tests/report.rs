//! Filling reports key by key.

use trove::key_defs::{A, B, C, CTRL, D, E, F, G, R_GUI, SHIFT};
use trove::{blank_report, KeyboardReport, ReportWriter, KEYS_PER_REPORT};

fn report(modifier: u8, keycodes: [u8; 6]) -> KeyboardReport {
    KeyboardReport { modifier, reserved: 0, leds: 0, keycodes }
}

#[test]
fn report_holds_six_keycodes() {
    assert_eq!(KEYS_PER_REPORT, 6);
    assert_eq!(blank_report().keycodes.len(), KEYS_PER_REPORT);
}

#[test]
fn writer_without_keys_gives_blank_reports() {
    let writer = ReportWriter::<3>::new();
    assert_eq!(writer.finish(), [blank_report(); 3]);
}

#[test]
fn writer_fills_the_slots_in_order() {
    let mut writer = ReportWriter::<2>::new();
    for key in [A, B, C] {
        writer.add_key(key);
    }
    assert_eq!(writer.finish(), [report(0, [A, B, C, 0, 0, 0]), blank_report()]);
}

#[test]
fn writer_selects_the_next_report_after_six_keys() {
    let mut writer = ReportWriter::<2>::new();
    for key in [A, B, C, D, E, F, G] {
        writer.add_key(key);
    }
    assert_eq!(
        writer.finish(),
        [report(0, [A, B, C, D, E, F]), report(0, [G, 0, 0, 0, 0, 0])]
    );
}

#[test]
fn writer_puts_a_modifier_into_the_selected_report() {
    let mut writer = ReportWriter::<2>::new();
    for key in [CTRL, A, B, C, D, E, SHIFT, F, R_GUI, G] {
        writer.add_key(key);
    }
    assert_eq!(
        writer.finish(),
        [report(0b0000_0011, [A, B, C, D, E, F]), report(0b1000_0000, [G, 0, 0, 0, 0, 0])]
    );
}

#[test]
fn writer_takes_the_same_modifier_twice() {
    let mut writer = ReportWriter::<1>::new();
    writer.add_key(SHIFT);
    writer.add_key(SHIFT);
    assert_eq!(writer.finish(), [report(0b0000_0010, [0; 6])]);
}

#[test]
fn writer_drops_what_does_not_fit() {
    let mut writer = ReportWriter::<1>::new();
    for key in [A, B, C, D, E, F, G, SHIFT, A] {
        writer.add_key(key);
    }
    assert_eq!(writer.finish(), [report(0, [A, B, C, D, E, F])]);

    let mut writer = ReportWriter::<0>::new();
    writer.add_key(A);
    writer.add_key(SHIFT);
    assert_eq!(writer.finish().len(), 0);
}

#[test]
fn writer_goes_on_after_very_many_keys() {
    let mut writer = ReportWriter::<2>::new();
    for _ in 0..100_000 {
        writer.add_key(A);
    }
    assert_eq!(writer.finish(), [report(0, [A; 6]), report(0, [A; 6])]);
}

#[test]
fn report_maps_onto_the_report_of_the_hid_class() {
    let mut writer = ReportWriter::<1>::new();
    for key in [SHIFT, A, B] {
        writer.add_key(key);
    }
    let ours = writer.finish()[0];
    let theirs = usbd_hid::descriptor::KeyboardReport {
        modifier: ours.modifier,
        reserved: ours.reserved,
        leds: ours.leds,
        keycodes: ours.keycodes,
    };
    assert_eq!(theirs.modifier, 0b0000_0010);
    assert_eq!(theirs.reserved, 0);
    assert_eq!(theirs.leds, 0);
    assert_eq!(theirs.keycodes, [A, B, 0, 0, 0, 0]);
}
