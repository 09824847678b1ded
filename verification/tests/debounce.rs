//! The debouncer of one row.

use trove::{Debounce, DebounceRowState, RowState};

fn row(bits: u16) -> RowState {
    RowState::from_u16(bits)
}

#[test]
fn new_debounce_is_all_zero() {
    let debounce = Debounce::new();
    assert_eq!(debounce.db0(), RowState::new());
    assert_eq!(debounce.db1(), RowState::new());
    assert_eq!(debounce.debounced(), RowState::new());
    assert_eq!(Debounce::default(), debounce);
}

#[test]
fn counter_advances_with_each_disagreeing_sample() {
    let mut debounce = Debounce::new();
    let sample = row(0b0101);

    assert_eq!(debounce.debounce(sample), row(0));
    assert_eq!(debounce.db0(), row(0b0101));
    assert_eq!(debounce.db1(), row(0));
    assert_eq!(debounce.debounced(), row(0));

    assert_eq!(debounce.debounce(sample), row(0));
    assert_eq!(debounce.db0(), row(0));
    assert_eq!(debounce.db1(), row(0b0101));
    assert_eq!(debounce.debounced(), row(0));

    assert_eq!(debounce.debounce(sample), row(0));
    assert_eq!(debounce.db0(), row(0b0101));
    assert_eq!(debounce.db1(), row(0b0101));
    assert_eq!(debounce.debounced(), row(0));

    assert_eq!(debounce.debounce(sample), sample);
    assert_eq!(debounce.db0(), row(0));
    assert_eq!(debounce.db1(), row(0));
    assert_eq!(debounce.debounced(), sample);
}

#[test]
fn sustained_change_flips_once_and_stays() {
    let mut debounce = Debounce::new();
    let sample = row(0x0801);
    let mut flips = 0;
    for cycle in 1..=100 {
        let changes = debounce.debounce(sample);
        if changes.is_active() {
            flips += 1;
            assert_eq!(cycle, 4);
            assert_eq!(changes, sample);
        }
        if cycle < 4 {
            assert_eq!(debounce.debounced(), row(0));
        } else {
            assert_eq!(debounce.debounced(), sample);
        }
    }
    assert_eq!(flips, 1);
}

#[test]
fn release_is_debounced_like_a_press() {
    let mut debounce = Debounce::new();
    for _ in 0..4 {
        debounce.debounce(row(1));
    }
    assert_eq!(debounce.debounced(), row(1));
    for _ in 0..3 {
        assert_eq!(debounce.debounce(row(0)), row(0));
        assert_eq!(debounce.debounced(), row(1));
    }
    assert_eq!(debounce.debounce(row(0)), row(1));
    assert_eq!(debounce.debounced(), row(0));
}

#[test]
fn alternating_samples_never_flip() {
    let mut debounce = Debounce::new();
    for cycle in 0..10_000 {
        let sample = if cycle % 2 == 0 { row(0) } else { row(0xffff) };
        assert_eq!(debounce.debounce(sample), row(0));
        assert_eq!(debounce.debounced(), row(0));
    }
}

#[test]
fn alternating_samples_never_flip_a_set_column() {
    let mut debounce = Debounce::new();
    for _ in 0..4 {
        debounce.debounce(row(0x00f0));
    }
    assert_eq!(debounce.debounced(), row(0x00f0));
    for cycle in 0..1_000 {
        let sample = if cycle % 2 == 0 { row(0x00f0) } else { row(0x0f0f) };
        assert_eq!(debounce.debounce(sample), row(0));
        assert_eq!(debounce.debounced(), row(0x00f0));
    }
}

#[test]
fn glitch_of_three_samples_is_thrown_away() {
    let mut debounce = Debounce::new();
    for _ in 0..3 {
        assert_eq!(debounce.debounce(row(1)), row(0));
    }
    assert_eq!(debounce.debounce(row(0)), row(0));
    assert_eq!(debounce.db0(), row(0));
    assert_eq!(debounce.db1(), row(0));
    // the count starts again
    for _ in 0..3 {
        assert_eq!(debounce.debounce(row(1)), row(0));
    }
    assert_eq!(debounce.debounce(row(1)), row(1));
}

#[test]
fn stable_sample_reports_no_change() {
    let mut debounce = Debounce::new();
    for _ in 0..4 {
        debounce.debounce(row(0x0a50));
    }
    for _ in 0..100 {
        let stable = debounce.debounced();
        assert_eq!(debounce.debounce(stable), row(0));
        assert_eq!(debounce.debounced(), stable);
    }
}

#[test]
fn stable_sample_resets_pending_counts() {
    let mut debounce = Debounce::new();
    debounce.debounce(row(0xffff));
    debounce.debounce(row(0xffff));
    assert_eq!(debounce.db1(), row(0xffff));
    let stable = debounce.debounced();
    assert_eq!(debounce.debounce(stable), row(0));
    assert_eq!(debounce.db0(), row(0));
    assert_eq!(debounce.db1(), row(0));
}

#[test]
fn columns_are_debounced_independently() {
    let mut debounce = Debounce::new();
    // column 0 starts two samples before column 1
    assert_eq!(debounce.debounce(row(0b01)), row(0));
    assert_eq!(debounce.debounce(row(0b01)), row(0));
    assert_eq!(debounce.debounce(row(0b11)), row(0));
    assert_eq!(debounce.debounce(row(0b11)), row(0b01));
    assert_eq!(debounce.debounce(row(0b11)), row(0));
    assert_eq!(debounce.debounce(row(0b11)), row(0b10));
    assert_eq!(debounce.debounced(), row(0b11));
}

#[test]
fn new_row_is_all_zero() {
    let state = DebounceRowState::new();
    assert_eq!(state.previous(), RowState::new());
    assert_eq!(state.current(), RowState::new());
    assert_eq!(state.debouncer(), Debounce::new());
    assert_eq!(DebounceRowState::default(), state);
}

#[test]
fn setters_change_their_own_part() {
    let mut debouncer = Debounce::new();
    debouncer.debounce(row(7));

    let mut state = DebounceRowState::new();
    state.set_previous(row(1));
    assert_eq!(state.previous(), row(1));
    assert_eq!(state.current(), row(0));
    assert_eq!(state.debouncer(), Debounce::new());

    state.set_current(row(2));
    assert_eq!(state.previous(), row(1));
    assert_eq!(state.current(), row(2));
    assert_eq!(state.debouncer(), Debounce::new());

    state.set_debouncer(debouncer);
    assert_eq!(state.previous(), row(1));
    assert_eq!(state.current(), row(2));
    assert_eq!(state.debouncer(), debouncer);
}

#[test]
fn builders_change_their_own_part() {
    let mut debouncer = Debounce::new();
    debouncer.debounce(row(7));

    let state = DebounceRowState::new()
        .with_previous(row(3))
        .with_current(row(4))
        .with_debouncer(debouncer);
    assert_eq!(state.previous(), row(3));
    assert_eq!(state.current(), row(4));
    assert_eq!(state.debouncer(), debouncer);

    let same = DebounceRowState::new()
        .with_debouncer(debouncer)
        .with_current(row(4))
        .with_previous(row(3));
    assert_eq!(same, state);
}
