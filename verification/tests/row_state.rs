//! Row states as sets of columns.

use bitfield::{Bit, BitMut};
use trove::{RowState, MAX_COLS};

const SAMPLES: [u16; 8] = [0x0000, 0x0001, 0x8000, 0x0fff, 0xa5a5, 0x5a5a, 0x1234, 0xffff];

#[test]
fn new_row_state_has_no_active_column() {
    let state = RowState::new();
    assert_eq!(state.as_inner(), 0);
    assert!(state.is_inactive());
    assert!(!state.is_active());
    for col in 0..MAX_COLS {
        assert!(!state.column(col));
    }
    assert_eq!(RowState::default(), state);
}

#[test]
fn from_u16_and_as_inner_are_inverse() {
    for val in SAMPLES {
        assert_eq!(RowState::from_u16(val).as_inner(), val);
        assert_eq!(RowState::from(val), RowState::from_u16(val));
        assert_eq!(RowState::from(&val), RowState::from_u16(val));
        assert_eq!(u16::from(RowState::from_u16(val)), val);
        assert_eq!(u16::from(&RowState::from_u16(val)), val);
    }
}

#[test]
fn column_reads_the_bit_of_the_column() {
    let state = RowState::from_u16(0b0000_1000_0000_0101);
    let expected = [
        true, false, true, false, false, false, false, false, false, false, false, true, false,
        false, false, false,
    ];
    for col in 0..MAX_COLS {
        assert_eq!(state.column(col), expected[col]);
    }
}

#[test]
fn column_agrees_with_the_bit_accessor_of_bitfield() {
    for val in SAMPLES {
        let state = RowState::from_u16(val);
        for col in 0..MAX_COLS {
            assert_eq!(state.column(col), val.bit(col));
        }
    }
}

#[test]
fn set_column_agrees_with_the_bit_setter_of_bitfield() {
    for val in SAMPLES {
        for col in 0..MAX_COLS {
            for flag in [false, true] {
                let mut state = RowState::from_u16(val);
                state.set_column(col, flag);
                let mut word = val;
                word.set_bit(col, flag);
                assert_eq!(state.as_inner(), word);
            }
        }
    }
}

#[test]
fn column_index_wraps_at_sixteen() {
    let state = RowState::from_u16(0x0008);
    assert!(state.column(3));
    assert!(state.column(19));
    assert!(state.column(3 + 16 * 1000));
    assert!(!state.column(20));

    let mut state = RowState::new();
    state.set_column(16, true);
    assert_eq!(state.as_inner(), 0x0001);
    state.set_column(31, true);
    assert_eq!(state.as_inner(), 0x8001);
    state.set_column(32, false);
    assert_eq!(state.as_inner(), 0x8000);
}

#[test]
fn set_column_changes_one_column_only() {
    let mut state = RowState::from_u16(0xa5a5);
    state.set_column(1, true);
    assert_eq!(state.as_inner(), 0xa5a7);
    state.set_column(1, true);
    assert_eq!(state.as_inner(), 0xa5a7);
    state.set_column(15, false);
    assert_eq!(state.as_inner(), 0x25a7);
    state.set_column(15, false);
    assert_eq!(state.as_inner(), 0x25a7);
}

#[test]
fn is_active_tells_whether_any_column_is_set() {
    assert!(!RowState::from_u16(0).is_active());
    assert!(RowState::from_u16(0).is_inactive());
    for col in 0..MAX_COLS {
        let mut state = RowState::new();
        state.set_column(col, true);
        assert!(state.is_active());
        assert!(!state.is_inactive());
    }
}

#[test]
fn bitwise_operators_act_on_each_column() {
    for a in SAMPLES {
        for b in SAMPLES {
            let left = RowState::from_u16(a);
            let right = RowState::from_u16(b);
            let and = left & right;
            let or = left | right;
            let xor = left ^ right;
            let not = !left;
            for col in 0..MAX_COLS {
                assert_eq!(and.column(col), left.column(col) && right.column(col));
                assert_eq!(or.column(col), left.column(col) || right.column(col));
                assert_eq!(xor.column(col), left.column(col) != right.column(col));
                assert_eq!(not.column(col), !left.column(col));
            }
        }
    }
}

#[test]
fn bitwise_operators_have_exact_values() {
    let left = RowState::from_u16(0b1100);
    let right = RowState::from_u16(0b1010);
    assert_eq!((left & right).as_inner(), 0b1000);
    assert_eq!((left | right).as_inner(), 0b1110);
    assert_eq!((left ^ right).as_inner(), 0b0110);
    assert_eq!((!left).as_inner(), 0xfff3);
}

#[test]
fn assigning_operators_agree_with_the_plain_ones() {
    for a in SAMPLES {
        for b in SAMPLES {
            let left = RowState::from_u16(a);
            let right = RowState::from_u16(b);
            let mut and = left;
            and &= right;
            assert_eq!(and, left & right);
            let mut or = left;
            or |= right;
            assert_eq!(or, left | right);
            let mut xor = left;
            xor ^= right;
            assert_eq!(xor, left ^ right);
        }
    }
}

#[test]
fn xor_with_itself_is_inactive() {
    for a in SAMPLES {
        let state = RowState::from_u16(a);
        assert!((state ^ state).is_inactive());
        assert_eq!(state ^ state, RowState::new());
    }
}
