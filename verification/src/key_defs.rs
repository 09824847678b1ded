//! Key definitions
//!
//! Keycodes are the usage ids of the USB HID keyboard page. The eight
//! modifier keys have the ids `0xe0` to `0xe7`; a report carries them as one
//! bit each of its modifier byte and not as keycodes.

use vstd::prelude::*;

verus! {

/// Number of columns in the keyboard layout.
pub const COLS: usize = 12;

/// Number of rows in the keyboard layout.
pub const ROWS: usize = 4;

pub const A: u8 = 0x04;

pub const B: u8 = 0x05;

pub const C: u8 = 0x06;

pub const D: u8 = 0x07;

pub const E: u8 = 0x08;

pub const F: u8 = 0x09;

pub const G: u8 = 0x0a;

pub const H: u8 = 0x0b;

pub const I: u8 = 0x0c;

pub const J: u8 = 0x0d;

pub const K: u8 = 0x0e;

pub const L: u8 = 0x0f;

pub const M: u8 = 0x10;

pub const N: u8 = 0x11;

pub const O: u8 = 0x12;

pub const P: u8 = 0x13;

pub const Q: u8 = 0x14;

pub const R: u8 = 0x15;

pub const S: u8 = 0x16;

pub const T: u8 = 0x17;

pub const U: u8 = 0x18;

pub const V: u8 = 0x19;

pub const W: u8 = 0x1a;

pub const X: u8 = 0x1b;

pub const Y: u8 = 0x1c;

pub const Z: u8 = 0x1d;

pub const ONE: u8 = 0x1e;

pub const TWO: u8 = 0x1f;

pub const THREE: u8 = 0x20;

pub const FOUR: u8 = 0x21;

pub const FIVE: u8 = 0x22;

pub const SIX: u8 = 0x23;

pub const SEVEN: u8 = 0x24;

pub const EIGHT: u8 = 0x25;

pub const NINE: u8 = 0x26;

pub const ZERO: u8 = 0x27;

pub const ENTER: u8 = 0x28;

pub const ESC: u8 = 0x29;

pub const BKSP: u8 = 0x2a;

pub const TAB: u8 = 0x2b;

pub const SPACE: u8 = 0x2c;

pub const DASH: u8 = 0x2d;

pub const L_BRACK: u8 = 0x2f;

pub const R_BRACK: u8 = 0x30;

pub const PIPE: u8 = 0x31;

pub const SEMI: u8 = 0x33;

pub const QUOTE: u8 = 0x34;

pub const TICK: u8 = 0x35;

pub const COMMA: u8 = 0x36;

pub const DOT: u8 = 0x37;

pub const SLASH: u8 = 0x38;

pub const F1: u8 = 0x3a;

pub const F2: u8 = 0x3b;

pub const F3: u8 = 0x3c;

pub const F4: u8 = 0x3d;

pub const F5: u8 = 0x3e;

pub const F6: u8 = 0x3f;

pub const F7: u8 = 0x40;

pub const F8: u8 = 0x41;

pub const F9: u8 = 0x42;

pub const F10: u8 = 0x43;

pub const F11: u8 = 0x44;

pub const F12: u8 = 0x45;

pub const PRT_SC: u8 = 0x46;

pub const SCR_LK: u8 = 0x47;

pub const INS: u8 = 0x49;

pub const HOME: u8 = 0x4a;

pub const PGUP: u8 = 0x4b;

pub const DEL: u8 = 0x4c;

pub const END: u8 = 0x4d;

pub const PGDN: u8 = 0x4e;

pub const R_ARROW: u8 = 0x4f;

pub const L_ARROW: u8 = 0x50;

pub const D_ARROW: u8 = 0x51;

pub const U_ARROW: u8 = 0x52;

/// Keypad `+`.
pub const PLUS: u8 = 0x57;

/// Keypad `.`.
pub const PAD_DOT: u8 = 0x63;

/// Keypad `=`.
pub const EQUAL: u8 = 0x67;

pub const VOL_UP: u8 = 0x80;

pub const VOL_DN: u8 = 0x81;

/// Play or pause, from the consumer page.
pub const PLAY_PS: u8 = 0xcd;

/// Left control, the first of the modifier keys.
pub const CTRL: u8 = 0xe0;

/// Left shift.
pub const SHIFT: u8 = 0xe1;

/// Left alt.
pub const ALT: u8 = 0xe2;

/// Left GUI.
pub const CMD: u8 = 0xe3;

/// Right control.
pub const R_CTRL: u8 = 0xe4;

/// Right shift.
pub const R_SHIFT: u8 = 0xe5;

/// Right alt.
pub const R_ALT: u8 = 0xe6;

/// Right GUI, the last of the modifier keys.
pub const R_GUI: u8 = 0xe7;

/// The bit that marks a key as sent together with shift.
pub const SHIFTED: u8 = 0b1000_0000;

/// `!`: shifted `1`.
pub const EXCL: u8 = 0x9e;

/// `@`: shifted `2`.
pub const AT: u8 = 0x9f;

/// `#`: shifted `3`.
pub const HASH: u8 = 0xa0;

/// `$`: shifted `4`.
pub const DOLLAR: u8 = 0xa1;

/// `%`: shifted `5`.
pub const MOD: u8 = 0xa2;

/// `^`: shifted `6`.
pub const CARET: u8 = 0xa3;

/// `&`: shifted `7`.
pub const AMP: u8 = 0xa4;

/// `*`: shifted `8`.
pub const STAR: u8 = 0xa5;

/// `(`: shifted `9`.
pub const L_PAREN: u8 = 0xa6;

/// `)`: shifted `0`.
pub const R_PAREN: u8 = 0xa7;

/// `{`: shifted `[`.
pub const L_BRACE: u8 = 0xaf;

/// `}`: shifted `]`.
pub const R_BRACE: u8 = 0xb0;

/// The function key, which selects the function layer.
pub const FUN: u8 = 0x97;

/// The upper key, which selects the upper layer.
pub const UPPER: u8 = 0xfe;

/// A transparent key: the key of the next lower layer shows through.
pub const TRANS: u8 = 0xff;

/// Every shifted key is its base key with the [`SHIFTED`] bit set.
pub proof fn lemma_shifted_keys()
    ensures
        EXCL == ONE | SHIFTED,
        AT == TWO | SHIFTED,
        HASH == THREE | SHIFTED,
        DOLLAR == FOUR | SHIFTED,
        MOD == FIVE | SHIFTED,
        CARET == SIX | SHIFTED,
        AMP == SEVEN | SHIFTED,
        STAR == EIGHT | SHIFTED,
        L_PAREN == NINE | SHIFTED,
        R_PAREN == ZERO | SHIFTED,
        L_BRACE == L_BRACK | SHIFTED,
        R_BRACE == R_BRACK | SHIFTED,
{
    assert(0x9eu8 == 0x1eu8 | 0x80u8 && 0x9fu8 == 0x1fu8 | 0x80u8 && 0xa0u8 == 0x20u8 | 0x80u8
        && 0xa1u8 == 0x21u8 | 0x80u8 && 0xa2u8 == 0x22u8 | 0x80u8 && 0xa3u8 == 0x23u8 | 0x80u8
        && 0xa4u8 == 0x24u8 | 0x80u8 && 0xa5u8 == 0x25u8 | 0x80u8 && 0xa6u8 == 0x26u8 | 0x80u8
        && 0xa7u8 == 0x27u8 | 0x80u8 && 0xafu8 == 0x2fu8 | 0x80u8 && 0xb0u8 == 0x30u8 | 0x80u8)
        by (bit_vector);
}

/// The keycode with the [`SHIFTED`] bit cleared.
pub open spec fn spec_shifted_key(key: u8) -> u8 {
    key & !SHIFTED
}

/// Whether the keycode is one of the twelve shifted keys.
pub open spec fn spec_key_is_shifted(key: u8) -> bool {
    key == L_BRACE || key == R_BRACE || key == EXCL || key == AT || key == HASH || key == DOLLAR
        || key == MOD || key == CARET || key == AMP || key == STAR || key == L_PAREN || key
        == R_PAREN
}

/// Whether the keycode is one of the eight modifier keys.
pub open spec fn spec_key_is_modifier(key: u8) -> bool {
    CTRL <= key <= R_GUI
}

/// The place of a modifier key in the modifier byte of a report: `0` for
/// left control up to `7` for right GUI.
pub open spec fn modifier_index(key: u8) -> int {
    key - CTRL
}

/// The modifier byte that has the bit of the modifier key `key` set and no
/// other.
pub open spec fn spec_key_to_modifier(key: u8) -> u8 {
    1u8 << ((key - CTRL) as u8)
}

/// Whether bit `index` of the modifier byte `modifier` is set.
pub open spec fn modifier_has(modifier: u8, index: int) -> bool {
    (modifier >> (index as u8)) & 1 == 1
}

/// The byte that [`key_to_modifier`] gives has exactly the bit of its key
/// set.
pub proof fn lemma_key_to_modifier_bit(key: u8, index: int)
    requires
        spec_key_is_modifier(key),
        0 <= index < 8,
    ensures
        modifier_has(spec_key_to_modifier(key), index) == (index == modifier_index(key)),
{
    let shift = (key - CTRL) as u8;
    let at = index as u8;
    assert(((1u8 << shift) >> at) & 1 == 1 <==> at == shift) by (bit_vector)
        requires
            shift < 8,
            at < 8,
    ;
}

/// Gets whether the key is the function key.
#[verifier::when_used_as_spec(spec_key_is_fun)]
pub fn key_is_fun(key: u8) -> (is_fun: bool)
    ensures
        is_fun == (key == FUN),
{
    key == FUN
}

/// Whether the key is the function key.
pub open spec fn spec_key_is_fun(key: u8) -> bool {
    key == FUN
}

/// Gets whether the key is the upper key.
#[verifier::when_used_as_spec(spec_key_is_upper)]
pub fn key_is_upper(key: u8) -> (is_upper: bool)
    ensures
        is_upper == (key == UPPER),
{
    key == UPPER
}

/// Whether the key is the upper key.
pub open spec fn spec_key_is_upper(key: u8) -> bool {
    key == UPPER
}

/// Gets whether the key is a transparent key.
#[verifier::when_used_as_spec(spec_key_is_trans)]
pub fn key_is_trans(key: u8) -> (is_trans: bool)
    ensures
        is_trans == (key == TRANS),
{
    key == TRANS
}

/// Whether the key is a transparent key.
pub open spec fn spec_key_is_trans(key: u8) -> bool {
    key == TRANS
}

/// Gets whether the key is shifted.
#[verifier::when_used_as_spec(spec_key_is_shifted)]
pub fn key_is_shifted(key: u8) -> (is_shifted: bool)
    ensures
        is_shifted == spec_key_is_shifted(key),
{
    match key {
        L_BRACE | R_BRACE | EXCL | AT | HASH | DOLLAR | MOD | CARET | AMP | STAR | L_PAREN | R_PAREN => true,
        _ => false,
    }
}

/// Gets a shifted keycode.
///
/// Useful for sending the base keycode with the shift modifier in a
/// keyboard report.
#[verifier::when_used_as_spec(spec_shifted_key)]
pub fn shifted_key(key: u8) -> (base: u8)
    ensures
        base == spec_shifted_key(key),
        base < SHIFTED,
        key < SHIFTED ==> base == key,
        key >= SHIFTED ==> base == key - SHIFTED,
{
    assert(key & !0x80u8 < 0x80u8 && (key < 0x80u8 ==> key & !0x80u8 == key) && (key >= 0x80u8
        ==> key & !0x80u8 == (key - 0x80u8) as u8)) by (bit_vector);
    key & !SHIFTED
}

/// Gets whether the keycode is for a modifier key.
#[verifier::when_used_as_spec(spec_key_is_modifier)]
pub fn key_is_modifier(key: u8) -> (is_modifier: bool)
    ensures
        is_modifier == spec_key_is_modifier(key),
{
    CTRL <= key && key <= R_GUI
}

/// Converts the key to a modifier bitfield for a keyboard report.
///
/// Only the eight modifier keys have a place in the bitfield.
#[verifier::when_used_as_spec(spec_key_to_modifier)]
pub fn key_to_modifier(key: u8) -> (modifier: u8)
    requires
        spec_key_is_modifier(key),
    ensures
        modifier == spec_key_to_modifier(key),
        forall|index: int|
            0 <= index < 8 ==> #[trigger] modifier_has(modifier, index) == (index
                == modifier_index(key)),
{
    proof {
        assert forall|index: int| 0 <= index < 8 implies #[trigger] modifier_has(
            spec_key_to_modifier(key),
            index,
        ) == (index == modifier_index(key)) by {
            lemma_key_to_modifier_bit(key, index);
        }
    }
    1u8 << (key - CTRL)
}

/// Key layout (by column) of an Atreus keyboard: `COL_KEYS[col][row]` is the
/// keycode of the key in column `col` of row `row`, and `0` where the matrix
/// has no key.
pub const COL_KEYS: [[u8; 4]; 12] = [
    [Q, A, Z, ESC],
    [W, S, X, TAB],
    [E, D, C, CMD],
    [R, F, V, SHIFT],
    [T, G, B, BKSP],
    [0, 0, TICK, SPACE],
    [0, 0, PIPE, R_ALT],
    [Y, H, N, R_CTRL],
    [U, J, M, FUN],
    [I, K, COMMA, DASH],
    [O, L, DOT, QUOTE],
    [P, SEMI, SLASH, ENTER],
];

} // verus!
