//! Keycodes and what kind of key they stand for.

use trove::key_defs::{
    key_is_fun, key_is_modifier, key_is_shifted, key_is_trans, key_is_upper, key_to_modifier,
    shifted_key, A, ALT, AMP, AT, B, BKSP, C, CARET, CMD, COLS, COL_KEYS, COMMA, CTRL, D, DASH,
    DEL, DOLLAR, DOT, D_ARROW, E, EIGHT, END, ENTER, EQUAL, ESC, EXCL, F, F1, F10, F11, F12, F2,
    F3, F4, F5, F6, F7, F8, F9, FIVE, FOUR, FUN, G, H, HASH, HOME, I, INS, J, K, L, L_ARROW,
    L_BRACE, L_BRACK, L_PAREN, M, MOD, N, NINE, O, ONE, P, PAD_DOT, PGDN, PGUP, PIPE, PLAY_PS,
    PLUS, PRT_SC, Q, QUOTE, R, ROWS, R_ALT, R_ARROW, R_BRACE, R_BRACK, R_CTRL, R_GUI, R_PAREN,
    R_SHIFT, S, SCR_LK, SEMI, SEVEN, SHIFT, SHIFTED, SIX, SLASH, SPACE, STAR, T, TAB, THREE, TICK,
    TRANS, TWO, U, UPPER, U_ARROW, V, VOL_DN, VOL_UP, W, X, Y, Z, ZERO,
};
use usbd_hid::descriptor::{KeyboardUsage, MediaKey, SystemControlKey};

#[test]
fn letters_are_the_usage_ids_of_the_keyboard_page() {
    assert_eq!(A, KeyboardUsage::KeyboardAa as u8);
    assert_eq!(B, KeyboardUsage::KeyboardBb as u8);
    assert_eq!(C, KeyboardUsage::KeyboardCc as u8);
    assert_eq!(D, KeyboardUsage::KeyboardDd as u8);
    assert_eq!(E, KeyboardUsage::KeyboardEe as u8);
    assert_eq!(F, KeyboardUsage::KeyboardFf as u8);
    assert_eq!(G, KeyboardUsage::KeyboardGg as u8);
    assert_eq!(H, KeyboardUsage::KeyboardHh as u8);
    assert_eq!(I, KeyboardUsage::KeyboardIi as u8);
    assert_eq!(J, KeyboardUsage::KeyboardJj as u8);
    assert_eq!(K, KeyboardUsage::KeyboardKk as u8);
    assert_eq!(L, KeyboardUsage::KeyboardLl as u8);
    assert_eq!(M, KeyboardUsage::KeyboardMm as u8);
    assert_eq!(N, KeyboardUsage::KeyboardNn as u8);
    assert_eq!(O, KeyboardUsage::KeyboardOo as u8);
    assert_eq!(P, KeyboardUsage::KeyboardPp as u8);
    assert_eq!(Q, KeyboardUsage::KeyboardQq as u8);
    assert_eq!(R, KeyboardUsage::KeyboardRr as u8);
    assert_eq!(S, KeyboardUsage::KeyboardSs as u8);
    assert_eq!(T, KeyboardUsage::KeyboardTt as u8);
    assert_eq!(U, KeyboardUsage::KeyboardUu as u8);
    assert_eq!(V, KeyboardUsage::KeyboardVv as u8);
    assert_eq!(W, KeyboardUsage::KeyboardWw as u8);
    assert_eq!(X, KeyboardUsage::KeyboardXx as u8);
    assert_eq!(Y, KeyboardUsage::KeyboardYy as u8);
    assert_eq!(Z, KeyboardUsage::KeyboardZz as u8);
}

#[test]
fn digits_are_the_usage_ids_of_the_keyboard_page() {
    assert_eq!(ONE, KeyboardUsage::Keyboard1Exclamation as u8);
    assert_eq!(TWO, KeyboardUsage::Keyboard2At as u8);
    assert_eq!(THREE, KeyboardUsage::Keyboard3Hash as u8);
    assert_eq!(FOUR, KeyboardUsage::Keyboard4Dollar as u8);
    assert_eq!(FIVE, KeyboardUsage::Keyboard5Percent as u8);
    assert_eq!(SIX, KeyboardUsage::Keyboard6Caret as u8);
    assert_eq!(SEVEN, KeyboardUsage::Keyboard7Ampersand as u8);
    assert_eq!(EIGHT, KeyboardUsage::Keyboard8Asterisk as u8);
    assert_eq!(NINE, KeyboardUsage::Keyboard9OpenParens as u8);
    assert_eq!(ZERO, KeyboardUsage::Keyboard0CloseParens as u8);
}

#[test]
fn other_keys_are_the_usage_ids_of_the_keyboard_page() {
    assert_eq!(SEMI, KeyboardUsage::KeyboardSemiColon as u8);
    assert_eq!(TICK, KeyboardUsage::KeyboardBacktickTilde as u8);
    assert_eq!(PIPE, KeyboardUsage::KeyboardBackslashBar as u8);
    assert_eq!(COMMA, KeyboardUsage::KeyboardCommaLess as u8);
    assert_eq!(DOT, KeyboardUsage::KeyboardPeriodGreater as u8);
    assert_eq!(SLASH, KeyboardUsage::KeyboardSlashQuestion as u8);
    assert_eq!(ESC, KeyboardUsage::KeyboardEscape as u8);
    assert_eq!(TAB, KeyboardUsage::KeyboardTab as u8);
    assert_eq!(BKSP, KeyboardUsage::KeyboardBackspace as u8);
    assert_eq!(SPACE, KeyboardUsage::KeyboardSpacebar as u8);
    assert_eq!(QUOTE, KeyboardUsage::KeyboardSingleDoubleQuote as u8);
    assert_eq!(ENTER, KeyboardUsage::KeyboardEnter as u8);
    assert_eq!(DASH, KeyboardUsage::KeyboardDashUnderscore as u8);
    assert_eq!(R_ARROW, KeyboardUsage::KeyboardRightArrow as u8);
    assert_eq!(L_ARROW, KeyboardUsage::KeyboardLeftArrow as u8);
    assert_eq!(D_ARROW, KeyboardUsage::KeyboardDownArrow as u8);
    assert_eq!(U_ARROW, KeyboardUsage::KeyboardUpArrow as u8);
    assert_eq!(L_BRACK, KeyboardUsage::KeyboardOpenBracketBrace as u8);
    assert_eq!(R_BRACK, KeyboardUsage::KeyboardCloseBracketBrace as u8);
    assert_eq!(INS, KeyboardUsage::KeyboardInsert as u8);
    assert_eq!(DEL, KeyboardUsage::KeyboardDelete as u8);
    assert_eq!(PGUP, KeyboardUsage::KeyboardPageUp as u8);
    assert_eq!(PGDN, KeyboardUsage::KeyboardPageDown as u8);
    assert_eq!(PAD_DOT, KeyboardUsage::KeypadPeriodDelete as u8);
    assert_eq!(PLUS, KeyboardUsage::KeypadPlus as u8);
    assert_eq!(EQUAL, KeyboardUsage::KeypadEqual as u8);
    assert_eq!(HOME, KeyboardUsage::KeyboardHome as u8);
    assert_eq!(END, KeyboardUsage::KeyboardEnd as u8);
    assert_eq!(PRT_SC, KeyboardUsage::KeyboardPrintScreen as u8);
    assert_eq!(SCR_LK, KeyboardUsage::KeyboardScrollLock as u8);
    assert_eq!(VOL_UP, KeyboardUsage::KeyboardVolumeUp as u8);
    assert_eq!(VOL_DN, KeyboardUsage::KeyboardVolumeDown as u8);
    assert_eq!(F1, KeyboardUsage::KeyboardF1 as u8);
    assert_eq!(F2, KeyboardUsage::KeyboardF2 as u8);
    assert_eq!(F3, KeyboardUsage::KeyboardF3 as u8);
    assert_eq!(F4, KeyboardUsage::KeyboardF4 as u8);
    assert_eq!(F5, KeyboardUsage::KeyboardF5 as u8);
    assert_eq!(F6, KeyboardUsage::KeyboardF6 as u8);
    assert_eq!(F7, KeyboardUsage::KeyboardF7 as u8);
    assert_eq!(F8, KeyboardUsage::KeyboardF8 as u8);
    assert_eq!(F9, KeyboardUsage::KeyboardF9 as u8);
    assert_eq!(F10, KeyboardUsage::KeyboardF10 as u8);
    assert_eq!(F11, KeyboardUsage::KeyboardF11 as u8);
    assert_eq!(F12, KeyboardUsage::KeyboardF12 as u8);
}

#[test]
fn modifiers_are_the_usage_ids_of_the_keyboard_page() {
    assert_eq!(CTRL, KeyboardUsage::KeyboardLeftControl as u8);
    assert_eq!(SHIFT, KeyboardUsage::KeyboardLeftShift as u8);
    assert_eq!(ALT, KeyboardUsage::KeyboardLeftAlt as u8);
    assert_eq!(CMD, KeyboardUsage::KeyboardLeftGUI as u8);
    assert_eq!(R_CTRL, KeyboardUsage::KeyboardRightControl as u8);
    assert_eq!(R_SHIFT, KeyboardUsage::KeyboardRightShift as u8);
    assert_eq!(R_ALT, KeyboardUsage::KeyboardRightAlt as u8);
    assert_eq!(R_GUI, KeyboardUsage::KeyboardRightGUI as u8);
}

#[test]
fn keys_of_other_pages_have_their_usage_ids() {
    assert_eq!(FUN, SystemControlKey::SystemFunctionShift as u8);
    assert_eq!(PLAY_PS, MediaKey::PlayPause as u8);
    assert_eq!(UPPER, 0xfe);
    assert_eq!(TRANS, 0xff);
}

#[test]
fn shifted_keys_are_base_keys_with_the_shift_bit() {
    assert_eq!(SHIFTED, 0b1000_0000);
    assert_eq!(EXCL, KeyboardUsage::Keyboard1Exclamation as u8 | SHIFTED);
    assert_eq!(AT, KeyboardUsage::Keyboard2At as u8 | SHIFTED);
    assert_eq!(HASH, KeyboardUsage::Keyboard3Hash as u8 | SHIFTED);
    assert_eq!(DOLLAR, KeyboardUsage::Keyboard4Dollar as u8 | SHIFTED);
    assert_eq!(MOD, KeyboardUsage::Keyboard5Percent as u8 | SHIFTED);
    assert_eq!(CARET, KeyboardUsage::Keyboard6Caret as u8 | SHIFTED);
    assert_eq!(AMP, KeyboardUsage::Keyboard7Ampersand as u8 | SHIFTED);
    assert_eq!(STAR, KeyboardUsage::Keyboard8Asterisk as u8 | SHIFTED);
    assert_eq!(L_PAREN, KeyboardUsage::Keyboard9OpenParens as u8 | SHIFTED);
    assert_eq!(R_PAREN, KeyboardUsage::Keyboard0CloseParens as u8 | SHIFTED);
    assert_eq!(L_BRACE, KeyboardUsage::KeyboardOpenBracketBrace as u8 | SHIFTED);
    assert_eq!(R_BRACE, KeyboardUsage::KeyboardCloseBracketBrace as u8 | SHIFTED);
}

#[test]
fn key_is_shifted_holds_of_the_twelve_shifted_keys() {
    let shifted = [
        L_BRACE, R_BRACE, EXCL, AT, HASH, DOLLAR, MOD, CARET, AMP, STAR, L_PAREN, R_PAREN,
    ];
    for key in 0..=255u8 {
        assert_eq!(key_is_shifted(key), shifted.contains(&key));
    }
}

#[test]
fn shifted_key_clears_the_shift_bit() {
    assert_eq!(shifted_key(EXCL), ONE);
    assert_eq!(shifted_key(L_BRACE), L_BRACK);
    assert_eq!(shifted_key(R_PAREN), ZERO);
    assert_eq!(shifted_key(A), A);
    assert_eq!(shifted_key(0xff), 0x7f);
    assert_eq!(shifted_key(0x80), 0x00);
    for key in 0..=255u8 {
        assert_eq!(shifted_key(key), key % 128);
    }
}

#[test]
fn layer_keys_are_told_by_their_code() {
    for key in 0..=255u8 {
        assert_eq!(key_is_fun(key), key == 0x97);
        assert_eq!(key_is_upper(key), key == 0xfe);
        assert_eq!(key_is_trans(key), key == 0xff);
    }
}

#[test]
fn modifiers_are_the_codes_from_e0_to_e7() {
    for key in 0..=255u8 {
        assert_eq!(key_is_modifier(key), (0xe0..=0xe7).contains(&key));
    }
    assert!(!key_is_modifier(0xdf));
    assert!(key_is_modifier(0xe0));
    assert!(key_is_modifier(0xe7));
    assert!(!key_is_modifier(0xe8));
    assert!(!key_is_modifier(FUN));
    assert!(!key_is_modifier(0));
}

#[test]
fn key_to_modifier_gives_one_bit_for_each_modifier() {
    assert_eq!(key_to_modifier(CTRL), 0b0000_0001);
    assert_eq!(key_to_modifier(SHIFT), 0b0000_0010);
    assert_eq!(key_to_modifier(ALT), 0b0000_0100);
    assert_eq!(key_to_modifier(CMD), 0b0000_1000);
    assert_eq!(key_to_modifier(R_CTRL), 0b0001_0000);
    assert_eq!(key_to_modifier(R_SHIFT), 0b0010_0000);
    assert_eq!(key_to_modifier(R_ALT), 0b0100_0000);
    assert_eq!(key_to_modifier(R_GUI), 0b1000_0000);
}

#[test]
fn column_keys_are_the_base_layout_by_column() {
    assert_eq!(COL_KEYS.len(), COLS);
    assert_eq!(COL_KEYS[0].len(), ROWS);
    assert_eq!(COL_KEYS[0], [Q, A, Z, ESC]);
    assert_eq!(COL_KEYS[1], [W, S, X, TAB]);
    assert_eq!(COL_KEYS[2], [E, D, C, CMD]);
    assert_eq!(COL_KEYS[3], [R, F, V, SHIFT]);
    assert_eq!(COL_KEYS[4], [T, G, B, BKSP]);
    assert_eq!(COL_KEYS[5], [0, 0, TICK, SPACE]);
    assert_eq!(COL_KEYS[6], [0, 0, PIPE, R_ALT]);
    assert_eq!(COL_KEYS[7], [Y, H, N, R_CTRL]);
    assert_eq!(COL_KEYS[8], [U, J, M, FUN]);
    assert_eq!(COL_KEYS[9], [I, K, COMMA, DASH]);
    assert_eq!(COL_KEYS[10], [O, L, DOT, QUOTE]);
    assert_eq!(COL_KEYS[11], [P, SEMI, SLASH, ENTER]);
}
