//! Types and functionality for keyboard layers.
//!
//! Layers allow the user to switch between multiple key layouts with pass-through for transparent
//! keys.

use crate::key_defs::{
    A, ALT, AMP, AT, B, BKSP, C, CARET, CMD, COMMA, CTRL, D, DASH, DEL, DOLLAR, DOT, D_ARROW, E,
    EIGHT, END, ENTER, EQUAL, ESC, EXCL, F, F1, F10, F11, F12, F2, F3, F4, F5, F6, F7, F8, F9,
    FIVE, FOUR, FUN, G, H, HASH, HOME, I, INS, J, K, L, L_ARROW, L_BRACE, L_BRACK, L_PAREN, M,
    MOD, N, NINE, O, ONE, P, PGDN, PGUP, PIPE, PLAY_PS, PLUS, PRT_SC, Q, QUOTE, R, R_ARROW,
    R_BRACE, R_BRACK, R_PAREN, S, SCR_LK, SEMI, SEVEN, SHIFT, SIX, SLASH, SPACE, STAR, T, TAB,
    THREE, TICK, TRANS, TWO, U, UPPER, U_ARROW, V, VOL_DN, VOL_UP, W, X, Y, Z, ZERO,
};
use vstd::prelude::*;

verus! {

/// Number of layers.
pub const LAYER_COUNT: usize = 3;

/// Number of keys in a layer.
pub const LAYER_KEY_COUNT: usize = 48;

/// Represents a layer selection.
#[derive(Copy, Clone, Debug, PartialEq, Eq, Structural)]
pub enum Layer {
    /// Base layer key layout.
    Base,
    /// Function layer key layout.
    Fun,
    /// Upper layer key layout.
    Upper,
}

impl Layer {
    /// The number of the layer: `0` for the base layer, `1` for the
    /// function layer, `2` for the upper layer.
    pub open spec fn spec_index(&self) -> usize {
        match self {
            Layer::Base => 0,
            Layer::Fun => 1,
            Layer::Upper => 2,
        }
    }

    /// The layer with the number `val`, the numbers taken modulo three.
    pub open spec fn of_number(val: int) -> Layer {
        if val % 3 == 0 {
            Layer::Base
        } else if val % 3 == 1 {
            Layer::Fun
        } else {
            Layer::Upper
        }
    }

    /// A layer is the layer of its own number.
    pub proof fn lemma_number_round_trip(self)
        ensures
            Layer::of_number(self.spec_index() as int) == self,
    {
    }

    /// Creates a base [`Layer`](Layer::Base).
    pub fn base() -> (layer: Self)
        ensures
            layer == Layer::Base,
    {
        Self::Base
    }

    /// Creates a function [`Layer`](Layer::Fun).
    pub fn fun() -> (layer: Self)
        ensures
            layer == Layer::Fun,
    {
        Self::Fun
    }

    /// Creates a upper [`Layer`](Layer::Upper).
    pub fn upper() -> (layer: Self)
        ensures
            layer == Layer::Upper,
    {
        Self::Upper
    }

    /// Converts the [`Layer`] to a `usize`.
    #[verifier::when_used_as_spec(spec_index)]
    pub fn index(&self) -> (number: usize)
        ensures
            number == self.spec_index(),
            number < LAYER_COUNT,
    {
        match self {
            Layer::Base => 0,
            Layer::Fun => 1,
            Layer::Upper => 2,
        }
    }
}

impl Default for Layer {
    /// The base layer.
    fn default() -> (layer: Self)
        ensures
            layer == Layer::Base,
    {
        Layer::Base
    }
}

impl From<u8> for Layer {
    /// The layer with the number `val`, the numbers taken modulo three.
    fn from(val: u8) -> (layer: Self)
        ensures
            layer == Layer::of_number(val as int),
    {
        match val % 3 {
            0 => Self::Base,
            1 => Self::Fun,
            _ => Self::Upper,
        }
    }
}

impl vstd::std_specs::convert::FromSpecImpl<u8> for Layer {
    open spec fn obeys_from_spec() -> bool {
        true
    }

    open spec fn from_spec(val: u8) -> Layer {
        Layer::of_number(val as int)
    }
}

impl From<&Layer> for u8 {
    /// The number of the layer.
    fn from(val: &Layer) -> (number: u8)
        ensures
            number == val.spec_index(),
    {
        match val {
            Layer::Base => 0,
            Layer::Fun => 1,
            Layer::Upper => 2,
        }
    }
}

impl vstd::std_specs::convert::FromSpecImpl<&Layer> for u8 {
    open spec fn obeys_from_spec() -> bool {
        true
    }

    open spec fn from_spec(val: &Layer) -> u8 {
        val.spec_index() as u8
    }
}

impl From<Layer> for u8 {
    /// The number of the layer.
    fn from(val: Layer) -> (number: u8)
        ensures
            number == val.spec_index(),
    {
        match val {
            Layer::Base => 0,
            Layer::Fun => 1,
            Layer::Upper => 2,
        }
    }
}

impl vstd::std_specs::convert::FromSpecImpl<Layer> for u8 {
    open spec fn obeys_from_spec() -> bool {
        true
    }

    open spec fn from_spec(val: Layer) -> u8 {
        val.spec_index() as u8
    }
}

impl From<usize> for Layer {
    /// The layer with the number of the low byte of `val`, the numbers taken
    /// modulo three.
    fn from(val: usize) -> (layer: Self)
        ensures
            layer == Layer::of_number(val as int % 256),
    {
        let low = (val & 0xff) as u8;
        assert(val & 0xff == val % 256) by (bit_vector);
        Layer::from(low)
    }
}

impl vstd::std_specs::convert::FromSpecImpl<usize> for Layer {
    open spec fn obeys_from_spec() -> bool {
        true
    }

    open spec fn from_spec(val: usize) -> Layer {
        Layer::of_number(val as int % 256)
    }
}

impl From<&Layer> for usize {
    /// The number of the layer.
    fn from(val: &Layer) -> (number: usize)
        ensures
            number == val.spec_index(),
    {
        val.index()
    }
}

impl vstd::std_specs::convert::FromSpecImpl<&Layer> for usize {
    open spec fn obeys_from_spec() -> bool {
        true
    }

    open spec fn from_spec(val: &Layer) -> usize {
        val.spec_index()
    }
}

impl From<Layer> for usize {
    /// The number of the layer.
    fn from(val: Layer) -> (number: usize)
        ensures
            number == val.spec_index(),
    {
        val.index()
    }
}

impl vstd::std_specs::convert::FromSpecImpl<Layer> for usize {
    open spec fn obeys_from_spec() -> bool {
        true
    }

    open spec fn from_spec(val: Layer) -> usize {
        val.spec_index()
    }
}

/// Base layer of keys on the default Atreus layout.
pub const LAYER0_KEYS: [[u8; 12]; 4] = [
    [Q, W, E, R, T, 0, 0, Y, U, I, O, P],
    [A, S, D, F, G, 0, 0, H, J, K, L, SEMI],
    [Z, X, C, V, B, TICK, PIPE, N, M, COMMA, DOT, SLASH],
    [ESC, TAB, CMD, SHIFT, BKSP, CTRL, ALT, SPACE, FUN, DASH, QUOTE, ENTER],
];

/// Function layer of keys on the default Atreus layout.
pub const LAYER1_KEYS: [[u8; 12]; 4] = [
    [EXCL, AT, U_ARROW, DOLLAR, MOD, 0, 0, PGUP, SEVEN, EIGHT, NINE, BKSP],
    [L_PAREN, L_ARROW, D_ARROW, R_ARROW, R_PAREN, 0, 0, PGDN, FOUR, FIVE, SIX, TRANS],
    [L_BRACK, R_BRACK, HASH, L_BRACE, R_BRACE, CARET, AMP, STAR, ONE, TWO, THREE, PLUS],
    [UPPER, INS, TRANS, TRANS, TRANS, TRANS, TRANS, TRANS, FUN, DOT, ZERO, EQUAL],
];

/// Upper layer of keys on the default Atreus layout.
pub const LAYER2_KEYS: [[u8; 12]; 4] = [
    [INS, HOME, TRANS, END, PGUP, 0, 0, U_ARROW, F7, F8, F9, F10],
    [DEL, TRANS, TRANS, TRANS, PGDN, 0, 0, D_ARROW, F4, F5, F6, F11],
    [TRANS, VOL_UP, TRANS, TRANS, TRANS, TRANS, TRANS, TRANS, F1, F2, F3, F12],
    [UPPER, VOL_DN, TRANS, TRANS, TRANS, TRANS, TRANS, TRANS, FUN, PRT_SC, SCR_LK, PLAY_PS],
];

/// Collection of all the layers.
pub const LAYERS: [[[u8; 12]; 4]; 3] = [LAYER0_KEYS, LAYER1_KEYS, LAYER2_KEYS];

/// The key of layer `layer` at `index`. The layer is taken modulo the
/// number of layers; the row is `index / 12` modulo four and the column
/// `index` modulo twelve.
pub open spec fn spec_layer_key(layer: usize, index: usize) -> u8 {
    LAYERS[layer as int % 3][(index as int / 12) % 4][index as int % 12]
}

/// The key at `index` that shows through from layer `layer`: the key of the
/// highest layer, from `layer` down, that is not transparent there, or the
/// key of the lowest layer.
pub open spec fn spec_passthrough_key(layer: usize, index: usize) -> u8
    decreases layer,
{
    if spec_layer_key(layer, index) == TRANS && layer > 0 {
        spec_passthrough_key((layer - 1) as usize, index)
    } else {
        spec_layer_key(layer, index)
    }
}

/// Get the key for a given `layer` and `index` (both zero-indexed).
///
/// The index is modulo the number of keys in a layer. For example, the Atreus has 4 rows of 12
/// keys = 48 keys total (with 4 blank keys). So, any index at or above 48 will start wrapping
/// around to the beginning.
#[verifier::when_used_as_spec(spec_layer_key)]
pub fn layer_key(layer: usize, index: usize) -> (key: u8)
    ensures
        key == spec_layer_key(layer, index),
        key == spec_layer_key(layer % LAYER_COUNT, index % LAYER_KEY_COUNT),
{
    // 0-47 => 0..3, mod 4 should be unneeded, but just in case...
    let row = (index / 12) % 4;
    // regardless of the row (since they are multiples of 12), this should give the column
    let col = index % 12;

    LAYERS[layer % LAYER_COUNT][row][col]
}

/// The base layer has no transparent key.
pub proof fn lemma_base_layer_opaque(index: usize)
    ensures
        spec_layer_key(0, index) != TRANS,
{
    let row = (index as int / 12) % 4;
    let col = index as int % 12;
    assert(LAYERS[0] == LAYER0_KEYS);
    if row == 0 {
        assert(LAYER0_KEYS[0][col] != TRANS);
    } else if row == 1 {
        assert(LAYER0_KEYS[1][col] != TRANS);
    } else if row == 2 {
        assert(LAYER0_KEYS[2][col] != TRANS);
    } else {
        assert(LAYER0_KEYS[3][col] != TRANS);
    }
}

/// Pass-through always ends at a key that is not transparent.
pub proof fn lemma_passthrough_opaque(layer: usize, index: usize)
    ensures
        spec_passthrough_key(layer, index) != TRANS,
    decreases layer,
{
    if layer % 3 == 0 {
        lemma_base_layer_opaque(index);
        assert(spec_layer_key(layer, index) == spec_layer_key(0, index));
    } else if spec_layer_key(layer, index) == TRANS {
        lemma_passthrough_opaque((layer - 1) as usize, index);
    }
}

/// Gets the key for a given `layer` and `index`, with pass-through for any transparent keys.
///
/// Transparent keys will pass-through to the next lowest layer, until a non-transparent key is
/// found, or the bottom layer is reached.
#[verifier::when_used_as_spec(spec_passthrough_key)]
pub fn passthrough_key(layer: usize, index: usize) -> (key: u8)
    ensures
        key == spec_passthrough_key(layer, index),
        key != TRANS,
    decreases layer,
{
    proof {
        lemma_passthrough_opaque(layer, index);
    }
    let key = layer_key(layer, index);

    if key == TRANS && layer > 0 {
        passthrough_key(layer - 1, index)
    } else {
        key
    }
}

/// The index of the key in row `row` and column `col` of a layer.
pub open spec fn spec_layer_index(row: usize, col: usize) -> usize {
    (row * 12 + col) as usize
}

/// Converts a given row and column index into the absolute index for a layer.
#[verifier::when_used_as_spec(spec_layer_index)]
pub fn layer_index(row: usize, col: usize) -> (index: usize)
    requires
        row * 12 + col <= usize::MAX,
    ensures
        index == row * 12 + col,
        row < 4 && col < 12 ==> index < LAYER_KEY_COUNT && spec_layer_key(0, index)
            == LAYER0_KEYS[row as int][col as int],
{
    (row * 12) + col
}

/// Gets the currently active layer from the number that stands for it.
pub fn active_layer(active: &u8) -> (layer: Layer)
    ensures
        layer == Layer::of_number(*active as int),
{
    Layer::from(*active)
}

/// Sets the currently active layer, and returns the layer that was active
/// before.
pub fn set_active_layer(active: &mut u8, layer: Layer) -> (last: Layer)
    ensures
        last == Layer::of_number(*old(active) as int),
        *final(active) == layer.spec_index(),
        Layer::of_number(*final(active) as int) == layer,
{
    let last = active_layer(active);
    *active = u8::from(layer);
    last
}

} // verus!
