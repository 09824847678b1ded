//! Activation state of one row of the key matrix.
//!
//! A [`RowState`] packs one flag per column into a 16-bit word. Its view is
//! the sequence of those sixteen flags, lowest column first, and every
//! operation is specified column by column over that view.

use vstd::prelude::*;

verus! {

/// Maximum number of columns in a [`RowState`].
pub const MAX_COLS: usize = 16;

/// Whether bit `col` of `bits` is set.
pub open spec fn bit_at(bits: u16, col: u16) -> bool {
    (bits >> col) & 1 == 1
}

/// The sixteen column flags packed in `bits`, lowest bit first.
pub open spec fn columns_of(bits: u16) -> Seq<bool> {
    Seq::new(16, |col: int| bit_at(bits, col as u16))
}

/// Reading one bit by shifting and masking.
proof fn lemma_read_bit(bits: u16, col: u16)
    by (bit_vector)
    requires
        col < 16,
    ensures
        ((bits >> col) & 1 == 1) == bit_at(bits, col),
        ((bits >> col) & 1 != 0) == bit_at(bits, col),
{
}

/// Setting bit `target` leaves every other bit as it was.
proof fn lemma_set_bit(bits: u16, target: u16, col: u16)
    by (bit_vector)
    requires
        target < 16,
        col < 16,
    ensures
        bit_at(bits | (1u16 << target), col) == (col == target || bit_at(bits, col)),
{
}

/// Clearing bit `target` leaves every other bit as it was.
proof fn lemma_clear_bit(bits: u16, target: u16, col: u16)
    by (bit_vector)
    requires
        target < 16,
        col < 16,
    ensures
        bit_at(bits & !(1u16 << target), col) == (col != target && bit_at(bits, col)),
{
}

/// A word is zero exactly when none of its sixteen bits is set.
proof fn lemma_zero_has_no_bits(bits: u16)
    by (bit_vector)
    ensures
        (bits == 0) == !(bit_at(bits, 0) || bit_at(bits, 1) || bit_at(bits, 2) || bit_at(bits, 3)
            || bit_at(bits, 4) || bit_at(bits, 5) || bit_at(bits, 6) || bit_at(bits, 7) || bit_at(
            bits,
            8,
        ) || bit_at(bits, 9) || bit_at(bits, 10) || bit_at(bits, 11) || bit_at(bits, 12) || bit_at(
            bits,
            13,
        ) || bit_at(bits, 14) || bit_at(bits, 15)),
{
}

/// Two words with the same sixteen bits are the same word.
proof fn lemma_equal_bits(a: u16, b: u16)
    by (bit_vector)
    requires
        bit_at(a, 0) == bit_at(b, 0),
        bit_at(a, 1) == bit_at(b, 1),
        bit_at(a, 2) == bit_at(b, 2),
        bit_at(a, 3) == bit_at(b, 3),
        bit_at(a, 4) == bit_at(b, 4),
        bit_at(a, 5) == bit_at(b, 5),
        bit_at(a, 6) == bit_at(b, 6),
        bit_at(a, 7) == bit_at(b, 7),
        bit_at(a, 8) == bit_at(b, 8),
        bit_at(a, 9) == bit_at(b, 9),
        bit_at(a, 10) == bit_at(b, 10),
        bit_at(a, 11) == bit_at(b, 11),
        bit_at(a, 12) == bit_at(b, 12),
        bit_at(a, 13) == bit_at(b, 13),
        bit_at(a, 14) == bit_at(b, 14),
        bit_at(a, 15) == bit_at(b, 15),
    ensures
        a == b,
{
}

/// The four bitwise combinators act on each bit by itself.
proof fn lemma_combine_bits(a: u16, b: u16, col: u16)
    by (bit_vector)
    requires
        col < 16,
    ensures
        bit_at(a & b, col) == (bit_at(a, col) && bit_at(b, col)),
        bit_at(a | b, col) == (bit_at(a, col) || bit_at(b, col)),
        bit_at(a ^ b, col) == (bit_at(a, col) != bit_at(b, col)),
        bit_at(!a, col) == !bit_at(a, col),
{
}

/// Activated status for a row of keys.
///
/// Each row-column key is represented by a single bit to save space.
#[derive(Clone, Copy, Debug, PartialEq, Eq, Structural)]
pub struct RowState(u16);

impl View for RowState {
    type V = Seq<bool>;

    /// The sixteen column flags, lowest column first.
    open spec fn view(&self) -> Seq<bool> {
        columns_of(self.bits())
    }
}

impl RowState {
    /// The underlying integer representation.
    pub closed spec fn bits(self) -> u16 {
        self.0
    }

    /// The row state whose integer representation is `val`.
    pub closed spec fn of_bits(val: u16) -> RowState {
        RowState(val)
    }

    /// The row state with no active column.
    pub open spec fn empty() -> RowState {
        RowState::of_bits(0)
    }

    /// Whether at least one column is active.
    pub open spec fn any_active(self) -> bool {
        exists|col: int| 0 <= col < 16 && #[trigger] self@[col]
    }

    /// `bits` and `of_bits` are inverse to each other.
    pub broadcast proof fn lemma_bits_round_trip(val: u16)
        ensures
            #[trigger] RowState::of_bits(val).bits() == val,
    {
    }

    /// A row state is determined by its integer representation.
    pub proof fn lemma_bits_determine(self, other: RowState)
        requires
            self.bits() == other.bits(),
        ensures
            self == other,
    {
    }

    /// A row state is determined by its sixteen column flags.
    pub proof fn lemma_columns_determine(self, other: RowState)
        requires
            self@ == other@,
        ensures
            self == other,
    {
        let a = self.0;
        let b = other.0;
        assert(self@[0] == bit_at(a, 0u16) && other@[0] == bit_at(b, 0u16));
        assert(self@[1] == bit_at(a, 1u16) && other@[1] == bit_at(b, 1u16));
        assert(self@[2] == bit_at(a, 2u16) && other@[2] == bit_at(b, 2u16));
        assert(self@[3] == bit_at(a, 3u16) && other@[3] == bit_at(b, 3u16));
        assert(self@[4] == bit_at(a, 4u16) && other@[4] == bit_at(b, 4u16));
        assert(self@[5] == bit_at(a, 5u16) && other@[5] == bit_at(b, 5u16));
        assert(self@[6] == bit_at(a, 6u16) && other@[6] == bit_at(b, 6u16));
        assert(self@[7] == bit_at(a, 7u16) && other@[7] == bit_at(b, 7u16));
        assert(self@[8] == bit_at(a, 8u16) && other@[8] == bit_at(b, 8u16));
        assert(self@[9] == bit_at(a, 9u16) && other@[9] == bit_at(b, 9u16));
        assert(self@[10] == bit_at(a, 10u16) && other@[10] == bit_at(b, 10u16));
        assert(self@[11] == bit_at(a, 11u16) && other@[11] == bit_at(b, 11u16));
        assert(self@[12] == bit_at(a, 12u16) && other@[12] == bit_at(b, 12u16));
        assert(self@[13] == bit_at(a, 13u16) && other@[13] == bit_at(b, 13u16));
        assert(self@[14] == bit_at(a, 14u16) && other@[14] == bit_at(b, 14u16));
        assert(self@[15] == bit_at(a, 15u16) && other@[15] == bit_at(b, 15u16));
        lemma_equal_bits(a, b);
    }

    /// The row state with no active column has an all-false view, and it is
    /// the only one that has.
    pub proof fn lemma_any_active_iff_nonzero(self)
        ensures
            self.any_active() <==> self.bits() != 0,
    {
        let a = self.0;
        lemma_zero_has_no_bits(a);
        if a != 0 {
            let col: int = if bit_at(a, 0) {
                0
            } else if bit_at(a, 1) {
                1
            } else if bit_at(a, 2) {
                2
            } else if bit_at(a, 3) {
                3
            } else if bit_at(a, 4) {
                4
            } else if bit_at(a, 5) {
                5
            } else if bit_at(a, 6) {
                6
            } else if bit_at(a, 7) {
                7
            } else if bit_at(a, 8) {
                8
            } else if bit_at(a, 9) {
                9
            } else if bit_at(a, 10) {
                10
            } else if bit_at(a, 11) {
                11
            } else if bit_at(a, 12) {
                12
            } else if bit_at(a, 13) {
                13
            } else if bit_at(a, 14) {
                14
            } else {
                15
            };
            assert(self@[col]);
        } else {
            assert forall|col: int| 0 <= col < 16 implies !#[trigger] self@[col] by {
                assert(bit_at(a, col as u16) == self@[col]);
            }
        }
    }

    /// Columns active in both `self` and `rhs`.
    pub open spec fn and(self, rhs: RowState) -> RowState {
        RowState::of_bits(self.bits() & rhs.bits())
    }

    /// Columns active in `self`, in `rhs`, or in both.
    pub open spec fn or(self, rhs: RowState) -> RowState {
        RowState::of_bits(self.bits() | rhs.bits())
    }

    /// Columns active in exactly one of `self` and `rhs`.
    pub open spec fn xor(self, rhs: RowState) -> RowState {
        RowState::of_bits(self.bits() ^ rhs.bits())
    }

    /// Columns that are not active in `self`.
    pub open spec fn complement(self) -> RowState {
        RowState::of_bits(!self.bits())
    }

    /// AND, OR, XOR and NOT combine two row states column by column: column
    /// `col` of the result depends on column `col` of the operands alone,
    /// with no carry between columns.
    pub proof fn lemma_bitwise_per_column(self, rhs: RowState)
        ensures
            forall|col: int|
                0 <= col < 16 ==> #[trigger] self.and(rhs)@[col] == (self@[col] && rhs@[col]),
            forall|col: int|
                0 <= col < 16 ==> #[trigger] self.or(rhs)@[col] == (self@[col] || rhs@[col]),
            forall|col: int|
                0 <= col < 16 ==> #[trigger] self.xor(rhs)@[col] == (self@[col] != rhs@[col]),
            forall|col: int| 0 <= col < 16 ==> #[trigger] self.complement()@[col] == !self@[col],
    {
        assert forall|col: int| 0 <= col < 16 implies #[trigger] self.and(rhs)@[col] == (self@[col]
            && rhs@[col]) by {
            lemma_combine_bits(self.0, rhs.0, col as u16);
        }
        assert forall|col: int| 0 <= col < 16 implies #[trigger] self.or(rhs)@[col] == (self@[col]
            || rhs@[col]) by {
            lemma_combine_bits(self.0, rhs.0, col as u16);
        }
        assert forall|col: int| 0 <= col < 16 implies #[trigger] self.xor(rhs)@[col] == (self@[col]
            != rhs@[col]) by {
            lemma_combine_bits(self.0, rhs.0, col as u16);
        }
        assert forall|col: int| 0 <= col < 16 implies #[trigger] self.complement()@[col]
            == !self@[col] by {
            lemma_combine_bits(self.0, rhs.0, col as u16);
        }
    }

    /// XOR of a row state with itself has no active column.
    pub proof fn lemma_xor_self_inactive(self)
        ensures
            self.xor(self) == RowState::empty(),
            !self.xor(self).any_active(),
    {
        assert(self.0 ^ self.0 == 0) by (bit_vector);
        self.xor(self).lemma_any_active_iff_nonzero();
    }

    /// Creates a new [`RowState`] with no active column.
    pub fn new() -> (state: Self)
        ensures
            state == RowState::empty(),
            state.bits() == 0,
            !state.any_active(),
            forall|col: int| 0 <= col < 16 ==> !#[trigger] state@[col],
    {
        let state = Self(0);
        proof {
            state.lemma_any_active_iff_nonzero();
        }
        state
    }

    /// Gets the underlying integer representation of the [`RowState`].
    pub fn as_inner(&self) -> (val: u16)
        ensures
            val == self.bits(),
            columns_of(val) == self@,
    {
        self.0
    }

    /// Creates a new [`RowState`] from a `u16`: column `i` is active exactly
    /// when bit `i` of `val` is set.
    pub fn from_u16(val: u16) -> (state: Self)
        ensures
            state == RowState::of_bits(val),
            state.bits() == val,
            state@ == columns_of(val),
    {
        Self(val)
    }

    /// Gets the column activation state.
    ///
    /// The index wraps around at [`MAX_COLS`].
    pub fn column(&self, index: usize) -> (active: bool)
        ensures
            active == self@[(index % MAX_COLS) as int],
    {
        let col = index % MAX_COLS;
        proof {
            lemma_read_bit(self.0, col as u16);
        }
        (self.0 >> col) & 1 != 0
    }

    /// Sets the column activation state, leaving every other column as it is.
    ///
    /// The index wraps around at [`MAX_COLS`].
    pub fn set_column(&mut self, index: usize, val: bool)
        ensures
            final(self)@ == old(self)@.update((index % MAX_COLS) as int, val),
    {
        let col = index % MAX_COLS;
        let ghost before = self.0;
        if val {
            self.0 = self.0 | (1u16 << col);
        } else {
            self.0 = self.0 & !(1u16 << col);
        }
        proof {
            assert forall|other: int| 0 <= other < 16 implies #[trigger] self@[other] == old(
                self,
            )@.update(col as int, val)[other] by {
                lemma_set_bit(before, col as u16, other as u16);
                lemma_clear_bit(before, col as u16, other as u16);
            }
            assert(self@ =~= old(self)@.update(col as int, val));
        }
    }

    /// Gets whether the [`RowState`] has active columns.
    pub fn is_active(&self) -> (active: bool)
        ensures
            active == self.any_active(),
            active == (self.bits() != 0),
    {
        proof {
            self.lemma_any_active_iff_nonzero();
        }
        self.0 != 0
    }

    /// Gets whether the [`RowState`] has no active columns.
    pub fn is_inactive(&self) -> (inactive: bool)
        ensures
            inactive == !self.any_active(),
            inactive == (self.bits() == 0),
    {
        proof {
            self.lemma_any_active_iff_nonzero();
        }
        self.0 == 0
    }
}

impl Default for RowState {
    /// The row state with no active column.
    fn default() -> (state: Self)
        ensures
            state == RowState::empty(),
    {
        RowState::new()
    }
}

impl core::ops::BitAnd for RowState {
    type Output = RowState;

    /// Columns active in both operands.
    fn bitand(self, rhs: Self) -> (out: RowState)
        ensures
            out == self.and(rhs),
            forall|col: int| 0 <= col < 16 ==> #[trigger] out@[col] == (self@[col] && rhs@[col]),
    {
        proof {
            self.lemma_bitwise_per_column(rhs);
        }
        RowState(self.0 & rhs.0)
    }
}

impl vstd::std_specs::ops::BitAndSpecImpl for RowState {
    open spec fn obeys_bitand_spec() -> bool {
        true
    }

    open spec fn bitand_req(self, rhs: RowState) -> bool {
        true
    }

    open spec fn bitand_spec(self, rhs: RowState) -> RowState {
        self.and(rhs)
    }
}

impl core::ops::BitOr for RowState {
    type Output = RowState;

    /// Columns active in at least one operand.
    fn bitor(self, rhs: Self) -> (out: RowState)
        ensures
            out == self.or(rhs),
            forall|col: int| 0 <= col < 16 ==> #[trigger] out@[col] == (self@[col] || rhs@[col]),
    {
        proof {
            self.lemma_bitwise_per_column(rhs);
        }
        RowState(self.0 | rhs.0)
    }
}

impl vstd::std_specs::ops::BitOrSpecImpl for RowState {
    open spec fn obeys_bitor_spec() -> bool {
        true
    }

    open spec fn bitor_req(self, rhs: RowState) -> bool {
        true
    }

    open spec fn bitor_spec(self, rhs: RowState) -> RowState {
        self.or(rhs)
    }
}

impl core::ops::BitXor for RowState {
    type Output = RowState;

    /// Columns active in exactly one operand.
    fn bitxor(self, rhs: Self) -> (out: RowState)
        ensures
            out == self.xor(rhs),
            forall|col: int| 0 <= col < 16 ==> #[trigger] out@[col] == (self@[col] != rhs@[col]),
    {
        proof {
            self.lemma_bitwise_per_column(rhs);
        }
        RowState(self.0 ^ rhs.0)
    }
}

impl vstd::std_specs::ops::BitXorSpecImpl for RowState {
    open spec fn obeys_bitxor_spec() -> bool {
        true
    }

    open spec fn bitxor_req(self, rhs: RowState) -> bool {
        true
    }

    open spec fn bitxor_spec(self, rhs: RowState) -> RowState {
        self.xor(rhs)
    }
}

impl core::ops::Not for RowState {
    type Output = RowState;

    /// Columns that are not active in the operand.
    fn not(self) -> (out: RowState)
        ensures
            out == self.complement(),
            forall|col: int| 0 <= col < 16 ==> #[trigger] out@[col] == !self@[col],
    {
        proof {
            self.lemma_bitwise_per_column(self);
        }
        RowState(!self.0)
    }
}

impl vstd::std_specs::ops::NotSpecImpl for RowState {
    open spec fn obeys_not_spec() -> bool {
        true
    }

    open spec fn not_req(self) -> bool {
        true
    }

    open spec fn not_spec(self) -> RowState {
        self.complement()
    }
}

impl core::ops::BitAndAssign for RowState {
    /// Keeps the columns that are also active in `rhs`.
    fn bitand_assign(&mut self, rhs: Self)
        ensures
            *final(self) == old(self).and(rhs),
            forall|col: int|
                0 <= col < 16 ==> #[trigger] final(self)@[col] == (old(self)@[col] && rhs@[col]),
    {
        self.0 = self.0 & rhs.0;
        proof {
            old(self).lemma_bitwise_per_column(rhs);
            assert(*self == old(self).and(rhs));
        }
    }
}

impl core::ops::BitOrAssign for RowState {
    /// Adds the columns that are active in `rhs`.
    fn bitor_assign(&mut self, rhs: Self)
        ensures
            *final(self) == old(self).or(rhs),
            forall|col: int|
                0 <= col < 16 ==> #[trigger] final(self)@[col] == (old(self)@[col] || rhs@[col]),
    {
        self.0 = self.0 | rhs.0;
        proof {
            old(self).lemma_bitwise_per_column(rhs);
            assert(*self == old(self).or(rhs));
        }
    }
}

impl core::ops::BitXorAssign for RowState {
    /// Flips the columns that are active in `rhs`.
    fn bitxor_assign(&mut self, rhs: Self)
        ensures
            *final(self) == old(self).xor(rhs),
            forall|col: int|
                0 <= col < 16 ==> #[trigger] final(self)@[col] == (old(self)@[col] != rhs@[col]),
    {
        self.0 = self.0 ^ rhs.0;
        proof {
            old(self).lemma_bitwise_per_column(rhs);
            assert(*self == old(self).xor(rhs));
        }
    }
}

impl From<u16> for RowState {
    /// The row state whose integer representation is `val`.
    fn from(val: u16) -> (state: Self)
        ensures
            state == RowState::of_bits(val),
            state.bits() == val,
            state@ == columns_of(val),
    {
        RowState::from_u16(val)
    }
}

impl vstd::std_specs::convert::FromSpecImpl<u16> for RowState {
    open spec fn obeys_from_spec() -> bool {
        true
    }

    open spec fn from_spec(val: u16) -> RowState {
        RowState::of_bits(val)
    }
}

impl From<&u16> for RowState {
    /// The row state whose integer representation is `*val`.
    fn from(val: &u16) -> (state: Self)
        ensures
            state == RowState::of_bits(*val),
            state.bits() == *val,
            state@ == columns_of(*val),
    {
        RowState::from_u16(*val)
    }
}

impl vstd::std_specs::convert::FromSpecImpl<&u16> for RowState {
    open spec fn obeys_from_spec() -> bool {
        true
    }

    open spec fn from_spec(val: &u16) -> RowState {
        RowState::of_bits(*val)
    }
}

impl From<&RowState> for u16 {
    /// The integer representation of `val`.
    fn from(val: &RowState) -> (bits: u16)
        ensures
            bits == val.bits(),
            columns_of(bits) == val@,
    {
        val.as_inner()
    }
}

impl vstd::std_specs::convert::FromSpecImpl<&RowState> for u16 {
    open spec fn obeys_from_spec() -> bool {
        true
    }

    open spec fn from_spec(val: &RowState) -> u16 {
        val.bits()
    }
}

impl From<RowState> for u16 {
    /// The integer representation of `val`.
    fn from(val: RowState) -> (bits: u16)
        ensures
            bits == val.bits(),
            columns_of(bits) == val@,
    {
        val.as_inner()
    }
}

impl vstd::std_specs::convert::FromSpecImpl<RowState> for u16 {
    open spec fn obeys_from_spec() -> bool {
        true
    }

    open spec fn from_spec(val: RowState) -> u16 {
        val.bits()
    }
}

} // verus!
