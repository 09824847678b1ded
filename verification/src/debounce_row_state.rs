//! The three things the scanner keeps for every row of the matrix.

use crate::debounce::Debounce;
use crate::row_state::RowState;
use vstd::prelude::*;

verus! {

/// Represents the previous, current, and debounced state for a given row.
///
/// `previous` is the snapshot that the last pass of report generation used,
/// `current` the snapshot that the next pass will use.
#[derive(Clone, Copy, Debug, PartialEq, Eq, Structural)]
pub struct DebounceRowState {
    /// Previous [`RowState`].
    previous: RowState,
    /// Current [`RowState`].
    current: RowState,
    /// [`Debounce`]r for this [`RowState`].
    debouncer: Debounce,
}

impl DebounceRowState {
    /// The snapshot used by the last pass of report generation.
    pub closed spec fn spec_previous(&self) -> RowState {
        self.previous
    }

    /// The snapshot available to the next pass of report generation.
    pub closed spec fn spec_current(&self) -> RowState {
        self.current
    }

    /// The debouncer of the row.
    pub closed spec fn spec_debouncer(&self) -> Debounce {
        self.debouncer
    }

    /// The row made of the three given parts.
    pub closed spec fn of_parts(previous: RowState, current: RowState, debouncer: Debounce) -> Self {
        DebounceRowState { previous, current, debouncer }
    }

    /// Whether the key in column `col` takes part in the next reports: it was
    /// active in the last pass or is active now.
    pub open spec fn reports_column(&self, col: int) -> bool {
        self.previous()@[col] || self.current()@[col]
    }

    /// `of_parts` and the three accessors are inverse to each other.
    pub proof fn lemma_parts(self)
        ensures
            self == Self::of_parts(self.previous(), self.current(), self.debouncer()),
    {
    }

    /// What `of_parts` puts where.
    pub proof fn lemma_of_parts(previous: RowState, current: RowState, debouncer: Debounce)
        ensures
            Self::of_parts(previous, current, debouncer).previous() == previous,
            Self::of_parts(previous, current, debouncer).current() == current,
            Self::of_parts(previous, current, debouncer).debouncer() == debouncer,
    {
    }

    /// Creates a new [`DebounceRowState`]: both snapshots empty, the
    /// debouncer fresh.
    pub fn new() -> (row: Self)
        ensures
            row == Self::of_parts(RowState::empty(), RowState::empty(), Debounce::fresh()),
            row.previous() == RowState::empty(),
            row.current() == RowState::empty(),
            row.debouncer() == Debounce::fresh(),
    {
        Self { previous: RowState::new(), current: RowState::new(), debouncer: Debounce::new() }
    }

    /// Gets the previous [`RowState`].
    #[verifier::when_used_as_spec(spec_previous)]
    pub fn previous(&self) -> (state: RowState)
        ensures
            state == self.previous(),
    {
        self.previous
    }

    /// Sets the previous [`RowState`].
    pub fn set_previous(&mut self, state: RowState)
        ensures
            final(self).previous() == state,
            final(self).current() == old(self).current(),
            final(self).debouncer() == old(self).debouncer(),
    {
        self.previous = state;
    }

    /// Builder function that sets the previous [`RowState`].
    pub fn with_previous(self, state: RowState) -> (row: Self)
        ensures
            row.previous() == state,
            row.current() == self.current(),
            row.debouncer() == self.debouncer(),
    {
        let mut row = self;
        row.set_previous(state);
        row
    }

    /// Gets the current [`RowState`].
    #[verifier::when_used_as_spec(spec_current)]
    pub fn current(&self) -> (state: RowState)
        ensures
            state == self.current(),
    {
        self.current
    }

    /// Sets the current [`RowState`].
    pub fn set_current(&mut self, state: RowState)
        ensures
            final(self).current() == state,
            final(self).previous() == old(self).previous(),
            final(self).debouncer() == old(self).debouncer(),
    {
        self.current = state;
    }

    /// Builder function that sets the current [`RowState`].
    pub fn with_current(self, state: RowState) -> (row: Self)
        ensures
            row.current() == state,
            row.previous() == self.previous(),
            row.debouncer() == self.debouncer(),
    {
        let mut row = self;
        row.set_current(state);
        row
    }

    /// Gets the [`Debounce`]r for the [`RowState`].
    #[verifier::when_used_as_spec(spec_debouncer)]
    pub fn debouncer(&self) -> (debouncer: Debounce)
        ensures
            debouncer == self.debouncer(),
    {
        self.debouncer
    }

    /// Sets the [`Debounce`]r for the [`RowState`].
    pub fn set_debouncer(&mut self, state: Debounce)
        ensures
            final(self).debouncer() == state,
            final(self).previous() == old(self).previous(),
            final(self).current() == old(self).current(),
    {
        self.debouncer = state;
    }

    /// Builder function that sets the [`Debounce`]r for the [`RowState`].
    pub fn with_debouncer(self, state: Debounce) -> (row: Self)
        ensures
            row.debouncer() == state,
            row.previous() == self.previous(),
            row.current() == self.current(),
    {
        let mut row = self;
        row.set_debouncer(state);
        row
    }
}

impl Default for DebounceRowState {
    /// The row that [`DebounceRowState::new`] creates.
    fn default() -> (row: Self)
        ensures
            row == Self::of_parts(RowState::empty(), RowState::empty(), Debounce::fresh()),
    {
        DebounceRowState::new()
    }
}

} // verus!
