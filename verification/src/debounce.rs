//! Debouncing of sampled row states.
//!
//! Every column of a row has a two-bit counter and a stable flag. A sample
//! that agrees with the stable flag resets the counter. A sample that
//! disagrees advances it, and the fourth disagreeing sample in a row flips
//! the stable flag and reports the column as changed. The counters of all
//! columns of a row are kept in two [`RowState`]s, one per counter bit, so
//! that a whole row is debounced with a handful of bitwise operations.

use crate::row_state::RowState;
use core::ops::Not;
use vstd::prelude::*;

verus! {

/// The counter value at which the next disagreeing sample confirms a change.
pub const CONFIRM_COUNT: u8 = 3;

/// The counter of a column after one more sample: it advances while the
/// samples disagree with the stable flag, and goes back to zero when a sample
/// agrees or when the change is confirmed.
pub open spec fn next_count(count: nat, differs: bool) -> nat {
    if differs && count < CONFIRM_COUNT {
        count + 1
    } else {
        0
    }
}

/// Whether a sample confirms a change of a column: it disagrees with the
/// stable flag, as the three samples before it did.
pub open spec fn confirms(count: nat, differs: bool) -> bool {
    differs && count == CONFIRM_COUNT
}

/// The mathematical content of a [`Debounce`]: for each of the sixteen
/// columns, the number of consecutive disagreeing samples seen and the stable
/// flag.
pub struct DebounceView {
    pub counts: Seq<nat>,
    pub stable: Seq<bool>,
}

impl DebounceView {
    /// Sixteen columns, each counter at most [`CONFIRM_COUNT`].
    pub open spec fn wf(self) -> bool {
        &&& self.counts.len() == 16
        &&& self.stable.len() == 16
        &&& forall|col: int| 0 <= col < 16 ==> #[trigger] self.counts[col] <= CONFIRM_COUNT
    }

    /// Whether no column has a disagreeing sample pending.
    pub open spec fn settled(self) -> bool {
        forall|col: int| 0 <= col < 16 ==> #[trigger] self.counts[col] == 0
    }

    /// Whether column `col` of `sample` disagrees with the stable flag.
    pub open spec fn differs(self, sample: Seq<bool>, col: int) -> bool {
        sample[col] != self.stable[col]
    }

    /// The columns whose change `sample` confirms.
    pub open spec fn changes(self, sample: Seq<bool>) -> Seq<bool> {
        Seq::new(16, |col: int| confirms(self.counts[col], self.differs(sample, col)))
    }

    /// The state after `sample`: every counter moves by [`next_count`], and
    /// the stable flag of a column flips exactly when its change is confirmed.
    pub open spec fn step(self, sample: Seq<bool>) -> DebounceView {
        DebounceView {
            counts: Seq::new(16, |col: int| next_count(self.counts[col], self.differs(sample, col))),
            stable: Seq::new(
                16,
                |col: int| self.stable[col] != confirms(self.counts[col], self.differs(sample, col)),
            ),
        }
    }

    /// The state after the samples of `samples`, first to last.
    pub open spec fn run(self, samples: Seq<Seq<bool>>) -> DebounceView
        decreases samples.len(),
    {
        if samples.len() == 0 {
            self
        } else {
            self.run(samples.drop_last()).step(samples.last())
        }
    }
}

/// `n` times the same sample.
pub open spec fn repeated(sample: Seq<bool>, n: nat) -> Seq<Seq<bool>> {
    Seq::new(n, |k: int| sample)
}

/// `n` samples that alternate between `first` and `second`, starting with
/// `first`.
pub open spec fn alternating(first: Seq<bool>, second: Seq<bool>, n: nat) -> Seq<Seq<bool>> {
    Seq::new(
        n,
        |k: int|
            if k % 2 == 0 {
                first
            } else {
                second
            },
    )
}

impl DebounceView {
    /// Stepping keeps a view well formed.
    pub proof fn lemma_step_wf(self, sample: Seq<bool>)
        ensures
            self.step(sample).wf(),
    {
    }

    /// Running keeps a view well formed.
    pub proof fn lemma_run_wf(self, samples: Seq<Seq<bool>>)
        requires
            self.wf(),
        ensures
            self.run(samples).wf(),
        decreases samples.len(),
    {
        if samples.len() > 0 {
            self.lemma_run_wf(samples.drop_last());
        }
    }

    /// Running over one more sample is one more step.
    pub proof fn lemma_run_push(self, samples: Seq<Seq<bool>>, sample: Seq<bool>)
        ensures
            self.run(samples.push(sample)) == self.run(samples).step(sample),
    {
        assert(samples.push(sample).drop_last() =~= samples);
    }

    /// Feeding the stable value, however often, changes nothing: the stable
    /// flags stay, nothing is pending afterwards, and one more such sample
    /// confirms no column.
    pub proof fn lemma_stable_sample_is_quiet(self, n: nat)
        requires
            self.wf(),
        ensures
            self.run(repeated(self.stable, n)).stable == self.stable,
            n > 0 ==> self.run(repeated(self.stable, n)).settled(),
            self.run(repeated(self.stable, n)).changes(self.stable) == no_columns(),
        decreases n,
    {
        let samples = repeated(self.stable, n);
        if n == 0 {
            assert(self.changes(self.stable) =~= no_columns());
        } else {
            let shorter = repeated(self.stable, (n - 1) as nat);
            self.lemma_stable_sample_is_quiet((n - 1) as nat);
            assert(samples.drop_last() =~= shorter);
            let before = self.run(shorter);
            let after = before.step(self.stable);
            assert(after.stable =~= self.stable);
            assert(after.changes(self.stable) =~= no_columns());
        }
    }

    /// A glitch never gets through: samples that alternate between the
    /// stable value and any other value, for ever so long, leave the stable
    /// flags as they are, and no sample of the alternation confirms a column.
    pub proof fn lemma_alternating_samples_never_confirm(self, glitch: Seq<bool>, n: nat)
        requires
            self.wf(),
            glitch.len() == 16,
        ensures
            self.run(alternating(self.stable, glitch, n)).stable == self.stable,
            self.run(alternating(self.stable, glitch, n)).changes(
                if n % 2 == 0 {
                    self.stable
                } else {
                    glitch
                },
            ) == no_columns(),
            n > 0 ==> forall|col: int|
                0 <= col < 16 ==> #[trigger] self.run(
                    alternating(self.stable, glitch, n),
                ).counts[col] <= 1,
        decreases n,
    {
        let samples = alternating(self.stable, glitch, n);
        if n == 0 {
            assert(self.changes(self.stable) =~= no_columns());
        } else {
            let shorter = alternating(self.stable, glitch, (n - 1) as nat);
            self.lemma_alternating_samples_never_confirm(glitch, (n - 1) as nat);
            assert(samples.drop_last() =~= shorter);
            let before = self.run(shorter);
            let fed = samples.last();
            let after = before.step(fed);
            assert(before.changes(fed) == no_columns());
            assert forall|col: int| 0 <= col < 16 implies after.stable[col] == self.stable[col]
                && #[trigger] after.counts[col] <= 1 && (n % 2 == 1 ==> after.counts[col] == 0) by {
                assert(before.changes(fed)[col] == no_columns()[col]);
                if n >= 2 {
                    assert(before.counts[col] <= 1);
                }
            }
            assert(after.stable =~= self.stable);
            let next = if n % 2 == 0 {
                self.stable
            } else {
                glitch
            };
            assert(after.changes(next) =~= no_columns());
        }
    }

    /// The counter of a column counts the disagreeing samples at the end of
    /// the run: from a state in which nothing is pending for the column, its
    /// counter after `samples` is at most their number, and that many of the
    /// last samples all disagree with the stable flag.
    pub proof fn lemma_count_is_streak(self, samples: Seq<Seq<bool>>, col: int)
        requires
            self.wf(),
            0 <= col < 16,
            self.counts[col] == 0,
        ensures
            self.run(samples).counts[col] <= samples.len(),
            self.run(samples).counts[col] <= CONFIRM_COUNT,
            forall|k: int|
                samples.len() - self.run(samples).counts[col] <= k < samples.len()
                    ==> #[trigger] samples[k][col] != self.run(samples).stable[col],
        decreases samples.len(),
    {
        if samples.len() > 0 {
            let shorter = samples.drop_last();
            self.lemma_count_is_streak(shorter, col);
            let before = self.run(shorter);
            let after = before.step(samples.last());
            assert(after.counts[col] == next_count(
                before.counts[col],
                before.differs(samples.last(), col),
            ));
            assert forall|k: int|
                samples.len() - after.counts[col] <= k < samples.len() implies #[trigger] samples[k][col]
                != after.stable[col] by {
                if k < samples.len() - 1 {
                    assert(shorter[k] == samples[k]);
                }
            }
        }
    }

    /// A change is confirmed only after four samples in a row that show it:
    /// where the last sample of a run confirms a change of a column for which
    /// nothing was pending at the start, the run has at least four samples,
    /// and its last four all show the new value of the stable flag.
    pub proof fn lemma_confirmation_needs_four(self, samples: Seq<Seq<bool>>, col: int)
        requires
            self.wf(),
            0 <= col < 16,
            self.counts[col] == 0,
            samples.len() > 0,
            self.run(samples.drop_last()).changes(samples.last())[col],
        ensures
            samples.len() >= 4,
            self.run(samples).stable[col] != self.run(samples.drop_last()).stable[col],
            forall|k: int|
                samples.len() - 4 <= k < samples.len() ==> #[trigger] samples[k][col] == self.run(
                    samples,
                ).stable[col],
    {
        let shorter = samples.drop_last();
        self.lemma_count_is_streak(shorter, col);
        let before = self.run(shorter);
        assert(before.counts[col] == CONFIRM_COUNT);
        assert forall|k: int| samples.len() - 4 <= k < samples.len() implies #[trigger] samples[k][col]
            == self.run(samples).stable[col] by {
            if k < samples.len() - 1 {
                assert(shorter[k] == samples[k]);
                assert(shorter[k][col] != before.stable[col]);
            }
        }
    }

    /// A sustained change is confirmed once, by the fourth sample: from a
    /// state with nothing pending, the same sample fed `n` times leaves the
    /// stable flags as they were while `n < 4` and makes them equal to the
    /// sample from `n == 4` on; the fourth sample reports exactly the
    /// columns in which the sample differs, every other sample reports none.
    pub proof fn lemma_sustained_change_confirms_once(self, sample: Seq<bool>, n: nat)
        requires
            self.wf(),
            self.settled(),
            sample.len() == 16,
        ensures
            n < 4 ==> self.run(repeated(sample, n)).stable == self.stable,
            n >= 4 ==> self.run(repeated(sample, n)).stable == sample,
            n != 3 ==> self.run(repeated(sample, n)).changes(sample) == no_columns(),
            n == 3 ==> self.run(repeated(sample, n)).changes(sample) == Seq::new(
                16,
                |col: int| sample[col] != self.stable[col],
            ),
            forall|col: int|
                0 <= col < 16 ==> #[trigger] self.run(repeated(sample, n)).counts[col] == (if n < 4
                    && sample[col] != self.stable[col] {
                    n
                } else {
                    0
                }),
        decreases n,
    {
        let samples = repeated(sample, n);
        if n == 0 {
            assert(self.changes(sample) =~= no_columns());
        } else {
            let shorter = repeated(sample, (n - 1) as nat);
            self.lemma_sustained_change_confirms_once(sample, (n - 1) as nat);
            assert(samples.drop_last() =~= shorter);
            let before = self.run(shorter);
            let after = before.step(sample);
            assert forall|col: int| 0 <= col < 16 implies #[trigger] after.counts[col] == (if n < 4
                && sample[col] != self.stable[col] {
                n
            } else {
                0
            }) && after.stable[col] == (if n < 4 {
                self.stable[col]
            } else {
                sample[col]
            }) by {
                assert(before.counts[col] == (if n - 1 < 4 && sample[col] != self.stable[col] {
                    (n - 1) as nat
                } else {
                    0
                }));
            }
            if n < 4 {
                assert(after.stable =~= self.stable);
            } else {
                assert(after.stable =~= sample);
            }
            if n == 3 {
                assert(after.changes(sample) =~= Seq::new(
                    16,
                    |col: int| sample[col] != self.stable[col],
                ));
            } else {
                assert(after.changes(sample) =~= no_columns());
            }
        }
    }
}

/// The sequence of sixteen flags that are all false.
pub open spec fn no_columns() -> Seq<bool> {
    Seq::new(16, |col: int| false)
}

/// Debounce state for one row of the keyscanner matrix.
#[derive(Clone, Copy, Debug, PartialEq, Eq, Structural)]
pub struct Debounce {
    /// Debounce counter 0 bits for a given [`RowState`].
    db0: RowState,
    /// Debounce counter 1 bits for a given [`RowState`].
    db1: RowState,
    /// Debounced [`RowState`].
    debounced: RowState,
}

impl View for Debounce {
    type V = DebounceView;

    /// Column `col` has counted `2 * db1[col] + db0[col]` disagreeing
    /// samples, and its stable flag is `debounced[col]`.
    open spec fn view(&self) -> DebounceView {
        DebounceView {
            counts: Seq::new(
                16,
                |col: int|
                    ((if self.db1()@[col] {
                        2nat
                    } else {
                        0nat
                    }) + (if self.db0()@[col] {
                        1nat
                    } else {
                        0nat
                    })) as nat,
            ),
            stable: self.debounced()@,
        }
    }
}

impl Debounce {
    /// The low bits of the sixteen counters.
    pub closed spec fn spec_db0(&self) -> RowState {
        self.db0
    }

    /// The high bits of the sixteen counters.
    pub closed spec fn spec_db1(&self) -> RowState {
        self.db1
    }

    /// The sixteen stable flags.
    pub closed spec fn spec_debounced(&self) -> RowState {
        self.debounced
    }

    /// The state in which nothing is counted and nothing is active.
    pub closed spec fn fresh() -> Debounce {
        Debounce { db0: RowState::empty(), db1: RowState::empty(), debounced: RowState::empty() }
    }

    /// What the fresh state holds.
    pub proof fn lemma_fresh()
        ensures
            Debounce::fresh().db0() == RowState::empty(),
            Debounce::fresh().db1() == RowState::empty(),
            Debounce::fresh().debounced() == RowState::empty(),
            Debounce::fresh()@.settled(),
            Debounce::fresh()@.stable == no_columns(),
    {
        RowState::empty().lemma_any_active_iff_nonzero();
        RowState::lemma_bits_round_trip(0);
        assert forall|col: int| 0 <= col < 16 implies !#[trigger] RowState::empty()@[col] by {
            assert(RowState::empty()@[col] ==> RowState::empty().any_active());
        }
        assert(Debounce::fresh()@.stable =~= no_columns());
    }

    /// The view of every [`Debounce`] is well formed.
    pub proof fn lemma_view_wf(self)
        ensures
            self@.wf(),
    {
    }

    /// A [`Debounce`] is determined by its view.
    pub proof fn lemma_view_determines(self, other: Debounce)
        requires
            self@ == other@,
        ensures
            self == other,
    {
        assert forall|col: int| 0 <= col < 16 implies self.db0@[col] == other.db0@[col]
            && self.db1@[col] == other.db1@[col] by {
            let mine = self@.counts[col];
            let theirs = other@.counts[col];
            assert(mine == theirs);
            assert(self.db0@[col] == (mine % 2 == 1));
            assert(other.db0@[col] == (theirs % 2 == 1));
            assert(self.db1@[col] == (mine >= 2));
            assert(other.db1@[col] == (theirs >= 2));
        }
        assert(self.db0@ =~= other.db0@);
        assert(self.db1@ =~= other.db1@);
        self.db0.lemma_columns_determine(other.db0);
        self.db1.lemma_columns_determine(other.db1);
        self.debounced.lemma_columns_determine(other.debounced);
    }

    /// Creates a new [`Debounce`] state: nothing counted, nothing active.
    pub fn new() -> (debounce: Self)
        ensures
            debounce == Debounce::fresh(),
            debounce.db0() == RowState::empty(),
            debounce.db1() == RowState::empty(),
            debounce.debounced() == RowState::empty(),
            debounce@.settled(),
            debounce@.stable == no_columns(),
    {
        proof {
            Debounce::lemma_fresh();
        }
        Self { db0: RowState::new(), db1: RowState::new(), debounced: RowState::new() }
    }

    /// Gets the debounce counter bit zero.
    #[verifier::when_used_as_spec(spec_db0)]
    pub fn db0(&self) -> (bits: RowState)
        ensures
            bits == self.db0(),
    {
        self.db0
    }

    /// Gets the debounce counter bit one.
    #[verifier::when_used_as_spec(spec_db1)]
    pub fn db1(&self) -> (bits: RowState)
        ensures
            bits == self.db1(),
    {
        self.db1
    }

    /// Gets the debounced [`RowState`].
    #[verifier::when_used_as_spec(spec_debounced)]
    pub fn debounced(&self) -> (stable: RowState)
        ensures
            stable == self.debounced(),
    {
        self.debounced
    }

    /// Debounce the sampled [`RowState`].
    ///
    /// Returns the columns whose change this sample confirms, and flips
    /// exactly those columns of the debounced state.
    pub fn debounce(&mut self, sample: RowState) -> (changes: RowState)
        ensures
            final(self)@ == old(self)@.step(sample@),
            changes@ == old(self)@.changes(sample@),
            final(self).debounced() == old(self).debounced().xor(changes),
    {
        // Use xor to detect changes from last stable state:
        // if a key has changed, its bit will be 1, otherwise 0
        let delta = sample ^ self.debounced;

        // Increment counters and reset any unchanged bits:
        // increment bit 1 for all changed keys
        let carried = self.db1 ^ self.db0;
        self.db1 = carried & delta;
        // increment bit 0 for all changed keys
        let flipped = self.db0.not();
        self.db0 = flipped & delta;

        // Calculate returned change set: if delta is still true
        // and the counter has wrapped back to 0, the key is changed.
        let quiet = delta.not();
        let quiet_or_low = quiet | self.db0;
        let unconfirmed = quiet_or_low | self.db1;
        let changes = unconfirmed.not();
        // Update state: in this case use xor to flip any bit that is true in changes.
        self.debounced = self.debounced ^ changes;

        proof {
            let before = old(self)@;
            let after = self@;
            assert forall|col: int| 0 <= col < 16 implies after.counts[col] == before.step(
                sample@,
            ).counts[col] && after.stable[col] == before.step(sample@).stable[col]
                && changes@[col] == before.changes(sample@)[col] by {
                assert(delta@[col] == before.differs(sample@, col));
                assert(carried@[col] == (old(self).db1@[col] != old(self).db0@[col]));
                assert(self.db1@[col] == (carried@[col] && delta@[col]));
                assert(flipped@[col] == !old(self).db0@[col]);
                assert(self.db0@[col] == (flipped@[col] && delta@[col]));
                assert(quiet@[col] == !delta@[col]);
                assert(quiet_or_low@[col] == (quiet@[col] || self.db0@[col]));
                assert(unconfirmed@[col] == (quiet_or_low@[col] || self.db1@[col]));
                assert(changes@[col] == !unconfirmed@[col]);
                assert(self.debounced@[col] == (old(self).debounced@[col] != changes@[col]));
            }
            assert(after.counts =~= before.step(sample@).counts);
            assert(after.stable =~= before.step(sample@).stable);
            assert(changes@ =~= before.changes(sample@));
        }
        changes
    }
}

impl Default for Debounce {
    /// The state that [`Debounce::new`] creates.
    fn default() -> (debounce: Self)
        ensures
            debounce == Debounce::fresh(),
            debounce.db0() == RowState::empty(),
            debounce.db1() == RowState::empty(),
            debounce.debounced() == RowState::empty(),
            debounce@.settled(),
            debounce@.stable == no_columns(),
    {
        Debounce::new()
    }
}

} // verus!
