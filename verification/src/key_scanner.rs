//! Keyscanner types and functionality
//!
//! The scanner debounces the sampled rows of the key matrix and turns the
//! debounced state into keyboard reports. Sampling the matrix itself, that is
//! driving a row line and reading the column lines, is left to the caller,
//! who hands in one [`RowState`] per row.

use crate::debounce::{no_columns, Debounce, DebounceView};
use crate::debounce_row_state::DebounceRowState;
use crate::key_defs::{COLS, COL_KEYS, ROWS};
use crate::report::{
    are_reports_of, is_blank, lemma_no_keys_blank, KeyboardReport, ReportWriter,
};
use crate::row_state::RowState;
use vstd::prelude::*;

verus! {

/// The mathematical content of a [`DebounceRowState`].
pub struct RowView {
    pub previous: Seq<bool>,
    pub current: Seq<bool>,
    pub debouncer: DebounceView,
}

/// The view of a row: the views of its three parts.
pub open spec fn row_view(row: DebounceRowState) -> RowView {
    RowView { previous: row.previous()@, current: row.current()@, debouncer: row.debouncer()@ }
}

/// The keycode of the key at `position`, where the positions count the keys
/// row by row, and within a row column by column.
pub open spec fn key_at(position: int) -> u8 {
    COL_KEYS[position % (COLS as int)][position / (COLS as int)]
}

/// The views of the sampled rows.
pub open spec fn sample_views(samples: [RowState; ROWS]) -> Seq<Seq<bool>> {
    Seq::new(ROWS as nat, |row: int| samples[row]@)
}

/// The mathematical content of a [`KeyScanner`].
pub struct ScannerView {
    pub rows: Seq<RowView>,
    pub do_scan: bool,
}

impl ScannerView {
    /// Whether `samples` confirm a change of any key.
    pub open spec fn confirms_change(self, samples: Seq<Seq<bool>>) -> bool {
        exists|row: int, col: int|
            0 <= row < ROWS && 0 <= col < 16 && #[trigger] self.rows[row].debouncer.changes(
                samples[row],
            )[col]
    }

    /// The state after the rows have been sampled as `samples`: every row is
    /// debounced with its sample. If that confirmed a change of any key, the
    /// current snapshot of every row is its debounced state; if not, every
    /// current snapshot stays. The previous snapshots stay in either case.
    pub open spec fn after_read(self, samples: Seq<Seq<bool>>) -> ScannerView {
        ScannerView {
            rows: Seq::new(
                ROWS as nat,
                |row: int|
                    RowView {
                        previous: self.rows[row].previous,
                        current: if self.confirms_change(samples) {
                            self.rows[row].debouncer.step(samples[row]).stable
                        } else {
                            self.rows[row].current
                        },
                        debouncer: self.rows[row].debouncer.step(samples[row]),
                    },
            ),
            do_scan: self.do_scan,
        }
    }

    /// Whether the key at `position` takes part in the reports: it was
    /// active when reports were last made, or is active now.
    pub open spec fn reports_key(self, position: int) -> bool {
        let row = self.rows[position / (COLS as int)];
        let col = position % (COLS as int);
        row.previous[col] || row.current[col]
    }

    /// The keycodes of the keys before `position` that take part in the
    /// reports, in the order of their positions.
    pub open spec fn keys_before(self, position: int) -> Seq<u8>
        decreases position,
    {
        if position <= 0 {
            Seq::empty()
        } else if self.reports_key(position - 1) {
            self.keys_before(position - 1).push(key_at(position - 1))
        } else {
            self.keys_before(position - 1)
        }
    }

    /// The keycodes of all keys that take part in the reports.
    pub open spec fn active_keys(self) -> Seq<u8> {
        self.keys_before(ROWS * COLS)
    }

    /// The state after reports have been made: the current snapshot of
    /// every row has become its previous snapshot.
    pub open spec fn after_report(self) -> ScannerView {
        ScannerView {
            rows: Seq::new(
                ROWS as nat,
                |row: int|
                    RowView {
                        previous: self.rows[row].current,
                        current: self.rows[row].current,
                        debouncer: self.rows[row].debouncer,
                    },
            ),
            do_scan: self.do_scan,
        }
    }

    /// The state in which reports are made by a scan with `samples`: the
    /// rows are read only if a scan is due, and then no scan is due any more.
    pub open spec fn before_report(self, samples: Seq<Seq<bool>>) -> ScannerView {
        if self.do_scan {
            ScannerView { rows: self.after_read(samples).rows, do_scan: false }
        } else {
            self
        }
    }

    /// Where no key takes part in the reports, there are no keys to report.
    pub proof fn lemma_no_key_reported(self, position: int)
        requires
            forall|earlier: int| 0 <= earlier < position ==> !self.reports_key(earlier),
        ensures
            self.keys_before(position) == Seq::<u8>::empty(),
        decreases position,
    {
        if position > 0 {
            self.lemma_no_key_reported(position - 1);
        }
    }
}

/// Represents the key matrix scanner for reading row and column pin activation.
///
/// Uses a debouncing algorithm to normalize reads, and avoid producing multiple reports for a
/// single key press.
pub struct KeyScanner {
    matrix_state: [DebounceRowState; ROWS],
    do_scan: bool,
}

impl View for KeyScanner {
    type V = ScannerView;

    open spec fn view(&self) -> ScannerView {
        ScannerView {
            rows: Seq::new(ROWS as nat, |row: int| row_view(self.rows()[row])),
            do_scan: self.do_scan(),
        }
    }
}

impl KeyScanner {
    /// The state of the rows, first row first.
    pub closed spec fn rows(&self) -> Seq<DebounceRowState> {
        self.matrix_state@
    }

    /// Whether the matrix is to be read at the next scan.
    pub closed spec fn spec_do_scan(&self) -> bool {
        self.do_scan
    }

    /// A scanner has one state for each row.
    pub proof fn lemma_rows_len(&self)
        ensures
            self.rows().len() == ROWS,
    {
    }

    /// Creates a new scanner: no key active, nothing pending, and a scan due.
    pub fn new() -> (scanner: Self)
        ensures
            scanner.do_scan(),
            forall|row: int|
                0 <= row < ROWS ==> #[trigger] scanner.rows()[row] == DebounceRowState::of_parts(
                    RowState::empty(),
                    RowState::empty(),
                    Debounce::fresh(),
                ),
            forall|row: int|
                0 <= row < ROWS ==> {
                    &&& (#[trigger] scanner@.rows[row]).previous == no_columns()
                    &&& scanner@.rows[row].current == no_columns()
                    &&& scanner@.rows[row].debouncer.stable == no_columns()
                    &&& scanner@.rows[row].debouncer.settled()
                },
            forall|position: int| 0 <= position < ROWS * COLS ==> !scanner@.reports_key(position),
    {
        let row = DebounceRowState::new();
        let scanner = Self { matrix_state: [row;ROWS], do_scan: true };
        proof {
            Debounce::lemma_fresh();
            assert(row.previous()@ == no_columns());
            assert(row.current()@ == no_columns());
            assert forall|r: int| 0 <= r < ROWS implies {
                &&& (#[trigger] scanner@.rows[r]).previous == no_columns()
                &&& scanner@.rows[r].current == no_columns()
                &&& scanner@.rows[r].debouncer.stable == no_columns()
                &&& scanner@.rows[r].debouncer.settled()
            } by {
                assert(scanner.matrix_state[r] == row);
            }
            assert forall|position: int| 0 <= position < ROWS * COLS implies !scanner@.reports_key(
                position,
            ) by {
                let r = position / (COLS as int);
                assert(scanner@.rows[r].previous == no_columns());
            }
        }
        scanner
    }

    /// Gets whether the matrix is to be read at the next scan.
    #[verifier::when_used_as_spec(spec_do_scan)]
    pub fn do_scan(&self) -> (due: bool)
        ensures
            due == self.do_scan(),
    {
        self.do_scan
    }

    /// Sets whether the matrix is to be read at the next scan.
    pub fn set_do_scan(&mut self, val: bool)
        ensures
            final(self).do_scan() == val,
            final(self).rows() == old(self).rows(),
    {
        self.do_scan = val;
    }

    /// Takes the sampled rows of the key matrix, and updates the debouncer state.
    ///
    /// Column `col` of `samples[row]` tells whether the key in that row and
    /// column was found pressed.
    pub fn read_matrix(&mut self, samples: &[RowState; ROWS])
        ensures
            final(self)@ == old(self)@.after_read(sample_views(*samples)),
    {
        let ghost before = self@;
        let ghost sampled = sample_views(*samples);
        let mut any_debounced_changes = RowState::new();

        let mut row: usize = 0;
        while row < ROWS
            invariant
                row <= ROWS,
                self.do_scan == old(self).do_scan,
                before == old(self)@,
                sampled == sample_views(*samples),
                forall|r: int|
                    row <= r < ROWS ==> #[trigger] self.matrix_state[r] == old(
                        self,
                    ).matrix_state[r],
                forall|r: int|
                    0 <= r < row ==> {
                        &&& (#[trigger] self.matrix_state[r]).previous() == old(
                            self,
                        ).matrix_state[r].previous()
                        &&& self.matrix_state[r].current() == old(self).matrix_state[r].current()
                        &&& self.matrix_state[r].debouncer()@ == before.rows[r].debouncer.step(
                            sampled[r],
                        )
                    },
                forall|col: int|
                    0 <= col < 16 ==> (#[trigger] any_debounced_changes@[col] <==> exists|r: int|
                        0 <= r < row && #[trigger] before.rows[r].debouncer.changes(
                            sampled[r],
                        )[col]),
            decreases ROWS - row,
        {
            let mut debouncer = self.matrix_state[row].debouncer();
            let changes = debouncer.debounce(samples[row]);
            self.matrix_state[row].set_debouncer(debouncer);
            let ghost seen = any_debounced_changes;
            any_debounced_changes = any_debounced_changes | changes;
            proof {
                assert(changes@ == before.rows[row as int].debouncer.changes(sampled[row as int]));
                assert forall|col: int| 0 <= col < 16 implies (
                #[trigger] any_debounced_changes@[col] <==> exists|r: int|
                    0 <= r < row + 1 && #[trigger] before.rows[r].debouncer.changes(
                        sampled[r],
                    )[col]) by {
                    assert(any_debounced_changes@[col] == (seen@[col] || changes@[col]));
                }
            }
            row += 1;
        }

        let changed = any_debounced_changes.is_active();
        proof {
            if before.confirms_change(sampled) {
                let (r, col) = choose|r: int, col: int|
                    0 <= r < ROWS && 0 <= col < 16 && #[trigger] before.rows[r].debouncer.changes(
                        sampled[r],
                    )[col];
                assert(any_debounced_changes@[col]);
            }
        }
        if changed {
            let mut s: usize = 0;
            while s < ROWS
                invariant
                    s <= ROWS,
                    self.do_scan == old(self).do_scan,
                    forall|r: int|
                        0 <= r < ROWS ==> {
                            &&& (#[trigger] self.matrix_state[r]).previous() == old(
                                self,
                            ).matrix_state[r].previous()
                            &&& self.matrix_state[r].debouncer()@ == before.rows[r].debouncer.step(
                                sampled[r],
                            )
                        },
                    forall|r: int|
                        s <= r < ROWS ==> (#[trigger] self.matrix_state[r]).current() == old(
                            self,
                        ).matrix_state[r].current(),
                    forall|r: int|
                        0 <= r < s ==> (#[trigger] self.matrix_state[r]).current()
                            == self.matrix_state[r].debouncer().debounced(),
                decreases ROWS - s,
            {
                let debounced = self.matrix_state[s].debouncer().debounced();
                self.matrix_state[s].set_current(debounced);
                s += 1;
            }
        }
        proof {
            let after = self@;
            let wanted = before.after_read(sampled);
            assert forall|r: int| 0 <= r < ROWS implies after.rows[r] == wanted.rows[r] by {
                assert(self.matrix_state[r].previous() == old(self).matrix_state[r].previous());
            }
            assert(after.rows =~= wanted.rows);
        }
    }

    /// Gets the debounced [`KeyboardReport`]s from the most recent matrix scan.
    ///
    /// The keys are visited row by row, and within a row column by column.
    /// A key takes part if it was active when reports were last made or is
    /// active now.
    pub fn matrix_scan_reports<const N: usize>(&mut self) -> (reports: [KeyboardReport; N])
        ensures
            final(self)@ == old(self)@.after_report(),
            are_reports_of(reports, old(self)@.active_keys()),
            (forall|position: int| 0 <= position < ROWS * COLS ==> !old(self)@.reports_key(position))
                ==> forall|report: int| 0 <= report < N ==> is_blank(#[trigger] reports[report]),
    {
        let ghost before = self@;
        let mut writer = ReportWriter::<N>::new();

        let mut row: usize = 0;
        while row < ROWS
            invariant
                row <= ROWS,
                self.do_scan == old(self).do_scan,
                before == old(self)@,
                writer.wf(),
                writer.keys() == before.keys_before(row * COLS),
                forall|r: int|
                    row <= r < ROWS ==> #[trigger] self.matrix_state[r] == old(
                        self,
                    ).matrix_state[r],
                forall|r: int|
                    0 <= r < row ==> {
                        &&& (#[trigger] self.matrix_state[r]).previous() == old(
                            self,
                        ).matrix_state[r].current()
                        &&& self.matrix_state[r].current() == old(self).matrix_state[r].current()
                        &&& self.matrix_state[r].debouncer() == old(
                            self,
                        ).matrix_state[r].debouncer()
                    },
            decreases ROWS - row,
        {
            let row_state = self.matrix_state[row];
            let mut col: usize = 0;
            while col < COLS
                invariant
                    row < ROWS,
                    col <= COLS,
                    before == old(self)@,
                    row_state == old(self).matrix_state[row as int],
                    writer.wf(),
                    writer.keys() == before.keys_before(row * COLS + col),
                decreases COLS - col,
            {
                if row_state.previous().column(col) || row_state.current().column(col) {
                    // read the key value from the key map
                    let key = COL_KEYS[col][row];
                    writer.add_key(key);
                }
                col += 1;
            }

            self.matrix_state[row].set_previous(row_state.current());
            row += 1;
        }

        let reports = writer.finish();
        proof {
            let after = self@;
            let wanted = before.after_report();
            assert forall|r: int| 0 <= r < ROWS implies after.rows[r] == wanted.rows[r] by {
                assert(self.matrix_state[r].previous() == old(self).matrix_state[r].current());
            }
            assert(after.rows =~= wanted.rows);
            if forall|position: int| 0 <= position < ROWS * COLS ==> !before.reports_key(position) {
                before.lemma_no_key_reported(ROWS * COLS);
                assert forall|report: int| 0 <= report < N implies is_blank(
                    #[trigger] reports[report],
                ) by {
                    lemma_no_keys_blank(reports[report], report);
                }
            }
        }
        reports
    }

    /// Perform a debounced scan of the key matrix, and return any [`KeyboardReport`]s.
    ///
    /// The sampled rows are taken only if a scan is due, and then no scan is
    /// due any more; reports are made in either case.
    pub fn scan<const N: usize>(&mut self, samples: &[RowState; ROWS]) -> (reports: [KeyboardReport; N])
        ensures
            final(self)@ == old(self)@.before_report(sample_views(*samples)).after_report(),
            are_reports_of(
                reports,
                old(self)@.before_report(sample_views(*samples)).active_keys(),
            ),
    {
        let do_scan = self.do_scan;
        if do_scan {
            self.read_matrix(samples);
            self.do_scan = false;
        }
        self.matrix_scan_reports::<N>()
    }
}

} // verus!
