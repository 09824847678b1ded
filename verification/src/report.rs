//! HID keyboard reports and how a sequence of keys fills them.
//!
//! A report has room for six keycodes, so the keys that are down at one time
//! may need more than one report. The keys are taken in the order in which
//! the matrix is visited. A modifier key sets its bit in the report that is
//! selected when it is visited and takes no keycode slot; every other key
//! takes the next free keycode slot, and the seventh such key selects the
//! next report.

use crate::key_defs::{
    key_is_modifier, key_to_modifier, modifier_has, modifier_index, spec_key_is_modifier,
};
use vstd::prelude::*;

verus! {

/// Number of keycodes in one [`KeyboardReport`].
pub const KEYS_PER_REPORT: usize = 6;

/// A report that a keyboard sends to its host: the modifier keys that are
/// down as a bitmask, and up to six other keys that are down as keycodes.
#[derive(Clone, Copy, Debug, PartialEq, Eq)]
pub struct KeyboardReport {
    pub modifier: u8,
    pub reserved: u8,
    pub leds: u8,
    pub keycodes: [u8; 6],
}

/// Whether `report` is blank: no key is down.
pub open spec fn is_blank(report: KeyboardReport) -> bool {
    &&& report.modifier == 0
    &&& report.reserved == 0
    &&& report.leds == 0
    &&& forall|slot: int| 0 <= slot < 6 ==> #[trigger] report.keycodes[slot] == 0
}

/// Blank reports are all the same.
pub proof fn lemma_blank_reports_equal(found: KeyboardReport, other: KeyboardReport)
    requires
        is_blank(found),
        is_blank(other),
    ensures
        found == other,
{
    assert(found.keycodes =~= other.keycodes);
}

/// Blank [`KeyboardReport`]: no key is down.
pub fn blank_report() -> (report: KeyboardReport)
    ensures
        is_blank(report),
{
    KeyboardReport { modifier: 0, reserved: 0, leds: 0, keycodes: [0;6] }
}

/// The keys of `keys` that take a keycode slot, in their order: all but the
/// modifier keys.
pub open spec fn slot_keys(keys: Seq<u8>) -> Seq<u8> {
    keys.filter(|key: u8| !spec_key_is_modifier(key))
}

/// The report that is selected when key number `at` of `keys` is visited:
/// one report further for every six keys before it that took a slot.
pub open spec fn report_at(keys: Seq<u8>, at: int) -> int {
    slot_keys(keys.take(at)).len() as int / 6
}

/// The keycode in slot `slot` of report number `report`: the slots of all
/// reports, in order, hold the keys that take a slot, and `0` from there on.
pub open spec fn keycode_of(keys: Seq<u8>, report: int, slot: int) -> u8 {
    let nth = 6 * report + slot;
    if 0 <= nth < slot_keys(keys).len() {
        slot_keys(keys)[nth]
    } else {
        0
    }
}

/// Whether bit `index` of the modifier byte of report number `report` is
/// set: some modifier key with that index was visited while that report was
/// selected.
pub open spec fn modifier_of(keys: Seq<u8>, report: int, index: int) -> bool {
    exists|at: int|
        0 <= at < keys.len() && spec_key_is_modifier(#[trigger] keys[at]) && modifier_index(
            keys[at],
        ) == index && report_at(keys, at) == report
}

/// Whether `found` is report number `report` of the keys `keys`.
pub open spec fn is_report_of(found: KeyboardReport, keys: Seq<u8>, report: int) -> bool {
    &&& found.reserved == 0
    &&& found.leds == 0
    &&& forall|slot: int|
        0 <= slot < 6 ==> #[trigger] found.keycodes[slot] == keycode_of(keys, report, slot)
    &&& forall|index: int|
        0 <= index < 8 ==> #[trigger] modifier_has(found.modifier, index) == modifier_of(
            keys,
            report,
            index,
        )
}

/// Whether `reports` are the first reports of the keys `keys`. Keys that
/// would go to a report beyond the last one are left out.
pub open spec fn are_reports_of<const N: usize>(reports: [KeyboardReport; N], keys: Seq<u8>) -> bool {
    forall|report: int| 0 <= report < N ==> is_report_of(#[trigger] reports[report], keys, report)
}

/// A modifier byte is zero exactly when none of its eight bits is set, and
/// two modifier bytes with the same bits are the same.
proof fn lemma_modifier_bits(a: u8, b: u8)
    by (bit_vector)
    ensures
        (a == 0) == !(modifier_has(a, 0) || modifier_has(a, 1) || modifier_has(a, 2)
            || modifier_has(a, 3) || modifier_has(a, 4) || modifier_has(a, 5) || modifier_has(a, 6)
            || modifier_has(a, 7)),
        (a == b) == (modifier_has(a, 0) == modifier_has(b, 0) && modifier_has(a, 1)
            == modifier_has(b, 1) && modifier_has(a, 2) == modifier_has(b, 2) && modifier_has(a, 3)
            == modifier_has(b, 3) && modifier_has(a, 4) == modifier_has(b, 4) && modifier_has(a, 5)
            == modifier_has(b, 5) && modifier_has(a, 6) == modifier_has(b, 6) && modifier_has(a, 7)
            == modifier_has(b, 7)),
{
}

/// The bits of the union of two modifier bytes.
proof fn lemma_modifier_union(a: u8, b: u8, index: u8)
    by (bit_vector)
    requires
        index < 8,
    ensures
        ((a | b) >> index) & 1 == 1 <==> ((a >> index) & 1 == 1 || (b >> index) & 1 == 1),
{
}

/// Pushing a key that takes a slot appends it to the slot keys; pushing a
/// modifier key leaves the slot keys as they are.
pub proof fn lemma_slot_keys_push(keys: Seq<u8>, key: u8)
    ensures
        slot_keys(keys.push(key)) == if spec_key_is_modifier(key) {
            slot_keys(keys)
        } else {
            slot_keys(keys).push(key)
        },
        slot_keys(Seq::<u8>::empty()) == Seq::<u8>::empty(),
        slot_keys(keys).len() <= keys.len(),
{
    reveal(Seq::filter);
    assert(keys.push(key).drop_last() =~= keys);
    keys.lemma_filter_len(|key: u8| !spec_key_is_modifier(key));
}

/// The report that is selected at a key does not depend on the keys after
/// it.
pub proof fn lemma_report_at_push(keys: Seq<u8>, key: u8, at: int)
    requires
        0 <= at <= keys.len(),
    ensures
        report_at(keys.push(key), at) == report_at(keys, at),
        report_at(keys, keys.len() as int) == slot_keys(keys).len() as int / 6,
{
    assert(keys.push(key).take(at) =~= keys.take(at));
    assert(keys.take(keys.len() as int) =~= keys);
}

/// Pushing a key sets at most one modifier bit: that of the key, in the
/// report that is selected when it is pushed.
pub proof fn lemma_modifier_of_push(keys: Seq<u8>, key: u8, report: int, index: int)
    ensures
        modifier_of(keys.push(key), report, index) == (modifier_of(keys, report, index) || (
        spec_key_is_modifier(key) && modifier_index(key) == index && slot_keys(keys).len() as int
            / 6 == report)),
{
    let more = keys.push(key);
    let last = keys.len() as int;
    lemma_report_at_push(keys, key, last);
    if modifier_of(keys, report, index) {
        let at = choose|at: int|
            0 <= at < keys.len() && spec_key_is_modifier(#[trigger] keys[at]) && modifier_index(
                keys[at],
            ) == index && report_at(keys, at) == report;
        lemma_report_at_push(keys, key, at);
        assert(more[at] == keys[at]);
        assert(modifier_of(more, report, index));
    }
    if spec_key_is_modifier(key) && modifier_index(key) == index && slot_keys(keys).len() as int
        / 6 == report {
        assert(more[last] == key);
        assert(modifier_of(more, report, index));
    }
    if modifier_of(more, report, index) {
        let at = choose|at: int|
            0 <= at < more.len() && spec_key_is_modifier(#[trigger] more[at]) && modifier_index(
                more[at],
            ) == index && report_at(more, at) == report;
        if at < last {
            lemma_report_at_push(keys, key, at);
            assert(keys[at] == more[at]);
            assert(modifier_of(keys, report, index));
        }
    }
}

/// No keys give blank reports, whatever their number.
pub proof fn lemma_no_keys_blank(found: KeyboardReport, report: int)
    ensures
        is_report_of(found, Seq::<u8>::empty(), report) <==> is_blank(found),
{
    let keys = Seq::<u8>::empty();
    lemma_slot_keys_push(keys, 0);
    lemma_modifier_bits(found.modifier, 0);
    assert forall|index: int| 0 <= index < 8 implies !modifier_of(keys, report, index) by {}
    assert forall|slot: int| 0 <= slot < 6 implies keycode_of(keys, report, slot) == 0 by {}
    if is_report_of(found, keys, report) {
        assert(!modifier_has(found.modifier, 0));
        assert(!modifier_has(found.modifier, 1));
        assert(!modifier_has(found.modifier, 2));
        assert(!modifier_has(found.modifier, 3));
        assert(!modifier_has(found.modifier, 4));
        assert(!modifier_has(found.modifier, 5));
        assert(!modifier_has(found.modifier, 6));
        assert(!modifier_has(found.modifier, 7));
        assert(found.modifier == 0);
    }
    if is_blank(found) {
        assert forall|index: int| 0 <= index < 8 implies !#[trigger] modifier_has(
            found.modifier,
            index,
        ) by {
            let at = index as u8;
            assert((0u8 >> at) & 1 != 1) by (bit_vector);
        }
    }
}

/// The reports of a sequence of keys are determined by it.
pub proof fn lemma_report_determined(
    found: KeyboardReport,
    other: KeyboardReport,
    keys: Seq<u8>,
    report: int,
)
    requires
        is_report_of(found, keys, report),
        is_report_of(other, keys, report),
    ensures
        found == other,
{
    lemma_modifier_bits(found.modifier, other.modifier);
    assert(modifier_has(found.modifier, 0) == modifier_has(other.modifier, 0));
    assert(modifier_has(found.modifier, 1) == modifier_has(other.modifier, 1));
    assert(modifier_has(found.modifier, 2) == modifier_has(other.modifier, 2));
    assert(modifier_has(found.modifier, 3) == modifier_has(other.modifier, 3));
    assert(modifier_has(found.modifier, 4) == modifier_has(other.modifier, 4));
    assert(modifier_has(found.modifier, 5) == modifier_has(other.modifier, 5));
    assert(modifier_has(found.modifier, 6) == modifier_has(other.modifier, 6));
    assert(modifier_has(found.modifier, 7) == modifier_has(other.modifier, 7));
    assert forall|slot: int| 0 <= slot < 6 implies found.keycodes[slot] == other.keycodes[slot] by {
        assert(found.keycodes[slot] == keycode_of(keys, report, slot));
        assert(other.keycodes[slot] == keycode_of(keys, report, slot));
    }
    assert(found.keycodes =~= other.keycodes);
}

/// Fills an array of `N` reports with keys, one key at a time.
pub struct ReportWriter<const N: usize> {
    reports: [KeyboardReport; N],
    report_idx: usize,
    keycodes: usize,
    keys: Ghost<Seq<u8>>,
}

impl<const N: usize> ReportWriter<N> {
    /// The keys taken so far, in their order.
    pub closed spec fn keys(&self) -> Seq<u8> {
        self.keys@
    }

    /// The reports as they are now.
    pub closed spec fn reports(&self) -> [KeyboardReport; N] {
        self.reports
    }

    /// The reports are those of the keys taken so far, and the writer knows
    /// where the next key goes: `report_idx` is the report that is selected,
    /// or `N` when all reports are full, and `keycodes` is the number of
    /// slots that are taken in the selected report.
    pub closed spec fn wf(&self) -> bool {
        let taken = slot_keys(self.keys@).len();
        &&& are_reports_of(self.reports, self.keys@)
        &&& if taken / 6 < N {
            self.report_idx == taken / 6 && self.keycodes == taken % 6
        } else {
            self.report_idx == N
        }
    }

    /// The reports of a well-formed writer are those of its keys.
    pub proof fn lemma_reports(&self)
        requires
            self.wf(),
        ensures
            are_reports_of(self.reports(), self.keys()),
    {
    }

    /// Creates a writer that has taken no key: all reports are blank.
    pub fn new() -> (writer: Self)
        ensures
            writer.wf(),
            writer.keys() == Seq::<u8>::empty(),
            forall|report: int| 0 <= report < N ==> is_blank(#[trigger] writer.reports()[report]),
    {
        let blank = blank_report();
        let reports = [blank;N];
        proof {
            lemma_slot_keys_push(Seq::<u8>::empty(), 0);
            assert forall|report: int| 0 <= report < N implies is_report_of(
                #[trigger] reports[report],
                Seq::<u8>::empty(),
                report,
            ) by {
                lemma_no_keys_blank(reports[report], report);
            }
        }
        ReportWriter { reports, report_idx: 0, keycodes: 0, keys: Ghost(Seq::empty()) }
    }

    /// Takes one more key into the reports.
    ///
    /// A modifier key sets its bit in the selected report. Any other key
    /// takes the next slot of the selected report, and the report after it is
    /// selected once all six slots are taken. A key for a report beyond the
    /// last one is left out.
    pub fn add_key(&mut self, key: u8)
        requires
            old(self).wf(),
        ensures
            final(self).wf(),
            final(self).keys() == old(self).keys().push(key),
            are_reports_of(final(self).reports(), final(self).keys()),
    {
        let ghost keys = self.keys@;
        let ghost more = keys.push(key);
        let ghost taken = slot_keys(keys).len() as int;
        let ghost before = self.reports;
        proof {
            lemma_slot_keys_push(keys, key);
            assert forall|report: int, index: int|
                modifier_of(more, report, index) == (modifier_of(keys, report, index) || (
                spec_key_is_modifier(key) && modifier_index(key) == index && taken / 6
                    == report)) by {
                lemma_modifier_of_push(keys, key, report, index);
            }
        }
        if self.report_idx < N {
            if key_is_modifier(key) {
                let bit = key_to_modifier(key);
                let ghost merged = self.reports[self.report_idx as int].modifier | bit;
                self.reports[self.report_idx].modifier |= bit;
                proof {
                    assert forall|index: int| 0 <= index < 8 implies #[trigger] modifier_has(
                        merged,
                        index,
                    ) == (modifier_has(before[self.report_idx as int].modifier, index)
                        || modifier_has(bit, index)) by {
                        lemma_modifier_union(
                            before[self.report_idx as int].modifier,
                            bit,
                            index as u8,
                        );
                    }
                }
            } else {
                self.reports[self.report_idx].keycodes[self.keycodes] = key;
                self.keycodes += 1;
                // if the current report has the max non-modifier keys, move to the next report
                if self.keycodes >= KEYS_PER_REPORT {
                    self.report_idx += 1;
                    self.keycodes = 0;
                }
            }
        }
        proof {
            self.keys@ = more;
            assert forall|report: int| 0 <= report < N implies is_report_of(
                #[trigger] self.reports[report],
                more,
                report,
            ) by {
                assert(is_report_of(before[report], keys, report));
                assert forall|slot: int| 0 <= slot < 6 implies #[trigger] self.reports[report].keycodes[slot]
                    == keycode_of(more, report, slot) by {
                    assert(before[report].keycodes[slot] == keycode_of(keys, report, slot));
                }
                assert forall|index: int| 0 <= index < 8 implies #[trigger] modifier_has(
                    self.reports[report].modifier,
                    index,
                ) == modifier_of(more, report, index) by {
                    assert(modifier_has(before[report].modifier, index) == modifier_of(
                        keys,
                        report,
                        index,
                    ));
                }
            }
        }
    }

    /// Hands out the reports.
    pub fn finish(self) -> (reports: [KeyboardReport; N])
        requires
            self.wf(),
        ensures
            reports == self.reports(),
            are_reports_of(reports, self.keys()),
    {
        self.reports
    }
}

} // verus!
