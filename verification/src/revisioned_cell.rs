//! The atomically-updated `(value, revision)` pair underlying all shared
//! state in this crate.
//!
//! A cell starts at revision 0 and every write replaces the value and
//! advances the revision by exactly 1 as one step. Callers that share a cell
//! must do so under a single exclusion domain (the server wraps the whole
//! store in one lock), so the `&mut` discipline here is exactly the
//! indivisibility the store promises: no observer can see a half-applied
//! write.

use vstd::prelude::*;

verus! {

/// A value tagged with the revision number of the write that produced it.
///
/// The pair is only ever replaced as a unit: `write` installs the new value
/// and the incremented revision together, so any snapshot of the two fields
/// was established by one single write (or by `new`, which counts as
/// revision 0).
#[derive(Clone, Copy)]
pub struct RevisionedCell<T> {
    value: T,
    revision_num: i32,
}

impl<T> RevisionedCell<T> {
    /// The current payload.
    pub closed spec fn spec_value(&self) -> T {
        self.value
    }

    /// The revision of the write that produced the current payload.
    pub closed spec fn spec_revision(&self) -> i32 {
        self.revision_num
    }

    /// The state a fresh cell is in: the initial value at revision 0.
    pub closed spec fn spec_new(value: T) -> RevisionedCell<T> {
        RevisionedCell { value, revision_num: 0 }
    }

    /// The state a cell is in after one write of `value`: the new value and
    /// the incremented revision, installed together.
    pub closed spec fn spec_write(self, value: T) -> RevisionedCell<T> {
        RevisionedCell { value, revision_num: (self.revision_num + 1) as i32 }
    }

    /// Creates a cell holding `value` at revision 0.
    pub fn new(value: T) -> (cell: Self)
        ensures
            cell == Self::spec_new(value),
            cell.spec_value() == value,
            cell.spec_revision() == 0,
    {
        RevisionedCell { value, revision_num: 0 }
    }

    /// The current value, without the revision.
    pub fn value(&self) -> (v: &T)
        ensures
            *v == self.spec_value(),
    {
        &self.value
    }

    /// The current revision, without the value.
    pub fn revision_num(&self) -> (r: i32)
        ensures
            r == self.spec_revision(),
    {
        self.revision_num
    }

    /// A consistent snapshot of the pair: both components come from the same
    /// single write.
    pub fn read(&self) -> (snapshot: (&T, i32))
        ensures
            *snapshot.0 == self.spec_value(),
            snapshot.1 == self.spec_revision(),
    {
        (&self.value, self.revision_num)
    }

    /// Replaces the value and advances the revision by exactly 1, as one
    /// indivisible step; returns the new revision.
    pub fn write(&mut self, value: T) -> (r: i32)
        requires
            old(self).spec_revision() < i32::MAX,
        ensures
            *final(self) == old(self).spec_write(value),
            final(self).spec_value() == value,
            final(self).spec_revision() == old(self).spec_revision() + 1,
            r == final(self).spec_revision(),
    {
        self.value = value;
        self.revision_num = self.revision_num + 1;
        self.revision_num
    }

    /// The state a cell is in after a whole run of writes, applied in order.
    pub open spec fn spec_write_all(self, values: Seq<T>) -> RevisionedCell<T>
        decreases values.len(),
    {
        if values.len() == 0 {
            self
        } else {
            self.spec_write(values[0]).spec_write_all(values.drop_first())
        }
    }
}

/// Revision monotonicity: a run of writes advances the revision by exactly
/// 1 per write, so over the run it never decreases and never repeats.
pub proof fn lemma_revision_monotonicity<T>(cell: RevisionedCell<T>, values: Seq<T>)
    requires
        0 <= cell.spec_revision(),
        cell.spec_revision() + values.len() <= i32::MAX,
    ensures
        cell.spec_write_all(values).spec_revision() == cell.spec_revision() + values.len(),
    decreases values.len(),
{
    if values.len() > 0 {
        lemma_revision_monotonicity(cell.spec_write(values[0]), values.drop_first());
    }
}

/// The value a run of writes leaves behind: the last value written, or the
/// starting value when the run is empty.
proof fn lemma_value_after_writes<T>(cell: RevisionedCell<T>, values: Seq<T>)
    ensures
        cell.spec_write_all(values).spec_value() == (if values.len() == 0 {
            cell.spec_value()
        } else {
            values.last()
        }),
    decreases values.len(),
{
    if values.len() > 0 {
        lemma_value_after_writes(cell.spec_write(values[0]), values.drop_first());
    }
}

/// Atomic pairing: after any run of writes on a fresh cell, the observable
/// snapshot is exactly the pair that one single step installed — the value
/// written at step `revision` together with that step's revision (step 0
/// being the creation). A value from one write never appears beside a
/// revision from another.
pub proof fn lemma_atomic_pairing<T>(initial: T, values: Seq<T>)
    requires
        values.len() <= i32::MAX,
    ensures
        ({
            let cell = RevisionedCell::spec_new(initial).spec_write_all(values);
            &&& cell.spec_revision() == values.len()
            &&& cell.spec_value() == (if values.len() == 0 {
                initial
            } else {
                values.last()
            })
        }),
{
    let start = RevisionedCell::spec_new(initial);
    lemma_revision_monotonicity(start, values);
    lemma_value_after_writes(start, values);
}

/// Concurrent writers: the store's single exclusion domain serializes two
/// overlapping writes in one order or the other; whichever order that is,
/// they produce distinct, consecutive revisions — no lost update and no
/// duplicated revision.
pub proof fn lemma_two_writes_distinct_revisions<T>(
    cell: RevisionedCell<T>,
    first: T,
    second: T,
)
    requires
        cell.spec_revision() + 2 <= i32::MAX,
    ensures
        ({
            let r1 = cell.spec_write(first).spec_revision();
            let r2 = cell.spec_write(first).spec_write(second).spec_revision();
            &&& r1 == cell.spec_revision() + 1
            &&& r2 == cell.spec_revision() + 2
            &&& r1 != r2
            &&& r2 == r1 + 1
        }),
{
}

} // verus!
