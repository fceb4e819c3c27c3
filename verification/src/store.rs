//! The record store, as far as a run relies on it: what a write-back does to
//! the rows, and what the next run then makes of them.

use crate::engine::EventView;
use crate::ledger::Price;
use crate::rows::{checked_rows, Row};
use crate::run::{action_at, lemma_empty_batch_reaches_nothing, snapshot_of};
use crate::selection::{
    batch_of, indices_of, lemma_batch_is_capped, lemma_empty_batch, lemma_valid_positions,
    selected_positions, valid_entries, valid_positions, BATCH_CAP,
};
use vstd::prelude::*;

verus! {

/// `after` is what the store holds once the write-back of `written` has been
/// applied to `before`, with nothing else changed: every row whose index is
/// among `written` is synchronised, and every other flag, index and address
/// is as it was.
pub open spec fn reflects_write_back(before: Seq<Row>, after: Seq<Row>, written: Seq<u32>) -> bool {
    &&& after.len() == before.len()
    &&& forall|p: int|
        0 <= p < before.len() ==> {
            &&& (#[trigger] after[p]).index == before[p].index
            &&& after[p].text() == before[p].text()
            &&& after[p].approved == before[p].approved
            &&& after[p].synced == (before[p].synced || written.contains(before[p].index))
        }
}

/// Whether `index` is among `written`.
pub fn is_written(written: &Vec<u32>, index: u32) -> (r: bool)
    ensures
        r == written@.contains(index),
{
    let mut j: usize = 0;
    while j < written.len()
        invariant
            0 <= j <= written.len(),
            forall|i: int| 0 <= i < j ==> written@[i] != index,
        decreases written.len() - j,
    {
        if written[j] == index {
            return true;
        }
        j += 1;
    }
    false
}

/// Applies a write-back to a snapshot, as the store does to its rows.
///
/// Applying the same write-back again changes nothing more.
pub fn mark_synced(rows: &Vec<Row>, written: &Vec<u32>) -> (after: Vec<Row>)
    ensures
        reflects_write_back(rows@, after@, written@),
{
    let mut after: Vec<Row> = Vec::new();
    let mut i: usize = 0;
    while i < rows.len()
        invariant
            0 <= i <= rows.len(),
            after@.len() == i,
            forall|p: int|
                0 <= p < i ==> {
                    &&& (#[trigger] after@[p]).index == rows@[p].index
                    &&& after@[p].text() == rows@[p].text()
                    &&& after@[p].approved == rows@[p].approved
                    &&& after@[p].synced == (rows@[p].synced || written@.contains(rows@[p].index))
                },
        decreases rows.len() - i,
    {
        let row = &rows[i];
        let address = match &row.address {
            Some(text) => Some(text.clone()),
            None => None,
        };
        let synced = row.synced || is_written(written, row.index);
        after.push(Row { index: row.index, address, approved: row.approved, synced });
        i += 1;
    }
    after
}

/// A write-back is idempotent: a store that reflects it still does so when
/// it is applied once more.
pub proof fn lemma_write_back_is_idempotent(
    before: Seq<Row>,
    after: Seq<Row>,
    again: Seq<Row>,
    written: Seq<u32>,
)
    requires
        reflects_write_back(before, after, written),
        reflects_write_back(after, again, written),
    ensures
        reflects_write_back(before, again, written),
        forall|p: int| 0 <= p < before.len() ==> (#[trigger] again[p]).synced == after[p].synced,
{
    assert forall|p: int| 0 <= p < before.len() implies {
        &&& (#[trigger] again[p]).index == before[p].index
        &&& again[p].text() == before[p].text()
        &&& again[p].approved == before[p].approved
        &&& again[p].synced == (before[p].synced || written.contains(before[p].index))
    } by {
        assert(after[p].index == before[p].index);
    }
}

/// Once the batch of a run is written back, the next run selects none of
/// its rows again: whatever it selects was valid before, and was left out
/// of the first batch.
pub proof fn lemma_written_rows_are_not_selected_again(before: Seq<Row>, after: Seq<Row>, p: int)
    requires
        reflects_write_back(before, after, indices_of(batch_of(checked_rows(before)))),
        selected_positions(checked_rows(after)).contains(p),
    ensures
        0 <= p < before.len(),
        before[p].checked().is_valid(),
        !selected_positions(checked_rows(before)).contains(p),
{
    let first = checked_rows(before);
    let second = checked_rows(after);
    let written = indices_of(batch_of(first));
    lemma_valid_positions(first);
    lemma_valid_positions(second);
    lemma_batch_is_capped(first);
    lemma_batch_is_capped(second);
    let j = choose|j: int|
        0 <= j < selected_positions(second).len() && selected_positions(second)[j] == p;
    assert(valid_positions(second)[j] == p);
    assert(second[p] == after[p].checked());
    assert(first[p] == before[p].checked());
    assert(!written.contains(before[p].index));
    if selected_positions(first).contains(p) {
        let i = choose|i: int|
            0 <= i < selected_positions(first).len() && selected_positions(first)[i] == p;
        assert(valid_positions(first)[i] == p);
        assert(written[i] == before[p].index);
    }
}

/// Where every valid row of a snapshot fits into one batch, the snapshot
/// that reflects its write-back yields no batch at all.
pub proof fn lemma_second_run_selects_nothing(before: Seq<Row>, after: Seq<Row>)
    requires
        valid_entries(checked_rows(before)).len() <= BATCH_CAP,
        reflects_write_back(before, after, indices_of(batch_of(checked_rows(before)))),
    ensures
        batch_of(checked_rows(after)).len() == 0,
{
    let first = checked_rows(before);
    let second = checked_rows(after);
    let written = indices_of(batch_of(first));
    lemma_valid_positions(first);
    lemma_batch_is_capped(first);
    assert forall|p: int| 0 <= p < second.len() implies !(#[trigger] second[p]).is_valid() by {
        if second[p].is_valid() {
            assert(second[p] == after[p].checked());
            assert(first[p] == before[p].checked());
            assert(first[p].is_valid());
            let j = choose|j: int|
                0 <= j < valid_positions(first).len() && valid_positions(first)[j] == p;
            assert(written[j] == before[p].index);
        }
    }
    lemma_empty_batch(second);
}

/// Running twice in succession submits once: where every valid row of the
/// first snapshot fitted into its batch and the store reflects the
/// write-back with nothing else changed, the second run makes no ledger call
/// and no write-back, whatever its driver reports.
pub proof fn lemma_second_run_submits_nothing(
    before: Seq<Row>,
    gas_price: Price,
    events: Seq<EventView>,
    k: int,
)
    requires
        valid_entries(checked_rows(before)).len() <= BATCH_CAP,
        0 <= k < events.len(),
        events[0] is RowsFetched,
        reflects_write_back(before, events[0]->rows, indices_of(batch_of(checked_rows(before)))),
    ensures
        action_at(gas_price, events, k) is Finish || (k == 0 && action_at(gas_price, events, k)
            is AskOperator),
{
    lemma_second_run_selects_nothing(before, events[0]->rows);
    assert(snapshot_of(events) == checked_rows(events[0]->rows));
    lemma_empty_batch_reaches_nothing(gas_price, events, k);
}

} // verus!
