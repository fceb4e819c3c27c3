//! Whole runs of the state machine, and what holds of every one of them.
//!
//! A run is the price it was started with and the events that its driver
//! reported, in their order. Nothing is assumed of the driver: the events may
//! be any events. What is stated here therefore holds whatever the record
//! store, the ledger and the operator do.

use crate::address::{address_of, Address, ValidationError};
use crate::engine::{step_spec, AbortReason, ActionView, EventView, StateView, StepView};
use crate::ledger::{Operation, Price, CONFIRMATIONS};
use crate::rows::{checked_rows, CheckedRow, Row};
use crate::selection::{
    addresses_of, batch_of, errors_present, indices_of, lemma_batch_is_capped, lemma_batch_sources,
    selected_positions, valid_entries, BATCH_CAP,
};
use vstd::prelude::*;

verus! {

/// The state of a run once the first `k` of its events are taken in.
pub open spec fn state_at(gas_price: Price, events: Seq<EventView>, k: int) -> StateView
    decreases k,
{
    if k <= 0 {
        StateView::Idle { gas_price }
    } else {
        step_spec(state_at(gas_price, events, k - 1), events[k - 1]).state
    }
}

/// The step that answers the event at place `k`.
pub open spec fn step_at(gas_price: Price, events: Seq<EventView>, k: int) -> StepView {
    step_spec(state_at(gas_price, events, k), events[k])
}

/// The outside work that a run asks for in answer to the event at place `k`.
pub open spec fn action_at(gas_price: Price, events: Seq<EventView>, k: int) -> ActionView {
    step_at(gas_price, events, k).action
}

/// The rows that a run works on: those of the snapshot that its first event
/// brought, after the address check; none where it brought no snapshot.
pub open spec fn snapshot_of(events: Seq<EventView>) -> Seq<CheckedRow> {
    if events.len() > 0 && events[0] is RowsFetched {
        checked_rows(events[0]->rows)
    } else {
        Seq::empty()
    }
}

/// How far a state is along the run.
pub open spec fn progress(state: StateView) -> int {
    match state {
        StateView::Idle { .. } => 0,
        StateView::Filtered { .. } => 1,
        StateView::GateDecision { .. } => 2,
        StateView::Estimated { .. } => 3,
        StateView::Confirmed { .. } => 4,
        _ => 5,
    }
}

/// What a state that follows the snapshot holds of it: the batch it carries
/// is the batch of the snapshot, and it is empty in no state that still
/// heads for the ledger.
pub open spec fn settled(state: StateView, gas_price: Price, rows: Seq<CheckedRow>) -> bool {
    match state {
        StateView::Idle { .. } => false,
        StateView::Filtered { gas_price: price, batch } => price == gas_price && batch == batch_of(
            rows,
        ) && errors_present(rows),
        StateView::GateDecision { gas_price: price, batch } => price == gas_price && batch
            == batch_of(rows) && batch.len() > 0,
        StateView::Estimated { batch, .. } => batch == batch_of(rows) && batch.len() > 0,
        StateView::Confirmed { batch } => batch == batch_of(rows) && batch.len() > 0,
        StateView::WrittenBack { .. } => batch_of(rows).len() > 0,
        StateView::NoOp => batch_of(rows).len() == 0,
        StateView::Aborted { .. } => true,
    }
}

/// After its first event a run is settled on its snapshot, and stays so.
pub proof fn lemma_run_is_settled(gas_price: Price, events: Seq<EventView>, k: int)
    requires
        1 <= k <= events.len(),
    ensures
        settled(state_at(gas_price, events, k), gas_price, snapshot_of(events)),
    decreases k,
{
    reveal_with_fuel(state_at, 2);
    if k > 1 {
        lemma_run_is_settled(gas_price, events, k - 1);
    }
}

/// A run never moves backwards, and a state that is not final is left by
/// every event.
pub proof fn lemma_run_progresses(gas_price: Price, events: Seq<EventView>, i: int, k: int)
    requires
        0 <= i <= k <= events.len(),
    ensures
        progress(state_at(gas_price, events, i)) <= progress(state_at(gas_price, events, k)),
        i < k ==> progress(state_at(gas_price, events, k)) == 5 || progress(
            state_at(gas_price, events, i),
        ) < progress(state_at(gas_price, events, k)),
    decreases k - i,
{
    if i < k {
        lemma_run_progresses(gas_price, events, i, k - 1);
    }
}

/// Whatever a run hands to the ledger is the batch of its snapshot: the
/// estimate and the submission both carry exactly the addresses of the
/// batch, which are at least one and at most [`BATCH_CAP`]; the submission
/// is the one operation that grants access, limited to the gas that the
/// estimate gave, at the price of the run, waiting for one confirmation.
pub proof fn lemma_ledger_calls_carry_the_batch(gas_price: Price, events: Seq<EventView>, k: int)
    requires
        0 <= k < events.len(),
        action_at(gas_price, events, k).is_ledger_call(),
    ensures
        events[0] is RowsFetched,
        0 < batch_of(snapshot_of(events)).len() <= BATCH_CAP,
        match action_at(gas_price, events, k) {
            ActionView::EstimateCost { addresses } => addresses == addresses_of(
                batch_of(snapshot_of(events)),
            ),
            ActionView::SubmitBatch { call } => {
                &&& events[k] is CostEstimated
                &&& call.operation == Operation::AddBatchToWhitelist
                &&& call.addresses == addresses_of(batch_of(snapshot_of(events)))
                &&& call.gas == Some(events[k]->gas)
                &&& call.gas_price == gas_price
                &&& call.confirmations == CONFIRMATIONS
            },
            _ => false,
        },
{
    reveal_with_fuel(state_at, 2);
    lemma_batch_is_capped(snapshot_of(events));
    if k >= 1 {
        lemma_run_is_settled(gas_price, events, k);
    }
}

/// Where more valid rows exist than the cap allows, a run submits exactly
/// the first [`BATCH_CAP`] of them, in the order of the snapshot; where they
/// fit, it submits them all.
pub proof fn lemma_submission_is_the_capped_prefix(
    gas_price: Price,
    events: Seq<EventView>,
    k: int,
)
    requires
        0 <= k < events.len(),
        action_at(gas_price, events, k) is SubmitBatch,
    ensures
        ({
            let valid = valid_entries(snapshot_of(events));
            let submitted = action_at(gas_price, events, k)->call.addresses;
            &&& submitted.len() <= BATCH_CAP
            &&& valid.len() > BATCH_CAP ==> submitted == addresses_of(valid.take(BATCH_CAP as int))
            &&& valid.len() <= BATCH_CAP ==> submitted == addresses_of(valid)
        }),
{
    lemma_ledger_calls_carry_the_batch(gas_price, events, k);
    lemma_batch_is_capped(snapshot_of(events));
}

/// A run never submits the address of a row that is synchronised already:
/// each address of a submission is the validated address of a row of the
/// snapshot that is approved and not yet synchronised, the rows being taken
/// in ascending order of position.
pub proof fn lemma_synced_rows_are_never_submitted(
    gas_price: Price,
    events: Seq<EventView>,
    k: int,
    j: int,
)
    requires
        0 <= k < events.len(),
        action_at(gas_price, events, k) is SubmitBatch,
        0 <= j < action_at(gas_price, events, k)->call.addresses.len(),
    ensures
        events[0] is RowsFetched,
        ({
            let rows = events[0]->rows;
            let p = selected_positions(checked_rows(rows))[j];
            &&& 0 <= p < rows.len()
            &&& rows[p].approved
            &&& !rows[p].synced
            &&& rows[p].text() matches Some(text) && address_of(text) == Ok::<
                Address,
                ValidationError,
            >(action_at(gas_price, events, k)->call.addresses[j])
        }),
{
    lemma_ledger_calls_carry_the_batch(gas_price, events, k);
    lemma_batch_rows_are_pending(events[0]->rows, j);
}

/// No row that is synchronised already is ever selected: each entry of the
/// batch comes from a row of the snapshot that is approved, not yet
/// synchronised, and has an address that validates to the entry's address.
/// The rows are taken in ascending order of position.
pub proof fn lemma_batch_rows_are_pending(rows: Seq<Row>, j: int)
    requires
        0 <= j < batch_of(checked_rows(rows)).len(),
    ensures
        ({
            let p = selected_positions(checked_rows(rows))[j];
            let entry = batch_of(checked_rows(rows))[j];
            &&& 0 <= p < rows.len()
            &&& rows[p].approved
            &&& !rows[p].synced
            &&& rows[p].text() matches Some(text) && address_of(text) == Ok::<
                Address,
                ValidationError,
            >(entry.address)
            &&& entry.row == rows[p].index
            &&& forall|i: int|
                0 <= i < j ==> #[trigger] selected_positions(checked_rows(rows))[i] < p
        }),
{
    lemma_batch_sources(checked_rows(rows));
    let p = selected_positions(checked_rows(rows))[j];
    assert(checked_rows(rows)[p] == rows[p].checked());
}

/// A row that is synchronised already is at none of the selected positions.
pub proof fn lemma_synced_rows_are_left_out(rows: Seq<Row>, p: int)
    requires
        0 <= p < rows.len(),
        rows[p].synced,
    ensures
        !selected_positions(checked_rows(rows)).contains(p),
{
    if selected_positions(checked_rows(rows)).contains(p) {
        let j = choose|j: int|
            0 <= j < selected_positions(checked_rows(rows)).len() && selected_positions(
                checked_rows(rows),
            )[j] == p;
        lemma_batch_sources(checked_rows(rows));
        lemma_batch_rows_are_pending(rows, j);
    }
}

/// A run whose snapshot yields no batch asks for nothing but, at most, the
/// operator's word: it makes no ledger call and no write-back.
pub proof fn lemma_empty_batch_reaches_nothing(gas_price: Price, events: Seq<EventView>, k: int)
    requires
        0 <= k < events.len(),
        batch_of(snapshot_of(events)).len() == 0,
    ensures
        action_at(gas_price, events, k) is Finish || (k == 0 && action_at(gas_price, events, k)
            is AskOperator),
{
    reveal_with_fuel(state_at, 2);
    if k >= 1 {
        lemma_run_is_settled(gas_price, events, k);
    }
}

/// A run whose snapshot yields no batch ends as [`StateView::NoOp`]: at once
/// where no address was refused, and on the operator's consent where one
/// was.
pub proof fn lemma_empty_batch_ends_as_noop(gas_price: Price, events: Seq<EventView>)
    requires
        events.len() >= 1,
        events[0] is RowsFetched,
        batch_of(snapshot_of(events)).len() == 0,
    ensures
        !errors_present(snapshot_of(events)) ==> state_at(gas_price, events, 1) == StateView::NoOp,
        errors_present(snapshot_of(events)) && events.len() >= 2 && events[1]
            == (EventView::OperatorAnswered { proceed: true }) ==> state_at(gas_price, events, 2)
            == StateView::NoOp,
{
    reveal_with_fuel(state_at, 3);
}

/// A run with refused addresses gets past the operator only by consent.
proof fn lemma_consent_was_given(gas_price: Price, events: Seq<EventView>, k: int)
    requires
        2 <= k <= events.len(),
        events[0] is RowsFetched,
        errors_present(snapshot_of(events)),
    ensures
        events[1] == (EventView::OperatorAnswered { proceed: true }) || state_at(
            gas_price,
            events,
            k,
        ) is Aborted,
        events[1] == (EventView::OperatorAnswered { proceed: false }) ==> state_at(
            gas_price,
            events,
            k,
        ) == (StateView::Aborted { reason: AbortReason::OperatorDeclined }),
    decreases k,
{
    reveal_with_fuel(state_at, 3);
    if k > 2 {
        lemma_consent_was_given(gas_price, events, k - 1);
    }
}

/// A run with refused addresses in its snapshot asks the operator first, and
/// reaches the ledger or the store only on the operator's consent; where the
/// operator declines, the run ends there and nothing else is ever asked
/// for.
pub proof fn lemma_refused_addresses_need_consent(
    gas_price: Price,
    events: Seq<EventView>,
    k: int,
)
    requires
        0 <= k < events.len(),
        events[0] is RowsFetched,
        errors_present(snapshot_of(events)),
    ensures
        action_at(gas_price, events, 0) is AskOperator,
        state_at(gas_price, events, 1) is Filtered,
        !(action_at(gas_price, events, k) is Finish) && k >= 1 ==> events[1]
            == (EventView::OperatorAnswered { proceed: true }),
        k >= 1 && events[1] == (EventView::OperatorAnswered { proceed: false }) ==> {
            &&& action_at(gas_price, events, k) is Finish
            &&& state_at(gas_price, events, k + 1) == (StateView::Aborted {
                reason: AbortReason::OperatorDeclined,
            })
        },
{
    reveal_with_fuel(state_at, 3);
    if k >= 2 {
        lemma_consent_was_given(gas_price, events, k);
    }
    if k >= 1 {
        lemma_run_is_settled(gas_price, events, k);
    }
}

/// The write-back follows the confirmation and names the rows of the batch,
/// no more and no fewer: it answers the event that confirms the submission,
/// carries the reference that this event brought, and lists the row indices
/// of the very batch whose addresses the step before it submitted.
pub proof fn lemma_write_back_follows_confirmation(
    gas_price: Price,
    events: Seq<EventView>,
    k: int,
)
    requires
        0 <= k < events.len(),
        action_at(gas_price, events, k) is MarkSynced,
    ensures
        k >= 2,
        events[k] is BatchConfirmed,
        action_at(gas_price, events, k)->tx_hash == events[k]->tx_ref,
        action_at(gas_price, events, k)->rows == indices_of(batch_of(snapshot_of(events))),
        action_at(gas_price, events, k - 1) is SubmitBatch,
        action_at(gas_price, events, k - 1)->call.addresses == addresses_of(
            batch_of(snapshot_of(events)),
        ),
        action_at(gas_price, events, k)->rows.len() == action_at(
            gas_price,
            events,
            k - 1,
        )->call.addresses.len(),
{
    reveal_with_fuel(state_at, 3);
    if k >= 1 {
        lemma_run_is_settled(gas_price, events, k);
    }
    if k >= 2 {
        lemma_run_is_settled(gas_price, events, k - 1);
    }
}

/// A run submits at most once and writes back at most once.
pub proof fn lemma_at_most_one_of_each(gas_price: Price, events: Seq<EventView>, i: int, k: int)
    requires
        0 <= i < k < events.len(),
    ensures
        !(action_at(gas_price, events, i) is SubmitBatch && action_at(gas_price, events, k)
            is SubmitBatch),
        !(action_at(gas_price, events, i) is MarkSynced && action_at(gas_price, events, k)
            is MarkSynced),
        !(action_at(gas_price, events, i) is MarkSynced && action_at(
            gas_price,
            events,
            k,
        ).is_ledger_call()),
{
    reveal_with_fuel(state_at, 2);
    lemma_run_progresses(gas_price, events, i + 1, k);
}

} // verus!
