//! The reconciliation run as a state machine.
//!
//! A run alternates between outside work (fetching the snapshot, asking the
//! operator, estimating, submitting, writing back) and decisions. The
//! decisions are made here: [`update_whitelist`] takes the state of the run
//! and the outcome of the last piece of outside work, and returns the next
//! state with the next piece of outside work. The driver performs that work
//! and comes back with its outcome, until it is told to [`Action::Finish`].
//!
//! A run rests in a state only while outside work is under way. On the way
//! from [`State::Idle`] to [`State::Filtered`] the snapshot is checked and the
//! batch chosen within one step, and a submission is known to the run only
//! once it is confirmed, so that [`State::Estimated`] is followed by
//! [`State::Confirmed`].

use crate::address::Address;
use crate::ledger::{
    add_batch_call, add_batch_to_whitelist, GasEstimate, LedgerCall, LedgerCallView, Price,
};
use crate::rows::{check_rows, checked_rows, CheckedRow, Row};
use crate::selection::{
    addresses_of, batch_of, errors_present, indices_of, issues_of, lemma_batch_is_capped, select,
    BatchEntry, RowIssue, BATCH_CAP,
};
use vstd::prelude::*;

verus! {

/// A failure of the record store.
#[derive(Clone, Copy, Debug, PartialEq, Eq, Structural)]
pub enum StoreError {
    /// The store could not be reached.
    RemoteUnavailable,
    /// The store answered with something that could not be decoded.
    RemoteProtocolError,
}

/// Why a run ended without reaching the ledger, or without a record of having
/// done so.
#[derive(Clone, Copy, Debug, PartialEq, Eq, Structural)]
pub enum AbortReason {
    /// The snapshot could not be had.
    FetchFailed { error: StoreError },
    /// The operator declined to go on with refused addresses present: a
    /// deliberate end, not an error.
    OperatorDeclined,
    /// The cost of the batch could not be estimated.
    EstimationFailed,
    /// The batch was rejected, reverted, or never confirmed.
    SubmissionFailed,
    /// The batch is confirmed on the ledger, but the store could not be told:
    /// the two now disagree, and the operator has to step in.
    WriteBackFailed { error: StoreError },
    /// The driver reported an outcome that the state was not waiting for.
    UnexpectedEvent,
}

/// Where a run stands.
#[derive(Clone, Debug, PartialEq, Eq)]
pub enum State {
    /// Nothing is known yet; the snapshot is being fetched.
    Idle { gas_price: Price },
    /// The batch is chosen, refused addresses are present, and the operator
    /// is being asked.
    Filtered { gas_price: Price, batch: Vec<BatchEntry> },
    /// Nothing stands between the batch and the ledger any more; its cost
    /// is being estimated.
    GateDecision { gas_price: Price, batch: Vec<BatchEntry> },
    /// The cost is known; the batch is being submitted and confirmed.
    Estimated { batch: Vec<BatchEntry>, gas: GasEstimate },
    /// The ledger has confirmed the batch; the store is being told.
    Confirmed { batch: Vec<BatchEntry> },
    /// The store has answered the write-back with this status. The run is
    /// over.
    WrittenBack { status: u16 },
    /// There was nothing to submit. The run is over.
    NoOp,
    /// The run was given up. It is over.
    Aborted { reason: AbortReason },
}

/// The outcome of a piece of outside work.
#[derive(Clone, Debug, PartialEq, Eq)]
pub enum Event {
    /// The store handed out its rows.
    RowsFetched { rows: Vec<Row> },
    /// The rows could not be had.
    FetchFailed { error: StoreError },
    /// The operator said whether to go on.
    OperatorAnswered { proceed: bool },
    /// The ledger estimated the gas of the batch.
    CostEstimated { gas: GasEstimate },
    /// The estimate failed: the call would revert, or the node was out of
    /// reach.
    EstimationFailed,
    /// The submission reached the confirmations it waited for; `tx_ref` is
    /// the reference of its transaction.
    BatchConfirmed { tx_ref: String },
    /// The submission was rejected, reverted, or not confirmed in time.
    SubmissionFailed,
    /// The store answered the write-back with this status.
    WriteBackAnswered { status: u16 },
    /// The write-back did not reach the store, or its answer was not
    /// understood.
    WriteBackFailed { error: StoreError },
}

/// The outside work that a run asks for.
#[derive(Clone, Debug, PartialEq, Eq)]
pub enum Action {
    /// Read the full snapshot of the record store.
    FetchRows,
    /// Ask the operator whether to go on although addresses were refused.
    AskOperator,
    /// Estimate the gas of granting access to these addresses.
    EstimateCost { addresses: Vec<Address> },
    /// Sign and send this call, and wait for its confirmations.
    SubmitBatch { call: LedgerCall },
    /// Mark these rows as synchronised in the store, with the reference of
    /// the transaction that did it.
    MarkSynced { rows: Vec<u32>, tx_hash: String },
    /// Nothing is left to do.
    Finish,
}

/// What a step of the run yields.
#[derive(Clone, Debug, PartialEq, Eq)]
pub struct Step {
    pub state: State,
    pub action: Action,
    /// The rows to report to the operator. Only the step that takes in the
    /// snapshot has any.
    pub notices: Vec<RowIssue>,
}

/// The mathematical content of a [`State`].
pub enum StateView {
    Idle { gas_price: Price },
    Filtered { gas_price: Price, batch: Seq<BatchEntry> },
    GateDecision { gas_price: Price, batch: Seq<BatchEntry> },
    Estimated { batch: Seq<BatchEntry>, gas: GasEstimate },
    Confirmed { batch: Seq<BatchEntry> },
    WrittenBack { status: u16 },
    NoOp,
    Aborted { reason: AbortReason },
}

/// The mathematical content of an [`Event`].
pub enum EventView {
    RowsFetched { rows: Seq<Row> },
    FetchFailed { error: StoreError },
    OperatorAnswered { proceed: bool },
    CostEstimated { gas: GasEstimate },
    EstimationFailed,
    BatchConfirmed { tx_ref: Seq<char> },
    SubmissionFailed,
    WriteBackAnswered { status: u16 },
    WriteBackFailed { error: StoreError },
}

/// The mathematical content of an [`Action`].
pub enum ActionView {
    FetchRows,
    AskOperator,
    EstimateCost { addresses: Seq<Address> },
    SubmitBatch { call: LedgerCallView },
    MarkSynced { rows: Seq<u32>, tx_hash: Seq<char> },
    Finish,
}

/// The mathematical content of a [`Step`].
pub struct StepView {
    pub state: StateView,
    pub action: ActionView,
    pub notices: Seq<RowIssue>,
}

impl View for State {
    type V = StateView;

    open spec fn view(&self) -> StateView {
        match *self {
            State::Idle { gas_price } => StateView::Idle { gas_price },
            State::Filtered { gas_price, batch } => StateView::Filtered { gas_price, batch: batch@ },
            State::GateDecision { gas_price, batch } => StateView::GateDecision {
                gas_price,
                batch: batch@,
            },
            State::Estimated { batch, gas } => StateView::Estimated { batch: batch@, gas },
            State::Confirmed { batch } => StateView::Confirmed { batch: batch@ },
            State::WrittenBack { status } => StateView::WrittenBack { status },
            State::NoOp => StateView::NoOp,
            State::Aborted { reason } => StateView::Aborted { reason },
        }
    }
}

impl View for Event {
    type V = EventView;

    open spec fn view(&self) -> EventView {
        match *self {
            Event::RowsFetched { rows } => EventView::RowsFetched { rows: rows@ },
            Event::FetchFailed { error } => EventView::FetchFailed { error },
            Event::OperatorAnswered { proceed } => EventView::OperatorAnswered { proceed },
            Event::CostEstimated { gas } => EventView::CostEstimated { gas },
            Event::EstimationFailed => EventView::EstimationFailed,
            Event::BatchConfirmed { tx_ref } => EventView::BatchConfirmed { tx_ref: tx_ref@ },
            Event::SubmissionFailed => EventView::SubmissionFailed,
            Event::WriteBackAnswered { status } => EventView::WriteBackAnswered { status },
            Event::WriteBackFailed { error } => EventView::WriteBackFailed { error },
        }
    }
}

impl View for Action {
    type V = ActionView;

    open spec fn view(&self) -> ActionView {
        match *self {
            Action::FetchRows => ActionView::FetchRows,
            Action::AskOperator => ActionView::AskOperator,
            Action::EstimateCost { addresses } => ActionView::EstimateCost { addresses: addresses@ },
            Action::SubmitBatch { call } => ActionView::SubmitBatch { call: call@ },
            Action::MarkSynced { rows, tx_hash } => ActionView::MarkSynced {
                rows: rows@,
                tx_hash: tx_hash@,
            },
            Action::Finish => ActionView::Finish,
        }
    }
}

impl View for Step {
    type V = StepView;

    open spec fn view(&self) -> StepView {
        StepView { state: self.state@, action: self.action@, notices: self.notices@ }
    }
}

impl StateView {
    /// The run is over: no event moves it any more.
    pub open spec fn is_terminal(self) -> bool {
        self is WrittenBack || self is NoOp || self is Aborted
    }

    /// The batch that the state carries is one that a run can have chosen:
    /// it keeps to the cap, and a state that heads for the ledger has at
    /// least one entry.
    pub open spec fn well_formed(self) -> bool {
        match self {
            StateView::Filtered { batch, .. } => batch.len() <= BATCH_CAP,
            StateView::GateDecision { batch, .. } => 0 < batch.len() <= BATCH_CAP,
            StateView::Estimated { batch, .. } => 0 < batch.len() <= BATCH_CAP,
            StateView::Confirmed { batch } => 0 < batch.len() <= BATCH_CAP,
            _ => true,
        }
    }
}

impl ActionView {
    /// The action reaches the ledger.
    pub open spec fn is_ledger_call(self) -> bool {
        self is EstimateCost || self is SubmitBatch
    }

    /// What the action carries keeps to the cap and is not empty.
    pub open spec fn is_capped(self) -> bool {
        match self {
            ActionView::EstimateCost { addresses } => 0 < addresses.len() <= BATCH_CAP,
            ActionView::SubmitBatch { call } => 0 < call.addresses.len() <= BATCH_CAP,
            ActionView::MarkSynced { rows, .. } => 0 < rows.len() <= BATCH_CAP,
            _ => true,
        }
    }
}

/// The store took the write-back: its status is one of success.
pub open spec fn acknowledged(status: u16) -> bool {
    200 <= status < 300
}

/// The first step of every run: fetch the snapshot.
pub open spec fn start_spec(gas_price: Price) -> StepView {
    StepView {
        state: StateView::Idle { gas_price },
        action: ActionView::FetchRows,
        notices: Seq::empty(),
    }
}

/// The step that ends a run for `reason`.
pub open spec fn aborted(reason: AbortReason) -> StepView {
    StepView {
        state: StateView::Aborted { reason },
        action: ActionView::Finish,
        notices: Seq::empty(),
    }
}

/// The step once the way to the ledger is free: with nothing to submit the
/// run is over, else the cost of the whole batch is estimated.
pub open spec fn cleared(
    gas_price: Price,
    batch: Seq<BatchEntry>,
    notices: Seq<RowIssue>,
) -> StepView {
    if batch.len() == 0 {
        StepView { state: StateView::NoOp, action: ActionView::Finish, notices }
    } else {
        StepView {
            state: StateView::GateDecision { gas_price, batch },
            action: ActionView::EstimateCost { addresses: addresses_of(batch) },
            notices,
        }
    }
}

/// The step that takes in a checked snapshot: the batch is chosen and the
/// dropped rows are reported; refused addresses put the run before the
/// operator, else the run goes on at once.
pub open spec fn snapshot_step(gas_price: Price, rows: Seq<CheckedRow>) -> StepView {
    if errors_present(rows) {
        StepView {
            state: StateView::Filtered { gas_price, batch: batch_of(rows) },
            action: ActionView::AskOperator,
            notices: issues_of(rows),
        }
    } else {
        cleared(gas_price, batch_of(rows), issues_of(rows))
    }
}

/// The transition function of the run.
///
/// Each state waits for the outcomes of its own outside work; any other
/// event ends the run as [`AbortReason::UnexpectedEvent`] without a further
/// action. A run that is over stays as it is.
pub open spec fn step_spec(state: StateView, event: EventView) -> StepView {
    match state {
        StateView::Idle { gas_price } => match event {
            EventView::RowsFetched { rows } => snapshot_step(gas_price, checked_rows(rows)),
            EventView::FetchFailed { error } => aborted(AbortReason::FetchFailed { error }),
            _ => aborted(AbortReason::UnexpectedEvent),
        },
        StateView::Filtered { gas_price, batch } => match event {
            EventView::OperatorAnswered { proceed } => if proceed {
                cleared(gas_price, batch, Seq::empty())
            } else {
                aborted(AbortReason::OperatorDeclined)
            },
            _ => aborted(AbortReason::UnexpectedEvent),
        },
        StateView::GateDecision { gas_price, batch } => match event {
            EventView::CostEstimated { gas } => StepView {
                state: StateView::Estimated { batch, gas },
                action: ActionView::SubmitBatch {
                    call: add_batch_call(addresses_of(batch), gas, gas_price),
                },
                notices: Seq::empty(),
            },
            EventView::EstimationFailed => aborted(AbortReason::EstimationFailed),
            _ => aborted(AbortReason::UnexpectedEvent),
        },
        StateView::Estimated { batch, gas } => match event {
            EventView::BatchConfirmed { tx_ref } => StepView {
                state: StateView::Confirmed { batch },
                action: ActionView::MarkSynced { rows: indices_of(batch), tx_hash: tx_ref },
                notices: Seq::empty(),
            },
            EventView::SubmissionFailed => aborted(AbortReason::SubmissionFailed),
            _ => aborted(AbortReason::UnexpectedEvent),
        },
        StateView::Confirmed { batch } => match event {
            EventView::WriteBackAnswered { status } => StepView {
                state: StateView::WrittenBack { status },
                action: ActionView::Finish,
                notices: Seq::empty(),
            },
            EventView::WriteBackFailed { error } => aborted(AbortReason::WriteBackFailed { error }),
            _ => aborted(AbortReason::UnexpectedEvent),
        },
        _ => StepView { state, action: ActionView::Finish, notices: Seq::empty() },
    }
}

/// A step from a well-formed state leads to a well-formed state, and what it
/// asks for keeps to the cap: never more than [`BATCH_CAP`] addresses or rows,
/// and never an empty call.
pub proof fn lemma_step_keeps_well_formed(state: StateView, event: EventView)
    requires
        state.well_formed(),
    ensures
        step_spec(state, event).state.well_formed(),
        step_spec(state, event).action.is_capped(),
{
    if state is Idle && event is RowsFetched {
        lemma_batch_is_capped(checked_rows(event->rows));
    }
}

impl State {
    /// Whether the run is over.
    pub fn is_terminal(&self) -> (r: bool)
        ensures
            r == self@.is_terminal(),
    {
        match self {
            State::WrittenBack { .. } => true,
            State::NoOp => true,
            State::Aborted { .. } => true,
            _ => false,
        }
    }
}

/// Whether a write-back status is one of success.
pub fn is_acknowledged(status: u16) -> (r: bool)
    ensures
        r == acknowledged(status),
{
    200 <= status && status < 300
}

/// The addresses of a batch, in its order.
pub fn batch_addresses(batch: &Vec<BatchEntry>) -> (addresses: Vec<Address>)
    ensures
        addresses@ == addresses_of(batch@),
{
    let mut addresses: Vec<Address> = Vec::new();
    let mut j: usize = 0;
    while j < batch.len()
        invariant
            0 <= j <= batch.len(),
            addresses@ == addresses_of(batch@.take(j as int)),
        decreases batch.len() - j,
    {
        addresses.push(batch[j].address);
        assert(addresses@ =~= addresses_of(batch@.take(j + 1)));
        j += 1;
    }
    assert(batch@.take(batch.len() as int) =~= batch@);
    addresses
}

/// The row indices of a batch, in its order.
pub fn batch_indices(batch: &Vec<BatchEntry>) -> (rows: Vec<u32>)
    ensures
        rows@ == indices_of(batch@),
{
    let mut rows: Vec<u32> = Vec::new();
    let mut j: usize = 0;
    while j < batch.len()
        invariant
            0 <= j <= batch.len(),
            rows@ == indices_of(batch@.take(j as int)),
        decreases batch.len() - j,
    {
        rows.push(batch[j].row);
        assert(rows@ =~= indices_of(batch@.take(j + 1)));
        j += 1;
    }
    assert(batch@.take(batch.len() as int) =~= batch@);
    rows
}

fn abort(reason: AbortReason) -> (r: Step)
    ensures
        r@ == aborted(reason),
{
    Step { state: State::Aborted { reason }, action: Action::Finish, notices: Vec::new() }
}

fn clear(gas_price: Price, batch: Vec<BatchEntry>, notices: Vec<RowIssue>) -> (r: Step)
    ensures
        r@ == cleared(gas_price, batch@, notices@),
{
    if batch.len() == 0 {
        Step { state: State::NoOp, action: Action::Finish, notices }
    } else {
        let addresses = batch_addresses(&batch);
        Step {
            state: State::GateDecision { gas_price, batch },
            action: Action::EstimateCost { addresses },
            notices,
        }
    }
}

/// Opens a run: the state to start from, and the request for the snapshot.
pub fn start(gas_price: Price) -> (r: Step)
    ensures
        r@ == start_spec(gas_price),
        r@.state.well_formed(),
{
    Step { state: State::Idle { gas_price }, action: Action::FetchRows, notices: Vec::new() }
}

/// Takes a checked snapshot into a run that has just started.
pub fn absorb_snapshot(gas_price: Price, rows: &Vec<CheckedRow>) -> (r: Step)
    ensures
        r@ == snapshot_step(gas_price, rows@),
        r@.state.well_formed(),
        r@.action.is_capped(),
{
    proof {
        lemma_batch_is_capped(rows@);
    }
    let selection = select(rows);
    if selection.errors_present {
        Step {
            state: State::Filtered { gas_price, batch: selection.batch },
            action: Action::AskOperator,
            notices: selection.issues,
        }
    } else {
        clear(gas_price, selection.batch, selection.issues)
    }
}

/// Advances the update of the whitelist by one step: takes in the outcome of
/// the outside work that the run asked for last, and says where the run
/// stands now and what it asks for next.
pub fn update_whitelist(state: State, event: Event) -> (r: Step)
    ensures
        r@ == step_spec(state@, event@),
        state@.well_formed() ==> r@.state.well_formed() && r@.action.is_capped(),
{
    proof {
        if state@.well_formed() {
            lemma_step_keeps_well_formed(state@, event@);
        }
    }
    match state {
        State::Idle { gas_price } => match event {
            Event::RowsFetched { rows } => {
                let checked = check_rows(&rows);
                absorb_snapshot(gas_price, &checked)
            },
            Event::FetchFailed { error } => abort(AbortReason::FetchFailed { error }),
            _ => abort(AbortReason::UnexpectedEvent),
        },
        State::Filtered { gas_price, batch } => match event {
            Event::OperatorAnswered { proceed } => {
                if proceed {
                    clear(gas_price, batch, Vec::new())
                } else {
                    abort(AbortReason::OperatorDeclined)
                }
            },
            _ => abort(AbortReason::UnexpectedEvent),
        },
        State::GateDecision { gas_price, batch } => match event {
            Event::CostEstimated { gas } => {
                let call = add_batch_to_whitelist(batch_addresses(&batch), gas, gas_price);
                Step {
                    state: State::Estimated { batch, gas },
                    action: Action::SubmitBatch { call },
                    notices: Vec::new(),
                }
            },
            Event::EstimationFailed => abort(AbortReason::EstimationFailed),
            _ => abort(AbortReason::UnexpectedEvent),
        },
        State::Estimated { batch, gas } => match event {
            Event::BatchConfirmed { tx_ref } => {
                let rows = batch_indices(&batch);
                Step {
                    state: State::Confirmed { batch },
                    action: Action::MarkSynced { rows, tx_hash: tx_ref },
                    notices: Vec::new(),
                }
            },
            Event::SubmissionFailed => abort(AbortReason::SubmissionFailed),
            _ => abort(AbortReason::UnexpectedEvent),
        },
        State::Confirmed { batch } => match event {
            Event::WriteBackAnswered { status } => Step {
                state: State::WrittenBack { status },
                action: Action::Finish,
                notices: Vec::new(),
            },
            Event::WriteBackFailed { error } => abort(AbortReason::WriteBackFailed { error }),
            _ => abort(AbortReason::UnexpectedEvent),
        },
        State::WrittenBack { status } => Step {
            state: State::WrittenBack { status },
            action: Action::Finish,
            notices: Vec::new(),
        },
        State::NoOp => Step { state: State::NoOp, action: Action::Finish, notices: Vec::new() },
        State::Aborted { reason } => Step {
            state: State::Aborted { reason },
            action: Action::Finish,
            notices: Vec::new(),
        },
    }
}

} // verus!
