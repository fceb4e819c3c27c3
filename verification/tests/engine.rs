use whitelist_client::address::{validate_address, Address, ValidationError};
use whitelist_client::engine::{
    absorb_snapshot, batch_addresses, batch_indices, is_acknowledged, start, update_whitelist, AbortReason,
    Action, Event, State, Step, StoreError,
};
use whitelist_client::ledger::{Operation, U256};
use whitelist_client::rows::{CheckedRow, Row, Validity};
use whitelist_client::selection::{BatchEntry, IssueKind, RowIssue};
use whitelist_client::store::mark_synced;

const PRICE: U256 = U256 { limbs: [110, 0, 0, 0] };
const GAS: U256 = U256 { limbs: [90_000, 0, 0, 0] };

fn text(tag: u8) -> String {
    format!("0x{:040x}", tag)
}

fn address(tag: u8) -> Address {
    let mut bytes = [0u8; 20];
    bytes[19] = tag;
    Address { bytes }
}

fn row(index: u32, address: Option<String>, approved: bool, synced: bool) -> Row {
    Row { index, address, approved, synced }
}

fn pending(index: u32, tag: u8) -> Row {
    row(index, Some(text(tag)), true, false)
}

fn fetched(rows: &Vec<Row>) -> Step {
    let first = start(PRICE);
    update_whitelist(first.state, Event::RowsFetched { rows: rows.clone() })
}

fn finished(state: State) -> Step {
    Step { state, action: Action::Finish, notices: Vec::new() }
}

fn mixed_rows() -> Vec<Row> {
    vec![
        pending(0, 0xaa),
        row(1, None, true, false),
        row(2, Some("bad".to_string()), true, false),
        row(3, Some(text(0xbb)), false, false),
    ]
}

#[test]
fn a_run_starts_idle_and_asks_for_the_snapshot() {
    let first = start(PRICE);
    assert_eq!(first.state, State::Idle { gas_price: PRICE });
    assert_eq!(first.action, Action::FetchRows);
    assert!(first.notices.is_empty());
    assert!(!first.state.is_terminal());
}

#[test]
fn a_refused_address_and_consent_lead_to_one_submission() {
    let batch = vec![BatchEntry { row: 0, address: address(0xaa) }];

    let filtered = fetched(&mixed_rows());
    assert_eq!(filtered.state, State::Filtered { gas_price: PRICE, batch: batch.clone() });
    assert_eq!(filtered.action, Action::AskOperator);
    assert_eq!(
        filtered.notices,
        vec![
            RowIssue { row: 1, kind: IssueKind::MissingAddress },
            RowIssue {
                row: 2,
                kind: IssueKind::InvalidAddress { error: ValidationError::Malformed }
            },
        ]
    );

    let cleared = update_whitelist(filtered.state, Event::OperatorAnswered { proceed: true });
    assert_eq!(cleared.state, State::GateDecision { gas_price: PRICE, batch: batch.clone() });
    assert_eq!(cleared.action, Action::EstimateCost { addresses: vec![address(0xaa)] });
    assert!(cleared.notices.is_empty());

    let estimated = update_whitelist(cleared.state, Event::CostEstimated { gas: GAS });
    assert_eq!(estimated.state, State::Estimated { batch: batch.clone(), gas: GAS });
    match &estimated.action {
        Action::SubmitBatch { call } => {
            assert_eq!(call.operation, Operation::AddBatchToWhitelist);
            assert_eq!(call.addresses, vec![address(0xaa)]);
            assert_eq!(call.gas, Some(GAS));
            assert_eq!(call.gas_price, PRICE);
            assert_eq!(call.confirmations, 1);
        }
        other => panic!("expected a submission, got {:?}", other),
    }

    let confirmed = update_whitelist(estimated.state, Event::BatchConfirmed { tx_ref: "0xT1".to_string() });
    assert_eq!(confirmed.state, State::Confirmed { batch });
    assert_eq!(
        confirmed.action,
        Action::MarkSynced { rows: vec![0], tx_hash: "0xT1".to_string() }
    );

    let written = update_whitelist(confirmed.state, Event::WriteBackAnswered { status: 200 });
    assert_eq!(written, finished(State::WrittenBack { status: 200 }));
    assert!(written.state.is_terminal());
}

#[test]
fn every_row_synced_is_a_noop() {
    let rows = vec![
        row(0, Some(text(1)), true, true),
        row(1, Some("bad".to_string()), true, true),
        row(2, None, true, true),
        row(3, Some(text(2)), false, true),
    ];
    let only = fetched(&rows);
    assert_eq!(only, finished(State::NoOp));
    assert!(only.state.is_terminal());
}

#[test]
fn an_empty_snapshot_is_a_noop() {
    assert_eq!(fetched(&Vec::new()), finished(State::NoOp));
}

#[test]
fn without_refused_addresses_the_operator_is_not_asked() {
    let rows = vec![pending(4, 1), row(5, None, true, false), pending(6, 2)];
    let cleared = fetched(&rows);
    assert_eq!(
        cleared.state,
        State::GateDecision {
            gas_price: PRICE,
            batch: vec![
                BatchEntry { row: 4, address: address(1) },
                BatchEntry { row: 6, address: address(2) },
            ],
        }
    );
    assert_eq!(cleared.action, Action::EstimateCost { addresses: vec![address(1), address(2)] });
    assert_eq!(cleared.notices, vec![RowIssue { row: 5, kind: IssueKind::MissingAddress }]);
}

#[test]
fn a_decline_ends_the_run_without_side_effects() {
    let filtered = fetched(&mixed_rows());
    let declined = update_whitelist(filtered.state, Event::OperatorAnswered { proceed: false });
    assert_eq!(declined, finished(State::Aborted { reason: AbortReason::OperatorDeclined }));
    let later = update_whitelist(declined.state, Event::CostEstimated { gas: GAS });
    assert_eq!(later, finished(State::Aborted { reason: AbortReason::OperatorDeclined }));
}

#[test]
fn only_refused_addresses_and_consent_end_as_noop() {
    let rows = vec![row(2, Some("bad".to_string()), true, false)];
    let filtered = fetched(&rows);
    assert_eq!(filtered.state, State::Filtered { gas_price: PRICE, batch: Vec::new() });
    assert_eq!(filtered.action, Action::AskOperator);
    let done = update_whitelist(filtered.state, Event::OperatorAnswered { proceed: true });
    assert_eq!(done, finished(State::NoOp));
}

#[test]
fn only_the_operators_word_moves_a_run_that_waits_for_it() {
    let events = vec![
        Event::CostEstimated { gas: GAS },
        Event::BatchConfirmed { tx_ref: "0xT1".to_string() },
        Event::WriteBackAnswered { status: 200 },
        Event::RowsFetched { rows: mixed_rows() },
        Event::EstimationFailed,
        Event::SubmissionFailed,
        Event::FetchFailed { error: StoreError::RemoteUnavailable },
        Event::WriteBackFailed { error: StoreError::RemoteProtocolError },
    ];
    for event in events {
        let filtered = fetched(&mixed_rows());
        assert_eq!(
            update_whitelist(filtered.state, event),
            finished(State::Aborted { reason: AbortReason::UnexpectedEvent })
        );
    }
}

#[test]
fn a_fetch_failure_aborts_the_run() {
    for error in [StoreError::RemoteUnavailable, StoreError::RemoteProtocolError] {
        let failed = update_whitelist(start(PRICE).state, Event::FetchFailed { error });
        assert_eq!(failed, finished(State::Aborted { reason: AbortReason::FetchFailed { error } }));
    }
}

#[test]
fn an_estimation_failure_aborts_before_submission() {
    let cleared = fetched(&vec![pending(0, 1)]);
    let failed = update_whitelist(cleared.state, Event::EstimationFailed);
    assert_eq!(failed, finished(State::Aborted { reason: AbortReason::EstimationFailed }));
}

#[test]
fn a_submission_failure_aborts_before_the_write_back() {
    let cleared = fetched(&vec![pending(0, 1)]);
    let estimated = update_whitelist(cleared.state, Event::CostEstimated { gas: GAS });
    let failed = update_whitelist(estimated.state, Event::SubmissionFailed);
    assert_eq!(failed, finished(State::Aborted { reason: AbortReason::SubmissionFailed }));
}

#[test]
fn a_write_back_failure_is_surfaced() {
    let cleared = fetched(&vec![pending(0, 1)]);
    let estimated = update_whitelist(cleared.state, Event::CostEstimated { gas: GAS });
    let confirmed = update_whitelist(estimated.state, Event::BatchConfirmed { tx_ref: "0xT2".to_string() });
    let failed =
        update_whitelist(confirmed.state, Event::WriteBackFailed { error: StoreError::RemoteUnavailable });
    assert_eq!(
        failed,
        finished(State::Aborted {
            reason: AbortReason::WriteBackFailed { error: StoreError::RemoteUnavailable }
        })
    );
}

#[test]
fn a_refusing_store_still_ends_the_run_as_written_back() {
    let cleared = fetched(&vec![pending(0, 1)]);
    let estimated = update_whitelist(cleared.state, Event::CostEstimated { gas: GAS });
    let confirmed = update_whitelist(estimated.state, Event::BatchConfirmed { tx_ref: "0xT3".to_string() });
    let written = update_whitelist(confirmed.state, Event::WriteBackAnswered { status: 503 });
    assert_eq!(written, finished(State::WrittenBack { status: 503 }));
    assert!(!is_acknowledged(503));
}

#[test]
fn acknowledged_statuses_are_the_two_hundreds() {
    assert!(!is_acknowledged(0));
    assert!(!is_acknowledged(199));
    assert!(is_acknowledged(200));
    assert!(is_acknowledged(204));
    assert!(is_acknowledged(299));
    assert!(!is_acknowledged(300));
    assert!(!is_acknowledged(404));
    assert!(!is_acknowledged(u16::MAX));
}

#[test]
fn events_out_of_turn_abort_the_run() {
    let idle = start(PRICE).state;
    assert_eq!(
        update_whitelist(idle.clone(), Event::OperatorAnswered { proceed: true }),
        finished(State::Aborted { reason: AbortReason::UnexpectedEvent })
    );
    assert_eq!(
        update_whitelist(idle, Event::BatchConfirmed { tx_ref: "0xT1".to_string() }),
        finished(State::Aborted { reason: AbortReason::UnexpectedEvent })
    );

    let cleared = fetched(&vec![pending(0, 1)]);
    assert_eq!(
        update_whitelist(cleared.state.clone(), Event::BatchConfirmed { tx_ref: "0xT1".to_string() }),
        finished(State::Aborted { reason: AbortReason::UnexpectedEvent })
    );
    assert_eq!(
        update_whitelist(cleared.state.clone(), Event::OperatorAnswered { proceed: true }),
        finished(State::Aborted { reason: AbortReason::UnexpectedEvent })
    );

    let estimated = update_whitelist(cleared.state, Event::CostEstimated { gas: GAS });
    assert_eq!(
        update_whitelist(estimated.state.clone(), Event::CostEstimated { gas: GAS }),
        finished(State::Aborted { reason: AbortReason::UnexpectedEvent })
    );
    assert_eq!(
        update_whitelist(estimated.state.clone(), Event::WriteBackAnswered { status: 200 }),
        finished(State::Aborted { reason: AbortReason::UnexpectedEvent })
    );

    let confirmed = update_whitelist(estimated.state, Event::BatchConfirmed { tx_ref: "0xT1".to_string() });
    assert_eq!(
        update_whitelist(confirmed.state, Event::BatchConfirmed { tx_ref: "0xT1".to_string() }),
        finished(State::Aborted { reason: AbortReason::UnexpectedEvent })
    );
}

#[test]
fn a_finished_run_stays_as_it_is() {
    let states = vec![
        State::NoOp,
        State::WrittenBack { status: 200 },
        State::Aborted { reason: AbortReason::SubmissionFailed },
    ];
    for state in states {
        assert!(state.is_terminal());
        let again = update_whitelist(state.clone(), Event::RowsFetched { rows: mixed_rows() });
        assert_eq!(again, finished(state.clone()));
        let again = update_whitelist(state.clone(), Event::BatchConfirmed { tx_ref: "0xT9".to_string() });
        assert_eq!(again, finished(state));
    }
}

#[test]
fn states_that_wait_are_not_terminal() {
    let batch = vec![BatchEntry { row: 0, address: address(1) }];
    assert!(!State::Idle { gas_price: PRICE }.is_terminal());
    assert!(!State::Filtered { gas_price: PRICE, batch: batch.clone() }.is_terminal());
    assert!(!State::GateDecision { gas_price: PRICE, batch: batch.clone() }.is_terminal());
    assert!(!State::Estimated { batch: batch.clone(), gas: GAS }.is_terminal());
    assert!(!State::Confirmed { batch }.is_terminal());
}

#[test]
fn twelve_candidates_submit_the_first_ten() {
    let mut rows = Vec::new();
    for i in 0..12u32 {
        rows.push(pending(40 + i, i as u8 + 1));
    }
    // a row that is synced already, with an address of its own, in between
    rows.insert(3, row(7, Some(text(0x77)), true, true));

    let cleared = fetched(&rows);
    let expected_addresses: Vec<Address> = (0..10u8).map(|i| address(i + 1)).collect();
    let expected_rows: Vec<u32> = (0..10u32).map(|i| 40 + i).collect();
    assert_eq!(cleared.action, Action::EstimateCost { addresses: expected_addresses.clone() });

    let estimated = update_whitelist(cleared.state, Event::CostEstimated { gas: GAS });
    match &estimated.action {
        Action::SubmitBatch { call } => {
            assert_eq!(call.addresses, expected_addresses);
            assert!(!call.addresses.contains(&address(0x77)));
        }
        other => panic!("expected a submission, got {:?}", other),
    }
    let confirmed = update_whitelist(estimated.state, Event::BatchConfirmed { tx_ref: "0xT4".to_string() });
    assert_eq!(
        confirmed.action,
        Action::MarkSynced { rows: expected_rows, tx_hash: "0xT4".to_string() }
    );
}

#[test]
fn a_second_run_after_the_write_back_submits_nothing() {
    let rows = vec![
        pending(0, 1),
        row(1, None, true, false),
        pending(2, 2),
        row(3, Some(text(3)), false, false),
    ];
    let cleared = fetched(&rows);
    let estimated = update_whitelist(cleared.state, Event::CostEstimated { gas: GAS });
    let confirmed = update_whitelist(estimated.state, Event::BatchConfirmed { tx_ref: "0xT5".to_string() });
    let written = match &confirmed.action {
        Action::MarkSynced { rows, .. } => rows.clone(),
        other => panic!("expected a write-back, got {:?}", other),
    };
    assert_eq!(written, vec![0, 2]);

    let after = mark_synced(&rows, &written);
    let second = fetched(&after);
    assert_eq!(second.state, State::NoOp);
    assert_eq!(second.action, Action::Finish);
    assert_eq!(second.notices, vec![RowIssue { row: 1, kind: IssueKind::MissingAddress }]);
}

#[test]
fn a_second_run_takes_up_what_the_cap_left_over() {
    let rows: Vec<Row> = (0..12u32).map(|i| pending(i, i as u8 + 1)).collect();
    let cleared = fetched(&rows);
    let estimated = update_whitelist(cleared.state, Event::CostEstimated { gas: GAS });
    let confirmed = update_whitelist(estimated.state, Event::BatchConfirmed { tx_ref: "0xT6".to_string() });
    let written = match &confirmed.action {
        Action::MarkSynced { rows, .. } => rows.clone(),
        other => panic!("expected a write-back, got {:?}", other),
    };
    let after = mark_synced(&rows, &written);
    let second = fetched(&after);
    assert_eq!(
        second.action,
        Action::EstimateCost { addresses: vec![address(11), address(12)] }
    );
}

#[test]
fn absorb_snapshot_decides_on_checked_rows() {
    let rows = vec![
        CheckedRow { index: 0, validity: Validity::Valid { address: address(9) } },
        CheckedRow { index: 1, validity: Validity::NotPending },
    ];
    let cleared = absorb_snapshot(PRICE, &rows);
    assert_eq!(cleared.action, Action::EstimateCost { addresses: vec![address(9)] });

    let rows = vec![
        CheckedRow { index: 0, validity: Validity::Valid { address: address(9) } },
        CheckedRow { index: 1, validity: Validity::Invalid { error: ValidationError::Empty } },
    ];
    let filtered = absorb_snapshot(PRICE, &rows);
    assert_eq!(filtered.action, Action::AskOperator);
    assert_eq!(
        filtered.state,
        State::Filtered {
            gas_price: PRICE,
            batch: vec![BatchEntry { row: 0, address: address(9) }]
        }
    );

    assert_eq!(absorb_snapshot(PRICE, &Vec::new()), finished(State::NoOp));
}

#[test]
fn batch_addresses_and_indices_keep_the_order() {
    let batch = vec![
        BatchEntry { row: 8, address: address(3) },
        BatchEntry { row: 2, address: address(1) },
        BatchEntry { row: 5, address: address(2) },
    ];
    assert_eq!(batch_addresses(&batch), vec![address(3), address(1), address(2)]);
    assert_eq!(batch_indices(&batch), vec![8, 2, 5]);
    assert!(batch_addresses(&Vec::new()).is_empty());
    assert!(batch_indices(&Vec::new()).is_empty());
}

#[test]
fn the_engine_validates_with_the_address_parser() {
    let cleared = fetched(&vec![pending(0, 0x5a)]);
    let parsed = validate_address(&text(0x5a)).unwrap();
    assert_eq!(cleared.action, Action::EstimateCost { addresses: vec![parsed] });
    assert_eq!(parsed, address(0x5a));
}
