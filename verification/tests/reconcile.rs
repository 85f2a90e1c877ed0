use settlement_reconciler::model::BlockInfo;
use settlement_reconciler::model::FeeEntry;
use settlement_reconciler::model::Lookup;
use settlement_reconciler::model::ReconcileError;
use settlement_reconciler::model::ResolvedOutput;
use settlement_reconciler::model::SettlementRecord;
use settlement_reconciler::model::TransactionDetail;
use settlement_reconciler::model::TxInput;
use settlement_reconciler::model::TxOutputRef;
use settlement_reconciler::reconcile::reconcile;

fn output(addr: Option<&str>, value_sat: u64) -> ResolvedOutput {
    ResolvedOutput { owning_address: addr.map(|a| a.to_owned()), value_sat }
}

fn spending(source_tx_id: &str, output_index: u32) -> TxInput {
    TxInput {
        is_coinbase: false,
        source: Some(TxOutputRef { source_tx_id: source_tx_id.to_owned(), output_index }),
    }
}

fn coinbase() -> TxInput {
    TxInput { is_coinbase: true, source: None }
}

/// The simple send: one 50.0-coin input, a 20.0 payment to `R`, a
/// 29.9999 change output to `C`, a 0.0001 mempool fee.
fn simple_send() -> (Lookup<TransactionDetail>, Vec<Lookup<TransactionDetail>>) {
    let target = Lookup::Found(TransactionDetail {
        inputs: vec![spending("source-tx", 0)],
        outputs: vec![output(Some("R"), 2_000_000_000), output(Some("C"), 2_999_990_000)],
    });
    let source = Lookup::Found(TransactionDetail {
        inputs: vec![coinbase()],
        outputs: vec![output(Some("S"), 5_000_000_000)],
    });
    (target, vec![source])
}

fn run_simple_send() -> Result<SettlementRecord, ReconcileError> {
    let (target, sources) = simple_send();
    reconcile(
        &"tx-1".to_owned(),
        &"block-1".to_owned(),
        &"R".to_owned(),
        &target,
        &sources,
        &Lookup::Found(FeeEntry { base_sat: 10_000 }),
        &Lookup::Found(BlockInfo { height: 105 }),
    )
}

#[test]
fn scenario_simple_send() {
    let record = run_simple_send().unwrap();
    assert_eq!(record.tx_id, "tx-1");
    assert_eq!(record.first_input_address, "S");
    assert_eq!(record.total_input_sat, 5_000_000_000);
    assert_eq!(record.payment_address, "R");
    assert_eq!(record.payment_sat, 2_000_000_000);
    assert_eq!(record.change_address, "C");
    assert_eq!(record.change_sat, 2_999_990_000);
    assert_eq!(record.fee_sat, -10_000);
    assert_eq!(record.confirming_block_height, 105);
    assert_eq!(record.confirming_block_hash, "block-1");
}

#[test]
fn reconcile_twice_is_bit_identical() {
    let first = run_simple_send().unwrap();
    let second = run_simple_send().unwrap();
    assert_eq!(first, second);
}

#[test]
fn absent_fee_entry_fails_with_not_found() {
    let (target, sources) = simple_send();
    let r = reconcile(
        &"tx-1".to_owned(),
        &"block-1".to_owned(),
        &"R".to_owned(),
        &target,
        &sources,
        &Lookup::NotFound,
        &Lookup::Found(BlockInfo { height: 105 }),
    );
    assert_eq!(r.unwrap_err(), ReconcileError::NotFound);
}

#[test]
fn out_of_range_source_output_fails() {
    let target = Lookup::Found(TransactionDetail {
        inputs: vec![spending("source-tx", 3)],
        outputs: vec![output(Some("R"), 1_000)],
    });
    let sources = vec![Lookup::Found(TransactionDetail {
        inputs: vec![],
        outputs: vec![output(Some("S"), 2_000)],
    })];
    let r = reconcile(
        &"tx-1".to_owned(),
        &"block-1".to_owned(),
        &"R".to_owned(),
        &target,
        &sources,
        &Lookup::Found(FeeEntry { base_sat: 1 }),
        &Lookup::Found(BlockInfo { height: 1 }),
    );
    assert_eq!(r.unwrap_err(), ReconcileError::SourceOutputOutOfRange);
}

#[test]
fn total_is_sum_of_resolved_inputs() {
    // Three non-coinbase inputs and one coinbase input: three source
    // lookups, and the total is the exact sum of the three resolved
    // source-output values.
    let target = Lookup::Found(TransactionDetail {
        inputs: vec![spending("a", 1), coinbase(), spending("b", 0), spending("c", 0)],
        outputs: vec![output(Some("R"), 10)],
    });
    let sources = vec![
        Lookup::Found(TransactionDetail {
            inputs: vec![],
            outputs: vec![output(Some("x"), 7), output(Some("first"), 100)],
        }),
        Lookup::Found(TransactionDetail {
            inputs: vec![],
            outputs: vec![output(None, 23)],
        }),
        Lookup::Found(TransactionDetail {
            inputs: vec![],
            outputs: vec![output(Some("z"), 4_000)],
        }),
    ];
    let record = reconcile(
        &"tx-2".to_owned(),
        &"block-2".to_owned(),
        &"R".to_owned(),
        &target,
        &sources,
        &Lookup::Found(FeeEntry { base_sat: 5 }),
        &Lookup::Found(BlockInfo { height: 7 }),
    )
    .unwrap();
    assert_eq!(record.total_input_sat, 100 + 23 + 4_000);
    assert_eq!(record.first_input_address, "first");
}

#[test]
fn missing_input_reference_fails() {
    let target = Lookup::Found(TransactionDetail {
        inputs: vec![TxInput { is_coinbase: false, source: None }],
        outputs: vec![],
    });
    let r = reconcile(
        &"tx-3".to_owned(),
        &"block-3".to_owned(),
        &"R".to_owned(),
        &target,
        &vec![],
        &Lookup::Found(FeeEntry { base_sat: 1 }),
        &Lookup::Found(BlockInfo { height: 1 }),
    );
    assert_eq!(r.unwrap_err(), ReconcileError::MissingInputReference);
}

#[test]
fn target_not_found_fails() {
    let r = reconcile(
        &"tx-4".to_owned(),
        &"block-4".to_owned(),
        &"R".to_owned(),
        &Lookup::NotFound,
        &vec![],
        &Lookup::Found(FeeEntry { base_sat: 1 }),
        &Lookup::Found(BlockInfo { height: 1 }),
    );
    assert_eq!(r.unwrap_err(), ReconcileError::NotFound);
}

#[test]
fn unavailable_source_fails() {
    let target = Lookup::Found(TransactionDetail {
        inputs: vec![spending("a", 0)],
        outputs: vec![],
    });
    let r = reconcile(
        &"tx-5".to_owned(),
        &"block-5".to_owned(),
        &"R".to_owned(),
        &target,
        &vec![Lookup::Unavailable],
        &Lookup::Found(FeeEntry { base_sat: 1 }),
        &Lookup::Found(BlockInfo { height: 1 }),
    );
    assert_eq!(r.unwrap_err(), ReconcileError::Unavailable);
}

#[test]
fn block_not_found_fails() {
    let (target, sources) = simple_send();
    let r = reconcile(
        &"tx-1".to_owned(),
        &"block-1".to_owned(),
        &"R".to_owned(),
        &target,
        &sources,
        &Lookup::Found(FeeEntry { base_sat: 10_000 }),
        &Lookup::NotFound,
    );
    assert_eq!(r.unwrap_err(), ReconcileError::NotFound);
}

#[test]
fn coinbase_inputs_are_skipped() {
    let target = Lookup::Found(TransactionDetail {
        inputs: vec![coinbase()],
        outputs: vec![output(Some("R"), 50_0000_0000)],
    });
    let record = reconcile(
        &"gen-tx".to_owned(),
        &"block-6".to_owned(),
        &"R".to_owned(),
        &target,
        &vec![],
        &Lookup::Found(FeeEntry { base_sat: 0 }),
        &Lookup::Found(BlockInfo { height: 1 }),
    )
    .unwrap();
    assert_eq!(record.total_input_sat, 0);
    assert_eq!(record.first_input_address, "");
    assert_eq!(record.payment_sat, 50_0000_0000);
}

#[test]
fn unknown_address_sentinel_in_record() {
    let target = Lookup::Found(TransactionDetail {
        inputs: vec![spending("a", 0)],
        outputs: vec![output(Some("R"), 30), output(None, 70)],
    });
    let sources = vec![Lookup::Found(TransactionDetail {
        inputs: vec![],
        outputs: vec![output(None, 100)],
    })];
    let record = reconcile(
        &"tx-7".to_owned(),
        &"block-7".to_owned(),
        &"R".to_owned(),
        &target,
        &sources,
        &Lookup::Found(FeeEntry { base_sat: 0 }),
        &Lookup::Found(BlockInfo { height: 9 }),
    )
    .unwrap();
    assert_eq!(record.first_input_address, "unknown");
    assert_eq!(record.change_address, "unknown");
    assert_eq!(record.change_sat, 70);
    assert_eq!(record.payment_address, "R");
}
