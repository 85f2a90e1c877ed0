//! The settlement reconciler: given a confirmed transaction, the source
//! transaction fetched for each of its non-coinbase inputs, its mempool
//! fee entry and its confirming block, resolve every input's source
//! output, classify every output as payment or change, and assemble one
//! `SettlementRecord`.
//!
//! The node itself is read elsewhere; every function here works on plain
//! values and is deterministic in them. Any failed read and any
//! structural inconsistency aborts the whole reconciliation: no partial
//! record is ever produced.

use vstd::prelude::*;

use crate::classify::settle_outputs;
use crate::classify::spec_change_address;
use crate::classify::spec_change_value;
use crate::classify::spec_payment_address;
use crate::classify::spec_payment_value;
use crate::model::BlockInfo;
use crate::model::BlockInfoModel;
use crate::model::FeeEntry;
use crate::model::FeeEntryModel;
use crate::model::Lookup;
use crate::model::ReconcileError;
use crate::model::ResolvedOutput;
use crate::model::SettlementModel;
use crate::model::SettlementRecord;
use crate::model::TransactionDetail;
use crate::model::TransactionDetailModel;
use crate::model::TxInputModel;
use crate::model::TxOutputRef;
use crate::model::TxOutputRefModel;
use crate::model::resolved_address;
use crate::model::spec_resolved_address;

verus! {

/// Whether some non-coinbase input lacks a source-output pointer: a fatal
/// structural inconsistency in the transaction graph.
pub open spec fn spec_missing_reference(inputs: Seq<TxInputModel>) -> bool
    decreases inputs.len(),
{
    if inputs.len() == 0 {
        false
    } else {
        (!inputs.first().is_coinbase && inputs.first().source is None) || spec_missing_reference(
            inputs.drop_first(),
        )
    }
}

/// How many inputs are not coinbase inputs: the number of source-output
/// lookups a reconciliation of the transaction performs.
pub open spec fn spec_non_coinbase_count(inputs: Seq<TxInputModel>) -> int
    decreases inputs.len(),
{
    if inputs.len() == 0 {
        0
    } else {
        (if inputs.first().is_coinbase {
            0int
        } else {
            1int
        }) + spec_non_coinbase_count(inputs.drop_first())
    }
}

/// The source-output references of the non-coinbase inputs, in input
/// order; an input without a pointer contributes nothing (planning fails
/// on it instead).
pub open spec fn spec_source_refs(inputs: Seq<TxInputModel>) -> Seq<TxOutputRefModel>
    decreases inputs.len(),
{
    if inputs.len() == 0 {
        Seq::empty()
    } else {
        let rest = spec_source_refs(inputs.drop_first());
        if inputs.first().is_coinbase {
            rest
        } else {
            match inputs.first().source {
                Some(r) => seq![r] + rest,
                None => rest,
            }
        }
    }
}

/// What the input-resolution phase of a reconciliation yields: the sum of
/// the resolved source values, the address of the first resolved input,
/// and how many source lookups were consumed.
pub struct InputsModel {
    pub total_sat: int,
    pub first_address: Option<Seq<char>>,
    pub sources_used: int,
}

/// The input-resolution phase itself: walk the inputs in order, skipping
/// coinbase inputs, consuming one source-transaction lookup per remaining
/// input and resolving its referenced output. The first failure ends the
/// walk: a missing pointer, a failed lookup, or an output index beyond
/// the source transaction's output count.
pub open spec fn spec_walk_inputs(
    inputs: Seq<TxInputModel>,
    sources: Seq<Lookup<TransactionDetailModel>>,
) -> Result<InputsModel, ReconcileError>
    decreases inputs.len(),
{
    if inputs.len() == 0 {
        Ok(
            InputsModel {
                total_sat: 0,
                first_address: None,
                sources_used: 0,
            },
        )
    } else if inputs.first().is_coinbase {
        spec_walk_inputs(inputs.drop_first(), sources)
    } else {
        match inputs.first().source {
            None => Err(ReconcileError::MissingInputReference),
            Some(r) => {
                if sources.len() == 0 {
                    Err(ReconcileError::NotFound)
                } else {
                    match sources.first() {
                        Lookup::NotFound => Err(ReconcileError::NotFound),
                        Lookup::Unavailable => Err(ReconcileError::Unavailable),
                        Lookup::Found(src) => {
                            if 0 <= r.output_index < src.outputs.len() {
                                let o = src.outputs[r.output_index];
                                match spec_walk_inputs(inputs.drop_first(), sources.drop_first()) {
                                    Err(e) => Err(e),
                                    Ok(m) => Ok(
                                        InputsModel {
                                            total_sat: o.value_sat + m.total_sat,
                                            first_address: Some(spec_resolved_address(o)),
                                            sources_used: 1 + m.sources_used,
                                        },
                                    ),
                                }
                            } else {
                                Err(ReconcileError::SourceOutputOutOfRange)
                            }
                        },
                    }
                }
            },
        }
    }
}

/// The values of the source outputs the walk resolves, in input order,
/// as far as resolution succeeds.
pub open spec fn spec_resolved_values(
    inputs: Seq<TxInputModel>,
    sources: Seq<Lookup<TransactionDetailModel>>,
) -> Seq<int>
    decreases inputs.len(),
{
    if inputs.len() == 0 {
        Seq::empty()
    } else if inputs.first().is_coinbase {
        spec_resolved_values(inputs.drop_first(), sources)
    } else {
        match inputs.first().source {
            None => Seq::empty(),
            Some(r) => {
                if sources.len() == 0 {
                    Seq::empty()
                } else {
                    match sources.first() {
                        Lookup::Found(src) => {
                            if 0 <= r.output_index < src.outputs.len() {
                                seq![src.outputs[r.output_index].value_sat] + spec_resolved_values(
                                    inputs.drop_first(),
                                    sources.drop_first(),
                                )
                            } else {
                                Seq::empty()
                            }
                        },
                        _ => Seq::empty(),
                    }
                }
            },
        }
    }
}

/// The sum of a sequence of values.
pub open spec fn spec_sum(values: Seq<int>) -> int
    decreases values.len(),
{
    if values.len() == 0 {
        0
    } else {
        values.first() + spec_sum(values.drop_first())
    }
}

/// The planned source lookups for a transaction have one entry per
/// non-coinbase input.
///
/// Law: a reconciliation of a transaction with N non-coinbase inputs
/// performs exactly N source-output lookups.
pub proof fn lemma_source_refs_count(inputs: Seq<TxInputModel>)
    requires
        !spec_missing_reference(inputs),
    ensures
        spec_source_refs(inputs).len() == spec_non_coinbase_count(inputs),
    decreases inputs.len(),
{
    if inputs.len() != 0 {
        lemma_source_refs_count(inputs.drop_first());
    }
}

/// A successful input walk consumes exactly one source lookup per
/// non-coinbase input, and its total is exactly the sum of the resolved
/// source-output values.
///
/// Law: for a transaction with N non-coinbase inputs, reconciliation
/// issues exactly N source-output lookups and reports as total input
/// value the exact sum of the values they resolve to.
pub proof fn lemma_walk_inputs_exact(
    inputs: Seq<TxInputModel>,
    sources: Seq<Lookup<TransactionDetailModel>>,
)
    requires
        spec_walk_inputs(inputs, sources) is Ok,
    ensures
        spec_walk_inputs(inputs, sources)->Ok_0.sources_used == spec_non_coinbase_count(inputs),
        spec_resolved_values(inputs, sources).len() == spec_non_coinbase_count(inputs),
        spec_walk_inputs(inputs, sources)->Ok_0.total_sat == spec_sum(
            spec_resolved_values(inputs, sources),
        ),
    decreases inputs.len(),
{
    if inputs.len() != 0 {
        if inputs.first().is_coinbase {
            lemma_walk_inputs_exact(inputs.drop_first(), sources);
        } else {
            lemma_walk_inputs_exact(inputs.drop_first(), sources.drop_first());
            let r = inputs.first().source->0;
            let src = sources.first()->Found_0;
            let vs = spec_resolved_values(inputs.drop_first(), sources.drop_first());
            assert((seq![src.outputs[r.output_index].value_sat] + vs).drop_first() =~= vs);
        }
    }
}

/// Plan the source-output lookups a reconciliation needs: one per
/// non-coinbase input, in input order. Fails with
/// `MissingInputReference` exactly when some non-coinbase input lacks its
/// source pointer.
pub fn plan_source_lookups(target: &TransactionDetail) -> (r: Result<
    Vec<TxOutputRef>,
    ReconcileError,
>)
    ensures
        r is Err <==> spec_missing_reference(target@.inputs),
        r matches Err(e) ==> e == ReconcileError::MissingInputReference,
        r matches Ok(refs) ==> refs@.map_values(|q: TxOutputRef| q@) == spec_source_refs(
            target@.inputs,
        ),
        r matches Ok(refs) ==> refs@.len() == spec_non_coinbase_count(target@.inputs),
{
    let ghost inputsm = target@.inputs;
    let mut refs: Vec<TxOutputRef> = Vec::new();
    let mut i: usize = 0;
    proof {
        assert(inputsm.skip(0) =~= inputsm);
        assert(refs@.map_values(|q: TxOutputRef| q@) + spec_source_refs(inputsm)
            =~= spec_source_refs(inputsm));
    }
    while i < target.inputs.len()
        invariant
            0 <= i <= target.inputs.len(),
            inputsm == target@.inputs,
            inputsm.len() == target.inputs.len(),
            spec_missing_reference(inputsm) == spec_missing_reference(inputsm.skip(i as int)),
            spec_source_refs(inputsm) == refs@.map_values(|q: TxOutputRef| q@) + spec_source_refs(
                inputsm.skip(i as int),
            ),
        decreases target.inputs.len() - i,
    {
        let ghost suffix = inputsm.skip(i as int);
        proof {
            assert(suffix.first() == inputsm[i as int]);
            assert(suffix.drop_first() =~= inputsm.skip(i as int + 1));
        }
        let input = &target.inputs[i];
        if !input.is_coinbase {
            match &input.source {
                None => {
                    return Err(ReconcileError::MissingInputReference);
                },
                Some(q) => {
                    let copied = TxOutputRef {
                        source_tx_id: q.source_tx_id.clone(),
                        output_index: q.output_index,
                    };
                    refs.push(copied);
                    proof {
                        let f = |x: TxOutputRef| x@;
                        assert(refs@.map_values(f) =~= refs@.drop_last().map_values(f).push(q@));
                        assert(refs@.drop_last().map_values(f) + (seq![q@] + spec_source_refs(
                            inputsm.skip(i as int + 1),
                        )) =~= refs@.map_values(f) + spec_source_refs(inputsm.skip(i as int + 1)));
                    }
                },
            }
        }
        i = i + 1;
    }
    proof {
        assert(inputsm.skip(i as int) =~= Seq::<TxInputModel>::empty());
        assert(refs@.map_values(|q: TxOutputRef| q@) + spec_source_refs(inputsm.skip(i as int))
            =~= refs@.map_values(|q: TxOutputRef| q@));
        lemma_source_refs_count(inputsm);
        assert(refs@.map_values(|q: TxOutputRef| q@).len() == refs@.len());
    }
    Ok(refs)
}

/// Select the output a source-output reference points at within its
/// source transaction. Fails with `SourceOutputOutOfRange` exactly when
/// the referenced index is beyond the source transaction's output count.
pub fn resolve_source_output(reference: &TxOutputRef, source_tx: &TransactionDetail) -> (r: Result<
    ResolvedOutput,
    ReconcileError,
>)
    ensures
        reference@.output_index < source_tx@.outputs.len() ==> (r matches Ok(o) && o@
            == source_tx@.outputs[reference@.output_index]),
        reference@.output_index >= source_tx@.outputs.len() ==> (r matches Err(e) && e
            == ReconcileError::SourceOutputOutOfRange),
{
    let index = reference.output_index as usize;
    if index < source_tx.outputs.len() {
        Ok(source_tx.outputs[index].duplicate())
    } else {
        Err(ReconcileError::SourceOutputOutOfRange)
    }
}

/// The views of a sequence of source-transaction lookups.
pub open spec fn source_views(sources: Seq<Lookup<TransactionDetail>>) -> Seq<
    Lookup<TransactionDetailModel>,
> {
    sources.map_values(|l: Lookup<TransactionDetail>| l@)
}

/// The view of an optional address.
pub open spec fn opt_address_view(a: Option<String>) -> Option<Seq<char>> {
    match a {
        Some(s) => Some(s@),
        None => None,
    }
}

/// What an input walk amounts to after a prefix of the inputs has been
/// resolved into the accumulators: the rest of the walk, folded into
/// them.
pub open spec fn spec_walk_combine(
    acc_total: int,
    acc_first: Option<Seq<char>>,
    acc_used: int,
    rest: Result<InputsModel, ReconcileError>,
) -> Result<InputsModel, ReconcileError> {
    match rest {
        Err(e) => Err(e),
        Ok(m) => Ok(
            InputsModel {
                total_sat: acc_total + m.total_sat,
                first_address: if acc_first is Some {
                    acc_first
                } else {
                    m.first_address
                },
                sources_used: acc_used + m.sources_used,
            },
        ),
    }
}

/// Whether the target transaction was found and its whole input walk
/// succeeds.
pub open spec fn spec_inputs_resolve(
    target: Lookup<TransactionDetailModel>,
    sources: Seq<Lookup<TransactionDetailModel>>,
) -> bool {
    match target {
        Lookup::Found(tx) => spec_walk_inputs(tx.inputs, sources) is Ok,
        _ => false,
    }
}

/// Machine limit: a successful input walk's total fits the record's
/// 64-bit value field.
pub open spec fn spec_total_fits(
    target: Lookup<TransactionDetailModel>,
    sources: Seq<Lookup<TransactionDetailModel>>,
) -> bool {
    match target {
        Lookup::Found(tx) => match spec_walk_inputs(tx.inputs, sources) {
            Ok(m) => m.total_sat <= u64::MAX as int,
            Err(_) => true,
        },
        _ => true,
    }
}

/// Machine limit: a found fee fits the record's signed 64-bit fee field
/// once negated.
pub open spec fn spec_fee_fits(fee: Lookup<FeeEntryModel>) -> bool {
    match fee {
        Lookup::Found(f) => f.base_sat <= i64::MAX as int,
        _ => true,
    }
}

/// The whole reconciliation, mathematically: what `reconcile` returns
/// for every combination of node responses. Failures surface in pipeline
/// order — target transaction first, then the input walk, then the fee
/// entry, then the block — and any failure yields an error and no
/// record.
pub open spec fn spec_reconcile(
    tx_id: Seq<char>,
    block_hash: Seq<char>,
    known_recipient: Seq<char>,
    target: Lookup<TransactionDetailModel>,
    sources: Seq<Lookup<TransactionDetailModel>>,
    fee: Lookup<FeeEntryModel>,
    block: Lookup<BlockInfoModel>,
) -> Result<SettlementModel, ReconcileError> {
    match target {
        Lookup::NotFound => Err(ReconcileError::NotFound),
        Lookup::Unavailable => Err(ReconcileError::Unavailable),
        Lookup::Found(tx) => match spec_walk_inputs(tx.inputs, sources) {
            Err(e) => Err(e),
            Ok(m) => match fee {
                Lookup::NotFound => Err(ReconcileError::NotFound),
                Lookup::Unavailable => Err(ReconcileError::Unavailable),
                Lookup::Found(f) => match block {
                    Lookup::NotFound => Err(ReconcileError::NotFound),
                    Lookup::Unavailable => Err(ReconcileError::Unavailable),
                    Lookup::Found(b) => Ok(
                        SettlementModel {
                            tx_id: tx_id,
                            first_input_address: match m.first_address {
                                Some(a) => a,
                                None => Seq::empty(),
                            },
                            total_input_sat: m.total_sat,
                            payment_address: spec_payment_address(tx.outputs, known_recipient),
                            payment_sat: spec_payment_value(tx.outputs, known_recipient),
                            change_address: spec_change_address(tx.outputs, known_recipient),
                            change_sat: spec_change_value(tx.outputs, known_recipient),
                            fee_sat: -f.base_sat,
                            confirming_block_height: b.height,
                            confirming_block_hash: block_hash,
                        },
                    ),
                },
            },
        },
    }
}

/// Law: a record is only ever assembled from a found transaction whose
/// inputs all resolved, it reports as total input value the exact sum of
/// the resolved source-output values, and those values number exactly
/// one per non-coinbase input.
pub proof fn lemma_record_total_exact(
    tx_id: Seq<char>,
    block_hash: Seq<char>,
    known_recipient: Seq<char>,
    target: Lookup<TransactionDetailModel>,
    sources: Seq<Lookup<TransactionDetailModel>>,
    fee: Lookup<FeeEntryModel>,
    block: Lookup<BlockInfoModel>,
)
    requires
        spec_reconcile(tx_id, block_hash, known_recipient, target, sources, fee, block) is Ok,
    ensures
        target is Found,
        spec_reconcile(
            tx_id,
            block_hash,
            known_recipient,
            target,
            sources,
            fee,
            block,
        )->Ok_0.total_input_sat == spec_sum(
            spec_resolved_values(target->Found_0.inputs, sources),
        ),
        spec_resolved_values(target->Found_0.inputs, sources).len() == spec_non_coinbase_count(
            target->Found_0.inputs,
        ),
{
    lemma_walk_inputs_exact(target->Found_0.inputs, sources);
}

/// Law: reconciliation is deterministic in the node's answers. Two
/// records reconciled from the same confirmed `(tx_id, block_hash)`
/// pair, the same recipient address and the same node answers — in
/// particular, while the fee entry is still queryable — are identical;
/// `reconcile` returns exactly `spec_reconcile` of its arguments' views,
/// so two calls on equal views cannot differ.
pub proof fn lemma_reconcile_repeatable(
    tx_id: Seq<char>,
    block_hash: Seq<char>,
    known_recipient: Seq<char>,
    target: Lookup<TransactionDetailModel>,
    sources: Seq<Lookup<TransactionDetailModel>>,
    fee: Lookup<FeeEntryModel>,
    block: Lookup<BlockInfoModel>,
    first: SettlementModel,
    second: SettlementModel,
)
    requires
        spec_reconcile(tx_id, block_hash, known_recipient, target, sources, fee, block) == Ok::<
            SettlementModel,
            ReconcileError,
        >(first),
        spec_reconcile(tx_id, block_hash, known_recipient, target, sources, fee, block) == Ok::<
            SettlementModel,
            ReconcileError,
        >(second),
    ensures
        first == second,
{
}

/// Reconcile one confirmed transaction into a settlement record.
///
/// `target` is the transaction fetched by id within its confirming
/// block; `sources` are the source-transaction lookups for its
/// non-coinbase inputs, in input order, one per planned lookup (see
/// `plan_source_lookups`); `fee` is the mempool fee entry for the
/// transaction and `block` the confirming block's metadata.
///
/// The result is exactly `spec_reconcile` of the arguments' views: the
/// record is a function of the node's answers alone, so reconciling the
/// same confirmed transaction twice over the same answers yields
/// identical records. An absent fee entry is never guessed around: it
/// fails the call with `NotFound`.
#[verifier::loop_isolation(false)]
pub fn reconcile(
    tx_id: &String,
    block_hash: &String,
    known_recipient_address: &String,
    target: &Lookup<TransactionDetail>,
    sources: &Vec<Lookup<TransactionDetail>>,
    fee: &Lookup<FeeEntry>,
    block: &Lookup<BlockInfo>,
) -> (r: Result<SettlementRecord, ReconcileError>)
    requires
        spec_total_fits(target@, source_views(sources@)),
        spec_fee_fits(fee@),
    ensures
        ({
            let outcome = spec_reconcile(
                tx_id@,
                block_hash@,
                known_recipient_address@,
                target@,
                source_views(sources@),
                fee@,
                block@,
            );
            match r {
                Ok(rec) => outcome == Ok::<SettlementModel, ReconcileError>(rec@),
                Err(e) => outcome == Err::<SettlementModel, ReconcileError>(e),
            }
        }),
        (spec_inputs_resolve(target@, source_views(sources@)) && fee@ matches Lookup::NotFound)
            ==> (r matches Err(e) && e == ReconcileError::NotFound),
        r matches Ok(rec) ==> rec@.fee_sat <= 0,
{
    let tx = match target {
        Lookup::Found(t) => t,
        Lookup::NotFound => {
            return Err(ReconcileError::NotFound);
        },
        Lookup::Unavailable => {
            return Err(ReconcileError::Unavailable);
        },
    };
    let ghost inputsm = tx@.inputs;
    let ghost svs = source_views(sources@);
    let mut total: u128 = 0;
    let mut first_address: Option<String> = None;
    let mut j: usize = 0;
    let mut i: usize = 0;
    proof {
        assert(inputsm.skip(0) =~= inputsm);
        assert(svs.skip(0) =~= svs);
    }
    while i < tx.inputs.len()
        invariant
            0 <= i <= tx.inputs.len(),
            0 <= j <= sources.len(),
            total as int <= (i as int) * (u64::MAX as int),
            spec_walk_inputs(inputsm, svs) == spec_walk_combine(
                total as int,
                opt_address_view(first_address),
                j as int,
                spec_walk_inputs(inputsm.skip(i as int), svs.skip(j as int)),
            ),
        decreases tx.inputs.len() - i,
    {
        proof {
            assert(inputsm.skip(i as int).first() == inputsm[i as int]);
            assert(inputsm.skip(i as int).drop_first() =~= inputsm.skip(i as int + 1));
        }
        let input = &tx.inputs[i];
        if !input.is_coinbase {
            let reference = match &input.source {
                Some(q) => q,
                None => {
                    return Err(ReconcileError::MissingInputReference);
                },
            };
            if j >= sources.len() {
                return Err(ReconcileError::NotFound);
            }
            proof {
                assert(svs.skip(j as int).first() == svs[j as int]);
                assert(svs.skip(j as int).drop_first() =~= svs.skip(j as int + 1));
            }
            let source = match &sources[j] {
                Lookup::Found(s) => s,
                Lookup::NotFound => {
                    return Err(ReconcileError::NotFound);
                },
                Lookup::Unavailable => {
                    return Err(ReconcileError::Unavailable);
                },
            };
            let resolved = match resolve_source_output(reference, source) {
                Ok(o) => o,
                Err(e) => {
                    return Err(e);
                },
            };
            assert(total as int + resolved.value_sat as int <= (i as int + 1) * (
            u64::MAX as int) < u128::MAX as int) by (nonlinear_arith)
                requires
                    total as int <= (i as int) * (u64::MAX as int),
                    resolved.value_sat as int <= u64::MAX as int,
                    0 <= i as int <= u64::MAX as int,
            ;
            total = total + (resolved.value_sat as u128);
            if first_address.is_none() {
                first_address = Some(resolved_address(&resolved));
            }
            j = j + 1;
        }
        i = i + 1;
    }
    proof {
        assert(inputsm.skip(i as int) =~= Seq::<TxInputModel>::empty());
        assert(total <= u64::MAX as u128);
    }
    let total_sat = total as u64;
    let summary = settle_outputs(&tx.outputs, known_recipient_address);
    let fee_entry = match fee {
        Lookup::Found(f) => f,
        Lookup::NotFound => {
            return Err(ReconcileError::NotFound);
        },
        Lookup::Unavailable => {
            return Err(ReconcileError::Unavailable);
        },
    };
    let fee_sat = -(fee_entry.base_sat as i64);
    let block_info = match block {
        Lookup::Found(b) => b,
        Lookup::NotFound => {
            return Err(ReconcileError::NotFound);
        },
        Lookup::Unavailable => {
            return Err(ReconcileError::Unavailable);
        },
    };
    let record = SettlementRecord {
        tx_id: tx_id.clone(),
        first_input_address: match first_address {
            Some(a) => a,
            None => String::new(),
        },
        total_input_sat: total_sat,
        payment_address: summary.payment_address,
        payment_sat: summary.payment_sat,
        change_address: summary.change_address,
        change_sat: summary.change_sat,
        fee_sat: fee_sat,
        confirming_block_height: block_info.height,
        confirming_block_hash: block_hash.clone(),
    };
    Ok(record)
}

} // verus!
