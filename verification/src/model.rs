//! Data model of the settlement pipeline: plain-value descriptions of a
//! transaction as the node reports it, and the record the reconciler
//! assembles from them.
//!
//! All monetary values are integer amounts in the node's smallest unit
//! (satoshi); addresses are canonical address strings. An output whose
//! script could not be decoded into an address carries no address and is
//! attributed to the sentinel string `"unknown"`.

use vstd::prelude::*;

verus! {

/// Identifies a previous output: the id of the transaction that created it
/// and the index of the output within that transaction.
#[derive(Debug)]
pub struct TxOutputRef {
    pub source_tx_id: String,
    pub output_index: u32,
}

/// Mathematical model of a `TxOutputRef`.
pub struct TxOutputRefModel {
    pub source_tx_id: Seq<char>,
    pub output_index: int,
}

impl View for TxOutputRef {
    type V = TxOutputRefModel;

    open spec fn view(&self) -> TxOutputRefModel {
        TxOutputRefModel {
            source_tx_id: self.source_tx_id@,
            output_index: self.output_index as int,
        }
    }
}

/// One input of a transaction. A generation (coinbase) input mints new
/// value and has no source output; any other input must point at the
/// previous output it spends.
#[derive(Debug)]
pub struct TxInput {
    pub is_coinbase: bool,
    pub source: Option<TxOutputRef>,
}

/// Mathematical model of a `TxInput`.
pub struct TxInputModel {
    pub is_coinbase: bool,
    pub source: Option<TxOutputRefModel>,
}

impl View for TxInput {
    type V = TxInputModel;

    open spec fn view(&self) -> TxInputModel {
        TxInputModel {
            is_coinbase: self.is_coinbase,
            source: match self.source {
                Some(r) => Some(r@),
                None => None,
            },
        }
    }
}

/// One output of a transaction, as the node resolved it: the decoded
/// owning address, absent when the script is non-standard, and the value
/// in satoshi.
#[derive(Debug)]
pub struct ResolvedOutput {
    pub owning_address: Option<String>,
    pub value_sat: u64,
}

/// Mathematical model of a `ResolvedOutput`.
pub struct ResolvedOutputModel {
    pub owning_address: Option<Seq<char>>,
    pub value_sat: int,
}

impl View for ResolvedOutput {
    type V = ResolvedOutputModel;

    open spec fn view(&self) -> ResolvedOutputModel {
        ResolvedOutputModel {
            owning_address: match self.owning_address {
                Some(ref a) => Some(a@),
                None => None,
            },
            value_sat: self.value_sat as int,
        }
    }
}

/// A decoded transaction: its inputs and its resolved outputs, in the
/// order the node reports them.
#[derive(Debug)]
pub struct TransactionDetail {
    pub inputs: Vec<TxInput>,
    pub outputs: Vec<ResolvedOutput>,
}

/// Mathematical model of a `TransactionDetail`.
pub struct TransactionDetailModel {
    pub inputs: Seq<TxInputModel>,
    pub outputs: Seq<ResolvedOutputModel>,
}

/// The views of a sequence of inputs.
pub open spec fn input_views(inputs: Seq<TxInput>) -> Seq<TxInputModel> {
    inputs.map_values(|i: TxInput| i@)
}

/// The views of a sequence of resolved outputs.
pub open spec fn output_views(outputs: Seq<ResolvedOutput>) -> Seq<ResolvedOutputModel> {
    outputs.map_values(|o: ResolvedOutput| o@)
}

impl View for TransactionDetail {
    type V = TransactionDetailModel;

    open spec fn view(&self) -> TransactionDetailModel {
        TransactionDetailModel {
            inputs: input_views(self.inputs@),
            outputs: output_views(self.outputs@),
        }
    }
}

/// The fee the node assessed for a transaction while it sat in the
/// mempool, in satoshi.
#[derive(Clone, Copy, PartialEq, Eq, Structural, Debug)]
pub struct FeeEntry {
    pub base_sat: u64,
}

/// Mathematical model of a `FeeEntry`.
pub struct FeeEntryModel {
    pub base_sat: int,
}

impl View for FeeEntry {
    type V = FeeEntryModel;

    open spec fn view(&self) -> FeeEntryModel {
        FeeEntryModel { base_sat: self.base_sat as int }
    }
}

/// Metadata of a confirming block: its height in the chain.
#[derive(Clone, Copy, PartialEq, Eq, Structural, Debug)]
pub struct BlockInfo {
    pub height: u64,
}

/// Mathematical model of a `BlockInfo`.
pub struct BlockInfoModel {
    pub height: int,
}

impl View for BlockInfo {
    type V = BlockInfoModel;

    open spec fn view(&self) -> BlockInfoModel {
        BlockInfoModel { height: self.height as int }
    }
}

/// The outcome of one read against the node: the value, or the node has
/// no record of the requested id (`NotFound`), or the transport or the
/// node itself failed (`Unavailable`).
pub enum Lookup<T> {
    Found(T),
    NotFound,
    Unavailable,
}

impl<T: View> View for Lookup<T> {
    type V = Lookup<<T as View>::V>;

    open spec fn view(&self) -> Lookup<<T as View>::V> {
        match self {
            Lookup::Found(t) => Lookup::Found(t@),
            Lookup::NotFound => Lookup::NotFound,
            Lookup::Unavailable => Lookup::Unavailable,
        }
    }
}

/// Why a reconciliation aborted. Every failure is fatal for the in-flight
/// call: no partial record is ever produced.
#[derive(Clone, Copy, PartialEq, Eq, Structural, Debug)]
pub enum ReconcileError {
    /// The node has no record of a requested transaction or block.
    NotFound,
    /// The transport or the node failed.
    Unavailable,
    /// A non-coinbase input lacks a source-output pointer.
    MissingInputReference,
    /// An input's referenced output index is beyond the source
    /// transaction's output count.
    SourceOutputOutOfRange,
}

/// The role of one output of the reconciled transaction: the payment to
/// the known recipient, or change returning to the sender.
#[derive(Clone, Copy, PartialEq, Eq, Structural, Debug)]
pub enum OutputRole {
    Payment,
    Change,
}

/// A resolved output tagged with its role.
#[derive(Debug)]
pub struct ClassifiedOutput {
    pub output: ResolvedOutput,
    pub role: OutputRole,
}

/// Mathematical model of a `ClassifiedOutput`.
pub struct ClassifiedOutputModel {
    pub output: ResolvedOutputModel,
    pub role: OutputRole,
}

impl View for ClassifiedOutput {
    type V = ClassifiedOutputModel;

    open spec fn view(&self) -> ClassifiedOutputModel {
        ClassifiedOutputModel { output: self.output@, role: self.role }
    }
}

/// The pipeline's final product: full provenance of one confirmed
/// transaction. Amounts are satoshi; `fee_sat` follows the outflow sign
/// convention and is the negated node-reported fee, so it is never
/// positive. When no input was resolved (every input a coinbase input)
/// `first_input_address` stays empty; when no output matched the known
/// recipient, `payment_address` stays empty and `payment_sat` zero.
#[derive(Debug)]
pub struct SettlementRecord {
    pub tx_id: String,
    pub first_input_address: String,
    pub total_input_sat: u64,
    pub payment_address: String,
    pub payment_sat: u64,
    pub change_address: String,
    pub change_sat: u64,
    pub fee_sat: i64,
    pub confirming_block_height: u64,
    pub confirming_block_hash: String,
}

/// Mathematical model of a `SettlementRecord`.
pub struct SettlementModel {
    pub tx_id: Seq<char>,
    pub first_input_address: Seq<char>,
    pub total_input_sat: int,
    pub payment_address: Seq<char>,
    pub payment_sat: int,
    pub change_address: Seq<char>,
    pub change_sat: int,
    pub fee_sat: int,
    pub confirming_block_height: int,
    pub confirming_block_hash: Seq<char>,
}

impl View for SettlementRecord {
    type V = SettlementModel;

    open spec fn view(&self) -> SettlementModel {
        SettlementModel {
            tx_id: self.tx_id@,
            first_input_address: self.first_input_address@,
            total_input_sat: self.total_input_sat as int,
            payment_address: self.payment_address@,
            payment_sat: self.payment_sat as int,
            change_address: self.change_address@,
            change_sat: self.change_sat as int,
            fee_sat: self.fee_sat as int,
            confirming_block_height: self.confirming_block_height as int,
            confirming_block_hash: self.confirming_block_hash@,
        }
    }
}

impl PartialEq for SettlementRecord {
    fn eq(&self, other: &SettlementRecord) -> (r: bool) {
        self.tx_id == other.tx_id && self.first_input_address == other.first_input_address
            && self.total_input_sat == other.total_input_sat
            && self.payment_address == other.payment_address
            && self.payment_sat == other.payment_sat
            && self.change_address == other.change_address
            && self.change_sat == other.change_sat && self.fee_sat == other.fee_sat
            && self.confirming_block_height == other.confirming_block_height
            && self.confirming_block_hash == other.confirming_block_hash
    }
}

impl vstd::std_specs::cmp::PartialEqSpecImpl for SettlementRecord {
    open spec fn obeys_eq_spec() -> bool {
        true
    }

    open spec fn eq_spec(&self, other: &SettlementRecord) -> bool {
        self@ == other@
    }
}

/// The sentinel attributed to an output whose script yields no address.
pub open spec fn unknown_address() -> Seq<char> {
    "unknown"@
}

/// The address a resolved output is attributed to: its owning address, or
/// the `"unknown"` sentinel when the node decoded none.
pub open spec fn spec_resolved_address(o: ResolvedOutputModel) -> Seq<char> {
    match o.owning_address {
        Some(a) => a,
        None => unknown_address(),
    }
}

/// Executable counterpart of `spec_resolved_address`.
pub fn resolved_address(o: &ResolvedOutput) -> (r: String)
    ensures
        r@ == spec_resolved_address(o@),
{
    match &o.owning_address {
        Some(a) => a.clone(),
        None => "unknown".to_owned(),
    }
}

impl ResolvedOutput {
    /// A fresh copy with the same address and value.
    pub fn duplicate(&self) -> (r: ResolvedOutput)
        ensures
            r@ == self@,
    {
        ResolvedOutput {
            owning_address: match &self.owning_address {
                Some(a) => Some(a.clone()),
                None => None,
            },
            value_sat: self.value_sat,
        }
    }
}

} // verus!
