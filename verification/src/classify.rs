//! Output classification: each output of the reconciled transaction is
//! either the payment (its resolved address matches the known recipient
//! address exactly) or change. The record keeps one payment slot and one
//! change slot; when several outputs fall into the same slot, the last
//! one in output order wins — faithful to the simple two-output send
//! pattern this pipeline is built for, and a documented limitation for
//! anything richer.

use vstd::prelude::*;

use crate::model::ClassifiedOutput;
use crate::model::ClassifiedOutputModel;
use crate::model::OutputRole;
use crate::model::ResolvedOutput;
use crate::model::ResolvedOutputModel;
use crate::model::output_views;
use crate::model::resolved_address;
use crate::model::spec_resolved_address;

verus! {

/// The role of one output: payment exactly when its resolved address
/// matches the known recipient address, change otherwise.
pub open spec fn spec_output_role(o: ResolvedOutputModel, known: Seq<char>) -> OutputRole {
    if spec_resolved_address(o) == known {
        OutputRole::Payment
    } else {
        OutputRole::Change
    }
}

/// The payment slot's address after classifying all outputs: the
/// resolved address of the last payment output, or empty when none
/// matches.
pub open spec fn spec_payment_address(outputs: Seq<ResolvedOutputModel>, known: Seq<char>) -> Seq<
    char,
>
    decreases outputs.len(),
{
    if outputs.len() == 0 {
        Seq::empty()
    } else if spec_output_role(outputs.last(), known) == OutputRole::Payment {
        spec_resolved_address(outputs.last())
    } else {
        spec_payment_address(outputs.drop_last(), known)
    }
}

/// The payment slot's value: the value of the last payment output, or
/// zero when none matches.
pub open spec fn spec_payment_value(outputs: Seq<ResolvedOutputModel>, known: Seq<char>) -> int
    decreases outputs.len(),
{
    if outputs.len() == 0 {
        0
    } else if spec_output_role(outputs.last(), known) == OutputRole::Payment {
        outputs.last().value_sat
    } else {
        spec_payment_value(outputs.drop_last(), known)
    }
}

/// The change slot's address: the resolved address of the last change
/// output, or empty when every output is the payment.
pub open spec fn spec_change_address(outputs: Seq<ResolvedOutputModel>, known: Seq<char>) -> Seq<
    char,
>
    decreases outputs.len(),
{
    if outputs.len() == 0 {
        Seq::empty()
    } else if spec_output_role(outputs.last(), known) == OutputRole::Change {
        spec_resolved_address(outputs.last())
    } else {
        spec_change_address(outputs.drop_last(), known)
    }
}

/// The change slot's value: the value of the last change output, or zero
/// when every output is the payment.
pub open spec fn spec_change_value(outputs: Seq<ResolvedOutputModel>, known: Seq<char>) -> int
    decreases outputs.len(),
{
    if outputs.len() == 0 {
        0
    } else if spec_output_role(outputs.last(), known) == OutputRole::Change {
        outputs.last().value_sat
    } else {
        spec_change_value(outputs.drop_last(), known)
    }
}

/// Tag every output of a transaction with its role, in output order.
pub fn classify_outputs(outputs: &Vec<ResolvedOutput>, known_recipient_address: &String) -> (r: Vec<
    ClassifiedOutput,
>)
    ensures
        r@.len() == outputs@.len(),
        forall|i: int|
            0 <= i < outputs@.len() ==> (#[trigger] r@[i])@ == (ClassifiedOutputModel {
                output: outputs@[i]@,
                role: spec_output_role(outputs@[i]@, known_recipient_address@),
            }),
{
    let mut classified: Vec<ClassifiedOutput> = Vec::new();
    let mut i: usize = 0;
    while i < outputs.len()
        invariant
            0 <= i <= outputs.len(),
            classified@.len() == i,
            forall|k: int|
                0 <= k < i ==> (#[trigger] classified@[k])@ == (ClassifiedOutputModel {
                    output: outputs@[k]@,
                    role: spec_output_role(outputs@[k]@, known_recipient_address@),
                }),
        decreases outputs.len() - i,
    {
        let output = &outputs[i];
        let addr = resolved_address(output);
        let role = if addr == *known_recipient_address {
            OutputRole::Payment
        } else {
            OutputRole::Change
        };
        classified.push(ClassifiedOutput { output: output.duplicate(), role });
        i = i + 1;
    }
    classified
}

/// The payment and change slots of one transaction's outputs.
pub struct OutputSummary {
    pub payment_address: String,
    pub payment_sat: u64,
    pub change_address: String,
    pub change_sat: u64,
}

/// Mathematical model of an `OutputSummary`.
pub struct OutputSummaryModel {
    pub payment_address: Seq<char>,
    pub payment_sat: int,
    pub change_address: Seq<char>,
    pub change_sat: int,
}

impl View for OutputSummary {
    type V = OutputSummaryModel;

    open spec fn view(&self) -> OutputSummaryModel {
        OutputSummaryModel {
            payment_address: self.payment_address@,
            payment_sat: self.payment_sat as int,
            change_address: self.change_address@,
            change_sat: self.change_sat as int,
        }
    }
}

/// Fill the payment and change slots from a transaction's outputs, in
/// output order, the last output of each role winning its slot. Slots no
/// output falls into keep their defaults: empty address, zero value.
pub fn settle_outputs(outputs: &Vec<ResolvedOutput>, known_recipient_address: &String) -> (r:
    OutputSummary)
    ensures
        r@.payment_address == spec_payment_address(output_views(outputs@), known_recipient_address@),
        r@.payment_sat == spec_payment_value(output_views(outputs@), known_recipient_address@),
        r@.change_address == spec_change_address(output_views(outputs@), known_recipient_address@),
        r@.change_sat == spec_change_value(output_views(outputs@), known_recipient_address@),
{
    let ghost outm = output_views(outputs@);
    let ghost knownv = known_recipient_address@;
    let mut payment_address = String::new();
    let mut payment_sat: u64 = 0;
    let mut change_address = String::new();
    let mut change_sat: u64 = 0;
    let mut i: usize = 0;
    proof {
        assert(outm.take(0) =~= Seq::<ResolvedOutputModel>::empty());
    }
    while i < outputs.len()
        invariant
            0 <= i <= outputs.len(),
            outm == output_views(outputs@),
            knownv == known_recipient_address@,
            outm.len() == outputs.len(),
            payment_address@ == spec_payment_address(outm.take(i as int), knownv),
            payment_sat as int == spec_payment_value(outm.take(i as int), knownv),
            change_address@ == spec_change_address(outm.take(i as int), knownv),
            change_sat as int == spec_change_value(outm.take(i as int), knownv),
        decreases outputs.len() - i,
    {
        proof {
            assert(outm.take(i as int + 1).drop_last() =~= outm.take(i as int));
            assert(outm.take(i as int + 1).last() == outputs@[i as int]@);
        }
        let output = &outputs[i];
        let addr = resolved_address(output);
        if addr == *known_recipient_address {
            payment_address = addr;
            payment_sat = output.value_sat;
        } else {
            change_address = addr;
            change_sat = output.value_sat;
        }
        i = i + 1;
    }
    proof {
        assert(outm.take(i as int) =~= outm);
    }
    OutputSummary { payment_address, payment_sat, change_address, change_sat }
}

/// Law: for a transaction with exactly two outputs of which exactly one
/// resolves to the known recipient address, the payment slot carries that
/// output and the change slot the other, whichever order the two come
/// in.
pub proof fn lemma_two_outputs_classified(
    a: ResolvedOutputModel,
    b: ResolvedOutputModel,
    known: Seq<char>,
)
    requires
        spec_resolved_address(a) == known,
        spec_resolved_address(b) != known,
    ensures
        spec_payment_address(seq![a, b], known) == known,
        spec_payment_value(seq![a, b], known) == a.value_sat,
        spec_change_address(seq![a, b], known) == spec_resolved_address(b),
        spec_change_value(seq![a, b], known) == b.value_sat,
        spec_payment_address(seq![b, a], known) == known,
        spec_payment_value(seq![b, a], known) == a.value_sat,
        spec_change_address(seq![b, a], known) == spec_resolved_address(b),
        spec_change_value(seq![b, a], known) == b.value_sat,
{
    assert(seq![a, b].drop_last() =~= seq![a]);
    assert(seq![b, a].drop_last() =~= seq![b]);
    assert(seq![a].drop_last() =~= Seq::<ResolvedOutputModel>::empty());
    assert(seq![b].drop_last() =~= Seq::<ResolvedOutputModel>::empty());
    assert(spec_payment_address(seq![a], known) == known);
    assert(spec_payment_value(seq![a], known) == a.value_sat);
    assert(spec_change_address(seq![b], known) == spec_resolved_address(b));
    assert(spec_change_value(seq![b], known) == b.value_sat);
    assert(spec_payment_address(seq![a, b], known) == spec_payment_address(seq![a], known));
    assert(spec_payment_value(seq![a, b], known) == spec_payment_value(seq![a], known));
    assert(spec_change_address(seq![b, a], known) == spec_change_address(seq![b], known));
    assert(spec_change_value(seq![b, a], known) == spec_change_value(seq![b], known));
}

/// Law: for a transaction in which no output resolves to the known
/// recipient address, every output is classified as change, and the
/// payment slot keeps its defaults — empty address, zero value — while
/// the change slot carries the last output.
pub proof fn lemma_no_match_all_change(outputs: Seq<ResolvedOutputModel>, known: Seq<char>)
    requires
        forall|i: int|
            0 <= i < outputs.len() ==> spec_resolved_address(#[trigger] outputs[i]) != known,
    ensures
        forall|i: int|
            0 <= i < outputs.len() ==> spec_output_role(#[trigger] outputs[i], known)
                == OutputRole::Change,
        spec_payment_address(outputs, known) == Seq::<char>::empty(),
        spec_payment_value(outputs, known) == 0,
        outputs.len() > 0 ==> spec_change_address(outputs, known) == spec_resolved_address(
            outputs.last(),
        ),
        outputs.len() > 0 ==> spec_change_value(outputs, known) == outputs.last().value_sat,
    decreases outputs.len(),
{
    if outputs.len() > 0 {
        lemma_no_match_all_change(outputs.drop_last(), known);
    }
}

} // verus!
