//! What is done before the verifier is called, and with what it returns.
//!
//! The verifier checks a batch of proofs, each against its verifier index, and
//! accepts or rejects the batch as a whole. `I` is the type of a verifier
//! index and `P` the type of a proof.

use vstd::prelude::*;

verus! {

/// The pairs of the items of `indexes` and `proofs` that stand at the same
/// place. Items of the longer list that have no partner are left out.
pub open spec fn paired<I, P>(indexes: Seq<I>, proofs: Seq<P>) -> Seq<(I, P)> {
    Seq::new(
        if indexes.len() <= proofs.len() {
            indexes.len()
        } else {
            proofs.len()
        },
        |i: int| (indexes[i], proofs[i]),
    )
}

/// The batch that the verifier checks for one proof.
pub fn caml_pasta_fp_plonk_proof_verify<I, P>(index: I, proof: P) -> (batch: Vec<(I, P)>)
    ensures
        batch@ == seq![(index, proof)],
{
    vec![(index, proof)]
}

/// The batch that the verifier checks for several proofs: proof `i` goes with
/// index `i`.
pub fn caml_pasta_fp_plonk_proof_batch_verify<I, P>(indexes: Vec<I>, proofs: Vec<P>) -> (batch:
    Vec<(I, P)>)
    ensures
        batch@ == paired(indexes@, proofs@),
{
    let mut indexes = indexes;
    let mut proofs = proofs;
    let ghost all_indexes = indexes@;
    let ghost all_proofs = proofs@;
    let count = if indexes.len() <= proofs.len() {
        indexes.len()
    } else {
        proofs.len()
    };
    indexes.truncate(count);
    proofs.truncate(count);
    // The pairs are taken from the end, so they come out in reverse.
    let mut reversed: Vec<(I, P)> = Vec::new();
    while indexes.len() > 0
        invariant
            indexes.len() == proofs.len(),
            indexes.len() + reversed.len() == count,
            count <= all_indexes.len(),
            count <= all_proofs.len(),
            indexes@ == all_indexes.take(indexes.len() as int),
            proofs@ == all_proofs.take(proofs.len() as int),
            forall|j: int|
                0 <= j < reversed.len() ==> #[trigger] reversed[j] == (
                    all_indexes[count - 1 - j],
                    all_proofs[count - 1 - j],
                ),
        decreases indexes.len(),
    {
        let index = indexes.pop();
        let proof = proofs.pop();
        match (index, proof) {
            (Some(index), Some(proof)) => {
                reversed.push((index, proof));
            },
            _ => {},
        }
    }
    let mut batch: Vec<(I, P)> = Vec::new();
    while reversed.len() > 0
        invariant
            reversed.len() + batch.len() == count,
            count <= all_indexes.len(),
            count <= all_proofs.len(),
            forall|j: int|
                0 <= j < reversed.len() ==> #[trigger] reversed[j] == (
                    all_indexes[count - 1 - j],
                    all_proofs[count - 1 - j],
                ),
            forall|j: int| 0 <= j < batch.len() ==> #[trigger] batch[j] == (all_indexes[j], all_proofs[j]),
        decreases reversed.len(),
    {
        match reversed.pop() {
            Some(pair) => {
                batch.push(pair);
            },
            None => {},
        }
    }
    assert(batch@ =~= paired(all_indexes, all_proofs));
    batch
}

/// Whether the verifier has accepted the batch. A batch that it found wrong
/// is rejected as a whole; to reject is no failure of this function.
pub fn accepted<E>(outcome: &Result<(), E>) -> (accept: bool)
    ensures
        accept == (outcome is Ok),
{
    outcome.is_ok()
}

} // verus!
