//! What is done before the prover is called, and with what it returns.

use crate::prover_proof::{ProverProof, RecursionChallenge, RecursionChallengeView};
use crate::recursion::{fold_challenges, fold_checked, views, FoldError};
use crate::wires::COLUMNS;
use vstd::prelude::*;

verus! {

/// Why there is no proof.
#[derive(Clone, Debug, PartialEq, Eq)]
pub enum ProofError {
    /// The challenges of the earlier proofs cannot be folded.
    Fold(FoldError),
    /// The witness does not have fifteen columns.
    WitnessColumns,
    /// The prover failed, with this message.
    Prover(String),
}

impl ProofError {
    /// What [`ProofError::message`] says of this error.
    pub open spec fn text(self) -> Seq<char> {
        match self {
            ProofError::Fold(FoldError::NoCommitments) =>
                "challenges of earlier proofs need a commitment to go with"@,
            ProofError::Fold(FoldError::UnevenChallenges) =>
                "the challenges of earlier proofs must divide evenly among the commitments"@,
            ProofError::WitnessColumns => "witness must have exactly 15 columns"@,
            ProofError::Prover(message) => message@,
        }
    }

    /// The error in words.
    pub fn message(&self) -> (message: String)
        ensures
            message@ == self.text(),
    {
        match self {
            ProofError::Fold(FoldError::NoCommitments) =>
                "challenges of earlier proofs need a commitment to go with".to_owned(),
            ProofError::Fold(FoldError::UnevenChallenges) =>
                "the challenges of earlier proofs must divide evenly among the commitments".to_owned(),
            ProofError::WitnessColumns => "witness must have exactly 15 columns".to_owned(),
            ProofError::Prover(message) => message.clone(),
        }
    }
}

/// What the prover is called with, besides the index of the circuit.
#[derive(Clone, Debug, PartialEq, Eq)]
pub struct ProofRequest<F, G> {
    pub witness: [Vec<F>; COLUMNS],
    pub prev_challenges: Vec<RecursionChallenge<F, G>>,
}

/// What [`caml_pasta_fp_plonk_proof_create`] returns: the error of the
/// folding, if there is one; else the error of a witness that does not have
/// fifteen columns; else the columns of the witness and the folded challenges.
pub open spec fn request_checked<F, G>(
    witness: Seq<Vec<F>>,
    prev_challenges: Seq<F>,
    prev_sgs: Seq<G>,
) -> Result<(Seq<Vec<F>>, Seq<RecursionChallengeView<F, G>>), ProofError> {
    match fold_checked(prev_challenges, prev_sgs) {
        Err(e) => Err(ProofError::Fold(e)),
        Ok(prev) => if witness.len() != COLUMNS {
            Err(ProofError::WitnessColumns)
        } else {
            Ok((witness, prev))
        },
    }
}

/// Takes the last column out of `columns`.
fn last_column<F>(columns: &mut Vec<Vec<F>>) -> (column: Vec<F>)
    requires
        old(columns).len() > 0,
    ensures
        column == old(columns)[old(columns).len() - 1],
        final(columns)@ == old(columns)@.take(old(columns).len() - 1),
{
    let column = columns.pop();
    match column {
        Some(column) => column,
        None => Vec::new(),
    }
}

/// Makes ready what the prover needs: folds the challenges of the earlier
/// proofs `prev_challenges` with their commitments `prev_sgs`, and holds the
/// witness to its fifteen columns.
pub fn caml_pasta_fp_plonk_proof_create<F: Copy, G: Copy>(
    witness: Vec<Vec<F>>,
    prev_challenges: Vec<F>,
    prev_sgs: Vec<G>,
) -> (result: Result<ProofRequest<F, G>, ProofError>)
    ensures
        match request_checked(witness@, prev_challenges@, prev_sgs@) {
            Ok((columns, prev)) => {
                &&& result is Ok
                &&& result->Ok_0.witness@ == columns
                &&& views(result->Ok_0.prev_challenges@) == prev
            },
            Err(e) => result is Err && result->Err_0 == e,
        },
{
    let prev = match fold_challenges(&prev_challenges, &prev_sgs) {
        Ok(prev) => prev,
        Err(e) => {
            return Err(ProofError::Fold(e));
        },
    };
    if witness.len() != COLUMNS {
        return Err(ProofError::WitnessColumns);
    }
    let mut columns = witness;
    let c14 = last_column(&mut columns);
    let c13 = last_column(&mut columns);
    let c12 = last_column(&mut columns);
    let c11 = last_column(&mut columns);
    let c10 = last_column(&mut columns);
    let c9 = last_column(&mut columns);
    let c8 = last_column(&mut columns);
    let c7 = last_column(&mut columns);
    let c6 = last_column(&mut columns);
    let c5 = last_column(&mut columns);
    let c4 = last_column(&mut columns);
    let c3 = last_column(&mut columns);
    let c2 = last_column(&mut columns);
    let c1 = last_column(&mut columns);
    let c0 = last_column(&mut columns);
    let request = ProofRequest {
        witness: [c0, c1, c2, c3, c4, c5, c6, c7, c8, c9, c10, c11, c12, c13, c14],
        prev_challenges: prev,
    };
    assert(request.witness@ =~= witness@);
    Ok(request)
}

/// What the caller gets once the prover has returned: the proof, or the
/// prover's failure as an error.
pub fn proved<F, G>(outcome: Result<ProverProof<F, G>, String>) -> (result: Result<
    ProverProof<F, G>,
    ProofError,
>)
    ensures
        match outcome {
            Ok(proof) => result == Ok::<_, ProofError>(proof),
            Err(message) => result == Err::<ProverProof<F, G>, _>(ProofError::Prover(message)),
        },
{
    match outcome {
        Ok(proof) => Ok(proof),
        Err(message) => Err(ProofError::Prover(message)),
    }
}

} // verus!
