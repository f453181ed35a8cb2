use plonk_proof::prover::{caml_pasta_fp_plonk_proof_create, proved, ProofError};
use plonk_proof::prover_proof::{caml_pasta_fp_plonk_proof_dummy, PolyComm, RecursionChallenge};
use plonk_proof::recursion::FoldError;

fn columns(count: usize) -> Vec<Vec<u64>> {
    (0..count).map(|c| vec![c as u64, 10 * c as u64]).collect()
}

#[test]
fn request_holds_the_columns_and_the_folded_challenges() {
    let request =
        caml_pasta_fp_plonk_proof_create(columns(15), vec![1u64, 2, 3, 4], vec!['x', 'y']).unwrap();
    for c in 0..15 {
        assert_eq!(request.witness[c], vec![c as u64, 10 * c as u64]);
    }
    assert_eq!(
        request.prev_challenges,
        vec![
            RecursionChallenge {
                chals: vec![1, 2],
                comm: PolyComm { unshifted: vec!['x'], shifted: None },
            },
            RecursionChallenge {
                chals: vec![3, 4],
                comm: PolyComm { unshifted: vec!['y'], shifted: None },
            },
        ]
    );
}

#[test]
fn request_without_earlier_proofs_has_no_recursion_challenges() {
    let none: Vec<char> = vec![];
    let request = caml_pasta_fp_plonk_proof_create(columns(15), vec![], none).unwrap();
    assert!(request.prev_challenges.is_empty());
}

#[test]
fn witness_must_have_fifteen_columns() {
    for count in [0usize, 1, 14, 16, 30] {
        let none: Vec<char> = vec![];
        assert_eq!(
            caml_pasta_fp_plonk_proof_create(columns(count), vec![], none),
            Err(ProofError::WitnessColumns)
        );
    }
}

#[test]
fn columns_may_be_empty_or_of_different_lengths() {
    let mut witness = columns(15);
    witness[3] = vec![];
    witness[4] = vec![1, 2, 3, 4, 5];
    let none: Vec<char> = vec![];
    let request = caml_pasta_fp_plonk_proof_create(witness.clone(), vec![], none).unwrap();
    assert_eq!(request.witness.to_vec(), witness);
}

#[test]
fn challenges_that_cannot_be_folded_are_rejected() {
    let none: Vec<char> = vec![];
    assert_eq!(
        caml_pasta_fp_plonk_proof_create(columns(15), vec![1u64], none),
        Err(ProofError::Fold(FoldError::NoCommitments))
    );
    assert_eq!(
        caml_pasta_fp_plonk_proof_create(columns(15), vec![1u64, 2, 3], vec!['x', 'y']),
        Err(ProofError::Fold(FoldError::UnevenChallenges))
    );
}

#[test]
fn folding_is_checked_before_the_witness() {
    assert_eq!(
        caml_pasta_fp_plonk_proof_create(columns(3), vec![1u64, 2, 3], vec!['x', 'y']),
        Err(ProofError::Fold(FoldError::UnevenChallenges))
    );
}

#[test]
fn errors_say_what_is_wrong() {
    assert_eq!(
        ProofError::WitnessColumns.message(),
        "witness must have exactly 15 columns"
    );
    assert_eq!(
        ProofError::Fold(FoldError::NoCommitments).message(),
        "challenges of earlier proofs need a commitment to go with"
    );
    assert_eq!(
        ProofError::Fold(FoldError::UnevenChallenges).message(),
        "the challenges of earlier proofs must divide evenly among the commitments"
    );
    assert_eq!(
        ProofError::Prover("the witness does not satisfy the circuit".to_string()).message(),
        "the witness does not satisfy the circuit"
    );
}

#[test]
fn failure_of_the_prover_is_handed_on() {
    let failed: Result<_, ProofError> =
        proved::<u64, char>(Err("constraint 3 is not satisfied".to_string()));
    assert_eq!(failed, Err(ProofError::Prover("constraint 3 is not satisfied".to_string())));
    let proof = caml_pasta_fp_plonk_proof_dummy('g', 1u64);
    assert_eq!(proved(Ok(proof.clone())), Ok(proof));
}
