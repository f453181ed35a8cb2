use plonk_proof::prover_proof::{
    caml_pasta_fp_plonk_proof_deep_copy, caml_pasta_fp_plonk_proof_dummy, PointEvaluations,
    PolyComm, RecursionChallenge, SIGMAS,
};

#[test]
fn dummy_has_the_shape_of_a_proof() {
    let proof = caml_pasta_fp_plonk_proof_dummy('g', 1u64);
    let comm = PolyComm { unshifted: vec!['g', 'g', 'g'], shifted: Some('g') };
    let eval = PointEvaluations { zeta: vec![1u64], zeta_omega: vec![1u64] };

    assert_eq!(proof.commitments.w_comm.len(), 15);
    for c in proof.commitments.w_comm.iter() {
        assert_eq!(*c, comm);
    }
    assert_eq!(proof.commitments.z_comm, comm);
    assert_eq!(proof.commitments.t_comm, comm);
    assert_eq!(proof.commitments.lookup, None);

    assert_eq!(proof.proof.lr, vec![('g', 'g'), ('g', 'g'), ('g', 'g')]);
    assert_eq!(proof.proof.z1, 1);
    assert_eq!(proof.proof.z2, 1);
    assert_eq!(proof.proof.delta, 'g');
    assert_eq!(proof.proof.sg, 'g');

    assert_eq!(SIGMAS, 6);
    assert_eq!(proof.evals.w.len(), 15);
    assert_eq!(proof.evals.coefficients.len(), 15);
    assert_eq!(proof.evals.s.len(), 6);
    for e in proof.evals.w.iter().chain(proof.evals.coefficients.iter()).chain(proof.evals.s.iter())
    {
        assert_eq!(*e, eval);
    }
    assert_eq!(proof.evals.z, eval);
    assert_eq!(proof.evals.generic_selector, eval);
    assert_eq!(proof.evals.poseidon_selector, eval);
    assert_eq!(proof.evals.lookup, None);

    assert_eq!(proof.ft_eval1, 1);
    assert_eq!(proof.public, vec![1, 1]);
    let prev = RecursionChallenge { chals: vec![1u64, 1], comm: comm.clone() };
    assert_eq!(proof.prev_challenges, vec![prev.clone(), prev.clone(), prev]);
}

#[test]
fn dummy_is_made_of_the_point_and_the_scalar_it_is_given() {
    let proof = caml_pasta_fp_plonk_proof_dummy(3u8, 'x');
    assert_eq!(proof.commitments.z_comm.unshifted, vec![3, 3, 3]);
    assert_eq!(proof.public, vec!['x', 'x']);
    assert_ne!(proof.public, vec!['y', 'y']);
}

#[test]
fn deep_copy_is_equal_in_every_field() {
    let proof = caml_pasta_fp_plonk_proof_dummy('g', 1u64);
    let copy = caml_pasta_fp_plonk_proof_deep_copy(proof.clone());
    assert_eq!(copy, proof);
    assert_eq!(copy.commitments, proof.commitments);
    assert_eq!(copy.proof, proof.proof);
    assert_eq!(copy.evals, proof.evals);
    assert_eq!(copy.ft_eval1, proof.ft_eval1);
    assert_eq!(copy.public, proof.public);
    assert_eq!(copy.prev_challenges, proof.prev_challenges);
}

#[test]
fn deep_copy_shares_nothing_with_what_it_was_made_from() {
    let proof = caml_pasta_fp_plonk_proof_dummy('g', 1u64);
    let mut copy = caml_pasta_fp_plonk_proof_deep_copy(proof.clone());
    copy.public.push(2);
    copy.commitments.w_comm[0].unshifted.clear();
    copy.prev_challenges[1].chals[0] = 9;
    assert_eq!(proof, caml_pasta_fp_plonk_proof_dummy('g', 1u64));
    assert_ne!(copy, proof);
}
