//! The shape of a proof.
//!
//! `F` is the type of a scalar and `G` the type of a curve point. A proof is
//! made by the prover and read by the verifier; this crate holds it, builds a
//! placeholder of the right shape and hands proofs on.

use crate::wires::COLUMNS;
use vstd::prelude::*;

verus! {

/// Number of columns of the permutation that a proof evaluates.
pub const SIGMAS: usize = 6;

/// A commitment to a polynomial, in chunks.
#[derive(Clone, Debug, PartialEq, Eq)]
pub struct PolyComm<G> {
    pub unshifted: Vec<G>,
    pub shifted: Option<G>,
}

/// What a commitment holds.
#[verifier::ext_equal]
pub struct PolyCommView<G> {
    pub unshifted: Seq<G>,
    pub shifted: Option<G>,
}

impl<G> View for PolyComm<G> {
    type V = PolyCommView<G>;

    open spec fn view(&self) -> PolyCommView<G> {
        PolyCommView { unshifted: self.unshifted@, shifted: self.shifted }
    }
}

/// The challenges of an earlier proof, folded, with the commitment of its
/// accumulator.
#[derive(Clone, Debug, PartialEq, Eq)]
pub struct RecursionChallenge<F, G> {
    pub chals: Vec<F>,
    pub comm: PolyComm<G>,
}

/// What a recursion challenge holds.
#[verifier::ext_equal]
pub struct RecursionChallengeView<F, G> {
    pub chals: Seq<F>,
    pub comm: PolyCommView<G>,
}

impl<F, G> View for RecursionChallenge<F, G> {
    type V = RecursionChallengeView<F, G>;

    open spec fn view(&self) -> RecursionChallengeView<F, G> {
        RecursionChallengeView { chals: self.chals@, comm: self.comm@ }
    }
}

/// The proof that the committed polynomials open to the claimed values.
#[derive(Clone, Debug, PartialEq, Eq)]
pub struct OpeningProof<F, G> {
    pub lr: Vec<(G, G)>,
    pub delta: G,
    pub z1: F,
    pub z2: F,
    pub sg: G,
}

/// What an opening proof holds.
#[verifier::ext_equal]
pub struct OpeningProofView<F, G> {
    pub lr: Seq<(G, G)>,
    pub delta: G,
    pub z1: F,
    pub z2: F,
    pub sg: G,
}

impl<F, G> View for OpeningProof<F, G> {
    type V = OpeningProofView<F, G>;

    open spec fn view(&self) -> OpeningProofView<F, G> {
        OpeningProofView {
            lr: self.lr@,
            delta: self.delta,
            z1: self.z1,
            z2: self.z2,
            sg: self.sg,
        }
    }
}

/// The values of one polynomial at the challenge point and at the challenge
/// point shifted by the generator of the domain.
#[derive(Clone, Debug, PartialEq, Eq)]
pub struct PointEvaluations<F> {
    pub zeta: Vec<F>,
    pub zeta_omega: Vec<F>,
}

/// What a pair of evaluations holds.
#[verifier::ext_equal]
pub struct PointEvaluationsView<F> {
    pub zeta: Seq<F>,
    pub zeta_omega: Seq<F>,
}

impl<F> View for PointEvaluations<F> {
    type V = PointEvaluationsView<F>;

    open spec fn view(&self) -> PointEvaluationsView<F> {
        PointEvaluationsView { zeta: self.zeta@, zeta_omega: self.zeta_omega@ }
    }
}

/// The evaluations of the lookup polynomials.
#[derive(Clone, Debug, PartialEq, Eq)]
pub struct LookupEvaluations<F> {
    pub sorted: Vec<PointEvaluations<F>>,
    pub aggreg: PointEvaluations<F>,
    pub table: PointEvaluations<F>,
    pub runtime: Option<PointEvaluations<F>>,
}

/// What the evaluations of the lookup polynomials hold.
#[verifier::ext_equal]
pub struct LookupEvaluationsView<F> {
    pub sorted: Seq<PointEvaluationsView<F>>,
    pub aggreg: PointEvaluationsView<F>,
    pub table: PointEvaluationsView<F>,
    pub runtime: Option<PointEvaluationsView<F>>,
}

impl<F> View for LookupEvaluations<F> {
    type V = LookupEvaluationsView<F>;

    open spec fn view(&self) -> LookupEvaluationsView<F> {
        LookupEvaluationsView {
            sorted: self.sorted@.map_values(|e: PointEvaluations<F>| e@),
            aggreg: self.aggreg@,
            table: self.table@,
            runtime: match self.runtime {
                Some(e) => Some(e@),
                None => None,
            },
        }
    }
}

/// The evaluations that a proof claims.
#[derive(Clone, Debug, PartialEq, Eq)]
pub struct ProofEvaluations<F> {
    /// The witness columns.
    pub w: [PointEvaluations<F>; COLUMNS],
    /// The permutation polynomial.
    pub z: PointEvaluations<F>,
    /// The columns of the permutation, but for the last.
    pub s: [PointEvaluations<F>; SIGMAS],
    /// The coefficient columns.
    pub coefficients: [PointEvaluations<F>; COLUMNS],
    pub lookup: Option<LookupEvaluations<F>>,
    pub generic_selector: PointEvaluations<F>,
    pub poseidon_selector: PointEvaluations<F>,
}

/// What the evaluations of a proof hold.
#[verifier::ext_equal]
pub struct ProofEvaluationsView<F> {
    pub w: Seq<PointEvaluationsView<F>>,
    pub z: PointEvaluationsView<F>,
    pub s: Seq<PointEvaluationsView<F>>,
    pub coefficients: Seq<PointEvaluationsView<F>>,
    pub lookup: Option<LookupEvaluationsView<F>>,
    pub generic_selector: PointEvaluationsView<F>,
    pub poseidon_selector: PointEvaluationsView<F>,
}

impl<F> View for ProofEvaluations<F> {
    type V = ProofEvaluationsView<F>;

    open spec fn view(&self) -> ProofEvaluationsView<F> {
        ProofEvaluationsView {
            w: self.w@.map_values(|e: PointEvaluations<F>| e@),
            z: self.z@,
            s: self.s@.map_values(|e: PointEvaluations<F>| e@),
            coefficients: self.coefficients@.map_values(|e: PointEvaluations<F>| e@),
            lookup: match self.lookup {
                Some(l) => Some(l@),
                None => None,
            },
            generic_selector: self.generic_selector@,
            poseidon_selector: self.poseidon_selector@,
        }
    }
}

/// The commitments to the lookup polynomials.
#[derive(Clone, Debug, PartialEq, Eq)]
pub struct LookupCommitments<G> {
    pub sorted: Vec<PolyComm<G>>,
    pub aggreg: PolyComm<G>,
    pub runtime: Option<PolyComm<G>>,
}

/// What the commitments to the lookup polynomials hold.
#[verifier::ext_equal]
pub struct LookupCommitmentsView<G> {
    pub sorted: Seq<PolyCommView<G>>,
    pub aggreg: PolyCommView<G>,
    pub runtime: Option<PolyCommView<G>>,
}

impl<G> View for LookupCommitments<G> {
    type V = LookupCommitmentsView<G>;

    open spec fn view(&self) -> LookupCommitmentsView<G> {
        LookupCommitmentsView {
            sorted: self.sorted@.map_values(|c: PolyComm<G>| c@),
            aggreg: self.aggreg@,
            runtime: match self.runtime {
                Some(c) => Some(c@),
                None => None,
            },
        }
    }
}

/// The commitments of a proof.
#[derive(Clone, Debug, PartialEq, Eq)]
pub struct ProverCommitments<G> {
    /// To the witness columns.
    pub w_comm: [PolyComm<G>; COLUMNS],
    /// To the permutation polynomial.
    pub z_comm: PolyComm<G>,
    /// To the quotient polynomial.
    pub t_comm: PolyComm<G>,
    pub lookup: Option<LookupCommitments<G>>,
}

/// What the commitments of a proof hold.
#[verifier::ext_equal]
pub struct ProverCommitmentsView<G> {
    pub w_comm: Seq<PolyCommView<G>>,
    pub z_comm: PolyCommView<G>,
    pub t_comm: PolyCommView<G>,
    pub lookup: Option<LookupCommitmentsView<G>>,
}

impl<G> View for ProverCommitments<G> {
    type V = ProverCommitmentsView<G>;

    open spec fn view(&self) -> ProverCommitmentsView<G> {
        ProverCommitmentsView {
            w_comm: self.w_comm@.map_values(|c: PolyComm<G>| c@),
            z_comm: self.z_comm@,
            t_comm: self.t_comm@,
            lookup: match self.lookup {
                Some(l) => Some(l@),
                None => None,
            },
        }
    }
}

/// A proof.
#[derive(Clone, Debug, PartialEq, Eq)]
pub struct ProverProof<F, G> {
    pub commitments: ProverCommitments<G>,
    pub proof: OpeningProof<F, G>,
    pub evals: ProofEvaluations<F>,
    /// The value of the linearised quotient at the shifted challenge point.
    pub ft_eval1: F,
    /// The public inputs.
    pub public: Vec<F>,
    /// The earlier proofs that this proof carries on.
    pub prev_challenges: Vec<RecursionChallenge<F, G>>,
}

/// What a proof holds.
#[verifier::ext_equal]
pub struct ProverProofView<F, G> {
    pub commitments: ProverCommitmentsView<G>,
    pub proof: OpeningProofView<F, G>,
    pub evals: ProofEvaluationsView<F>,
    pub ft_eval1: F,
    pub public: Seq<F>,
    pub prev_challenges: Seq<RecursionChallengeView<F, G>>,
}

impl<F, G> View for ProverProof<F, G> {
    type V = ProverProofView<F, G>;

    open spec fn view(&self) -> ProverProofView<F, G> {
        ProverProofView {
            commitments: self.commitments@,
            proof: self.proof@,
            evals: self.evals@,
            ft_eval1: self.ft_eval1,
            public: self.public@,
            prev_challenges: self.prev_challenges@.map_values(|c: RecursionChallenge<F, G>| c@),
        }
    }
}

/// The commitment of the placeholder: three chunks and a shifted part, all
/// the point `g`.
pub open spec fn dummy_comm<G>(g: G) -> PolyCommView<G> {
    PolyCommView { unshifted: seq![g, g, g], shifted: Some(g) }
}

/// The evaluations of the placeholder: one chunk at either point, the scalar
/// `one`.
pub open spec fn dummy_eval<F>(one: F) -> PointEvaluationsView<F> {
    PointEvaluationsView { zeta: seq![one], zeta_omega: seq![one] }
}

/// The placeholder: every point is `g` and every scalar is `one`. It has
/// three rounds in its opening proof, two public inputs and three earlier
/// proofs of two challenges each, and nothing for lookups.
pub open spec fn dummy_proof<F, G>(g: G, one: F) -> ProverProofView<F, G> {
    ProverProofView {
        commitments: ProverCommitmentsView {
            w_comm: Seq::new(COLUMNS as nat, |i: int| dummy_comm(g)),
            z_comm: dummy_comm(g),
            t_comm: dummy_comm(g),
            lookup: None,
        },
        proof: OpeningProofView { lr: seq![(g, g), (g, g), (g, g)], delta: g, z1: one, z2: one, sg: g },
        evals: ProofEvaluationsView {
            w: Seq::new(COLUMNS as nat, |i: int| dummy_eval(one)),
            z: dummy_eval(one),
            s: Seq::new(SIGMAS as nat, |i: int| dummy_eval(one)),
            coefficients: Seq::new(COLUMNS as nat, |i: int| dummy_eval(one)),
            lookup: None,
            generic_selector: dummy_eval(one),
            poseidon_selector: dummy_eval(one),
        },
        ft_eval1: one,
        public: seq![one, one],
        prev_challenges: Seq::new(
            3,
            |i: int| RecursionChallengeView { chals: seq![one, one], comm: dummy_comm(g) },
        ),
    }
}

fn comm<G: Copy>(g: G) -> (c: PolyComm<G>)
    ensures
        c@ == dummy_comm(g),
{
    let c = PolyComm { unshifted: vec![g, g, g], shifted: Some(g) };
    assert(c@ =~= dummy_comm(g));
    c
}

fn eval<F: Copy>(one: F) -> (e: PointEvaluations<F>)
    ensures
        e@ == dummy_eval(one),
{
    let e = PointEvaluations { zeta: vec![one], zeta_omega: vec![one] };
    assert(e@ =~= dummy_eval(one));
    e
}

fn prev<F: Copy, G: Copy>(g: G, one: F) -> (p: RecursionChallenge<F, G>)
    ensures
        p@ == (RecursionChallengeView { chals: seq![one, one], comm: dummy_comm(g) }),
{
    let p = RecursionChallenge { chals: vec![one, one], comm: comm(g) };
    assert(p@ =~= (RecursionChallengeView { chals: seq![one, one], comm: dummy_comm(g) }));
    p
}

/// A proof of the right shape that proves nothing: every point is `g`, every
/// scalar is `one`.
pub fn caml_pasta_fp_plonk_proof_dummy<F: Copy, G: Copy>(g: G, one: F) -> (proof: ProverProof<F, G>)
    ensures
        proof@ == dummy_proof(g, one),
{
    let prev_challenges = vec![prev(g, one), prev(g, one), prev(g, one)];
    let opening = OpeningProof { lr: vec![(g, g), (g, g), (g, g)], z1: one, z2: one, delta: g, sg: g };
    let evals = ProofEvaluations {
        w: [
            eval(one),
            eval(one),
            eval(one),
            eval(one),
            eval(one),
            eval(one),
            eval(one),
            eval(one),
            eval(one),
            eval(one),
            eval(one),
            eval(one),
            eval(one),
            eval(one),
            eval(one),
        ],
        coefficients: [
            eval(one),
            eval(one),
            eval(one),
            eval(one),
            eval(one),
            eval(one),
            eval(one),
            eval(one),
            eval(one),
            eval(one),
            eval(one),
            eval(one),
            eval(one),
            eval(one),
            eval(one),
        ],
        z: eval(one),
        s: [eval(one), eval(one), eval(one), eval(one), eval(one), eval(one)],
        lookup: None,
        generic_selector: eval(one),
        poseidon_selector: eval(one),
    };
    let commitments = ProverCommitments {
        w_comm: [
            comm(g),
            comm(g),
            comm(g),
            comm(g),
            comm(g),
            comm(g),
            comm(g),
            comm(g),
            comm(g),
            comm(g),
            comm(g),
            comm(g),
            comm(g),
            comm(g),
            comm(g),
        ],
        z_comm: comm(g),
        t_comm: comm(g),
        lookup: None,
    };
    let proof = ProverProof {
        commitments,
        proof: opening,
        evals,
        ft_eval1: one,
        public: vec![one, one],
        prev_challenges,
    };
    assert(proof@.commitments =~= dummy_proof(g, one).commitments);
    assert(proof@.proof =~= dummy_proof(g, one).proof);
    assert(proof@.evals =~= dummy_proof(g, one).evals);
    assert(proof@.public =~= dummy_proof(g, one).public);
    assert(proof@.prev_challenges =~= dummy_proof(g, one).prev_challenges);
    assert(proof@ =~= dummy_proof(g, one));
    proof
}

/// Hands a proof on as a value of its own. The proof is taken whole and given
/// back whole, so nothing of it is shared with the caller afterwards.
pub fn caml_pasta_fp_plonk_proof_deep_copy<F, G>(x: ProverProof<F, G>) -> (copy: ProverProof<F, G>)
    ensures
        copy == x,
{
    x
}

} // verus!
