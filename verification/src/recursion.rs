//! Folding earlier proofs into a new one.
//!
//! The challenges of all earlier proofs arrive in one list, their accumulator
//! commitments in another. The challenges are cut into as many pieces of
//! equal length as there are commitments, and piece `i` goes with commitment
//! `i`.

use crate::prover_proof::{PolyComm, PolyCommView, RecursionChallenge, RecursionChallengeView};
use vstd::prelude::*;

verus! {

/// Why the challenges cannot be folded.
#[derive(Clone, Copy, Debug, PartialEq, Eq, Structural)]
pub enum FoldError {
    /// There are challenges, but no commitment to go with them.
    NoCommitments,
    /// The challenges cannot be dealt out evenly to the commitments.
    UnevenChallenges,
}

/// The challenges of `challenges` that go with commitment `i`, when each
/// commitment gets `size` of them.
pub open spec fn piece<F>(challenges: Seq<F>, size: int, i: int) -> Seq<F> {
    challenges.subrange(i * size, (i + 1) * size)
}

/// The challenges dealt out to the commitments, each commitment held as a
/// commitment of one chunk.
pub open spec fn folded<F, G>(challenges: Seq<F>, commitments: Seq<G>) -> Seq<
    RecursionChallengeView<F, G>,
> {
    let size = challenges.len() as int / commitments.len() as int;
    Seq::new(
        commitments.len(),
        |i: int|
            RecursionChallengeView {
                chals: piece(challenges, size, i),
                comm: PolyCommView { unshifted: seq![commitments[i]], shifted: None },
            },
    )
}

/// What [`fold_challenges`] returns.
pub open spec fn fold_checked<F, G>(challenges: Seq<F>, commitments: Seq<G>) -> Result<
    Seq<RecursionChallengeView<F, G>>,
    FoldError,
> {
    if commitments.len() == 0 {
        if challenges.len() == 0 {
            Ok(Seq::empty())
        } else {
            Err(FoldError::NoCommitments)
        }
    } else if challenges.len() % commitments.len() != 0 {
        Err(FoldError::UnevenChallenges)
    } else {
        Ok(folded(challenges, commitments))
    }
}

/// What a list of recursion challenges holds.
pub open spec fn views<F, G>(list: Seq<RecursionChallenge<F, G>>) -> Seq<
    RecursionChallengeView<F, G>,
> {
    list.map_values(|c: RecursionChallenge<F, G>| c@)
}

proof fn lemma_piece_bounds(len: int, count: int, size: int, i: int)
    requires
        count > 0,
        0 <= i < count,
        len >= 0,
        len % count == 0,
        size == len / count,
    ensures
        0 <= i * size,
        i * size + size == (i + 1) * size,
        (i + 1) * size <= len,
        size >= 0,
        count * size == len,
{
    assert(len == count * size) by (nonlinear_arith)
        requires
            count > 0,
            len % count == 0,
            size == len / count,
    ;
    assert(size >= 0) by (nonlinear_arith)
        requires
            count > 0,
            len >= 0,
            len == count * size,
    ;
    assert(0 <= i * size && i * size + size == (i + 1) * size && (i + 1) * size <= count * size)
        by (nonlinear_arith)
        requires
            0 <= i < count,
            size >= 0,
    ;
}

/// Deals the challenges of earlier proofs out to their commitments. Without
/// commitments there must be no challenges, and the result is empty; else
/// the number of challenges must be a multiple of the number of commitments.
pub fn fold_challenges<F: Copy, G: Copy>(challenges: &Vec<F>, commitments: &Vec<G>) -> (result:
    Result<Vec<RecursionChallenge<F, G>>, FoldError>)
    ensures
        match fold_checked(challenges@, commitments@) {
            Ok(list) => result is Ok && views(result->Ok_0@) == list,
            Err(e) => result is Err && result->Err_0 == e,
        },
{
    let count = commitments.len();
    let mut list: Vec<RecursionChallenge<F, G>> = Vec::new();
    if count == 0 {
        if challenges.len() == 0 {
            assert(views(list@) =~= Seq::empty());
            return Ok(list);
        } else {
            return Err(FoldError::NoCommitments);
        }
    }
    if challenges.len() % count != 0 {
        return Err(FoldError::UnevenChallenges);
    }
    let size = challenges.len() / count;
    for i in 0..count
        invariant
            count == commitments.len(),
            count > 0,
            challenges.len() % count == 0,
            size == challenges.len() / count,
            list.len() == i,
            forall|j: int|
                0 <= j < i ==> (#[trigger] list[j])@ == folded(challenges@, commitments@)[j],
    {
        proof {
            lemma_piece_bounds(challenges.len() as int, count as int, size as int, i as int);
        }
        let start = i * size;
        let mut chals: Vec<F> = Vec::new();
        for k in 0..size
            invariant
                start + size <= challenges.len(),
                chals@ == challenges@.subrange(start as int, start + k),
        {
            chals.push(challenges[start + k]);
            assert(chals@ =~= challenges@.subrange(start as int, start + k + 1));
        }
        let item = RecursionChallenge {
            chals,
            comm: PolyComm { unshifted: vec![commitments[i]], shifted: None },
        };
        assert(item@ =~= folded(challenges@, commitments@)[i as int]);
        list.push(item);
    }
    assert(views(list@) =~= folded(challenges@, commitments@));
    Ok(list)
}

/// Of `k` commitments and `k * m` challenges come `k` recursion challenges,
/// each with `m` challenges: those of commitment `i` are the challenges from
/// `i * m` up to `(i + 1) * m`. Of no commitments and no challenges comes the
/// empty list.
pub proof fn lemma_fold_counts<F, G>(challenges: Seq<F>, commitments: Seq<G>, k: nat, m: nat)
    requires
        commitments.len() == k,
        challenges.len() == k * m,
    ensures
        fold_checked(challenges, commitments) is Ok,
        fold_checked(challenges, commitments)->Ok_0.len() == k,
        forall|i: int|
            0 <= i < k ==> {
                let item = #[trigger] fold_checked(challenges, commitments)->Ok_0[i];
                &&& item.chals.len() == m
                &&& item.chals == challenges.subrange(i * m, (i + 1) * m)
                &&& item.comm == (PolyCommView { unshifted: seq![commitments[i]], shifted: None })
            },
{
    if k > 0 {
        let len = challenges.len() as int;
        assert(len % (k as int) == 0 && len / (k as int) == m) by (nonlinear_arith)
            requires
                k > 0,
                len == k * m,
        ;
        assert forall|i: int| 0 <= i < k implies {
            let item = #[trigger] fold_checked(challenges, commitments)->Ok_0[i];
            &&& item.chals.len() == m
            &&& item.chals == challenges.subrange(i * m, (i + 1) * m)
            &&& item.comm == (PolyCommView { unshifted: seq![commitments[i]], shifted: None })
        } by {
            lemma_piece_bounds(len, k as int, m as int, i);
        }
    } else {
        assert(challenges.len() == 0) by (nonlinear_arith)
            requires
                k == 0,
                challenges.len() == k * m,
        ;
    }
}

/// The pieces that the challenges are cut into, put end to end, are the
/// challenges again.
pub proof fn lemma_fold_keeps_challenges<F, G>(challenges: Seq<F>, commitments: Seq<G>)
    requires
        fold_checked(challenges, commitments) is Ok,
    ensures
        fold_checked(challenges, commitments)->Ok_0.map_values(
            |c: RecursionChallengeView<F, G>| c.chals,
        ).flatten() == challenges,
{
    let pieces = fold_checked(challenges, commitments)->Ok_0.map_values(
        |c: RecursionChallengeView<F, G>| c.chals,
    );
    if commitments.len() == 0 {
        assert(pieces =~= Seq::empty());
        assert(pieces.flatten() =~= challenges);
    } else {
        let count = commitments.len() as int;
        let size = challenges.len() as int / count;
        lemma_pieces_flatten(challenges, pieces, count, size, count);
        lemma_piece_bounds(challenges.len() as int, count, size, count - 1);
        assert(pieces.take(count) == pieces);
        assert(challenges.take(count * size) == challenges);
    }
}

proof fn lemma_pieces_flatten<F>(
    challenges: Seq<F>,
    pieces: Seq<Seq<F>>,
    count: int,
    size: int,
    n: int,
)
    requires
        count > 0,
        challenges.len() as int % count == 0,
        size == challenges.len() as int / count,
        pieces.len() == count,
        forall|i: int| 0 <= i < count ==> #[trigger] pieces[i] == piece(challenges, size, i),
        0 <= n <= count,
    ensures
        0 <= n * size <= challenges.len(),
        pieces.take(n).flatten() == challenges.take(n * size),
    decreases n,
{
    if n == 0 {
        assert(pieces.take(0) =~= Seq::empty());
        assert(pieces.take(0).flatten() =~= challenges.take(0));
    } else {
        lemma_pieces_flatten(challenges, pieces, count, size, n - 1);
        lemma_piece_bounds(challenges.len() as int, count, size, n - 1);
        let front = pieces.take(n - 1);
        assert(pieces.take(n) =~= front.push(pieces[n - 1]));
        front.lemma_flatten_push(pieces[n - 1]);
        assert(challenges.take((n - 1) * size) + piece(challenges, size, n - 1)
            =~= challenges.take(n * size));
    }
}

} // verus!
