//! Unsigned integers of any size, held as big-endian bytes, and the few
//! operations on them that the example circuits need.

use num_bigint::{BigUint, RandBigInt};
use rand::rngs::StdRng;
use rand::SeedableRng;
use vstd::prelude::*;

verus! {

/// The number that `bytes` spell, most significant byte first.
pub open spec fn be_value(bytes: Seq<u8>) -> nat
    decreases bytes.len(),
{
    if bytes.len() == 0 {
        0
    } else {
        be_value(bytes.drop_last()) * 256 + bytes.last() as nat
    }
}

/// A number is zero exactly when all of its bytes are.
pub proof fn lemma_zero_bytes(bytes: Seq<u8>)
    ensures
        be_value(bytes) == 0 <==> (forall|i: int| 0 <= i < bytes.len() ==> bytes[i] == 0),
    decreases bytes.len(),
{
    if bytes.len() > 0 {
        let front = bytes.drop_last();
        lemma_zero_bytes(front);
        if be_value(bytes) == 0 {
            assert(be_value(front) == 0 && bytes.last() == 0);
            assert forall|i: int| 0 <= i < bytes.len() implies bytes[i] == 0 by {
                if i < front.len() {
                    assert(front[i] == bytes[i]);
                }
            }
        }
        if forall|i: int| 0 <= i < bytes.len() ==> bytes[i] == 0 {
            assert forall|i: int| 0 <= i < front.len() implies front[i] == 0 by {
                assert(front[i] == bytes[i]);
            }
            assert(bytes.last() == 0);
        }
    }
}

/// Tells whether the number is zero.
pub fn is_zero(bytes: &Vec<u8>) -> (zero: bool)
    ensures
        zero == (be_value(bytes@) == 0),
{
    for i in 0..bytes.len()
        invariant
            forall|j: int| 0 <= j < i ==> bytes[j] == 0,
    {
        if bytes[i] != 0 {
            proof {
                lemma_zero_bytes(bytes@);
            }
            return false;
        }
    }
    proof {
        lemma_zero_bytes(bytes@);
    }
    true
}

#[verifier::external_type_specification]
#[verifier::external_body]
pub struct ExStdRng(rand::rngs::StdRng);

/// `StdRng::from_seed` of rand: a generator started from `seed`. Nothing is
/// claimed of the generator.
#[verifier::external_body]
pub(crate) fn seeded(seed: [u8; 32]) -> StdRng {
    StdRng::from_seed(seed)
}

/// `RandBigInt::gen_biguint_range` of num-bigint, with zero as the lower
/// bound: the next number that the generator yields below `bound`. The call
/// panics unless the bound is above zero; what it returns is less than the
/// bound. `BigUint::from_bytes_be` and `BigUint::to_bytes_be` convert.
#[verifier::external_body]
pub(crate) fn draw_below(rng: &mut StdRng, bound: &Vec<u8>) -> (drawn: Vec<u8>)
    requires
        be_value(bound@) > 0,
    ensures
        be_value(drawn@) < be_value(bound@),
{
    rng.gen_biguint_range(&BigUint::ZERO, &BigUint::from_bytes_be(bound)).to_bytes_be()
}

/// Subtraction of num-bigint's `BigUint`: the difference of two numbers. The
/// call panics when the difference would be negative.
/// `BigUint::from_bytes_be` and `BigUint::to_bytes_be` convert.
#[verifier::external_body]
pub(crate) fn minus(a: &Vec<u8>, b: &Vec<u8>) -> (difference: Vec<u8>)
    requires
        be_value(a@) >= be_value(b@),
    ensures
        be_value(difference@) == be_value(a@) - be_value(b@),
{
    (BigUint::from_bytes_be(a) - BigUint::from_bytes_be(b)).to_bytes_be()
}

} // verus!
