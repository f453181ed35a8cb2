//! One range check of three limbs.

use crate::assembly::{rows_after, Gadget, Step};
use crate::bigint::{be_value, draw_below, is_zero, seeded};
use crate::circuit::{LookupTable, Plan, Settings, SettingsView, WitnessStep};
use crate::examples::PADDING;
use crate::gate::GateType;
use vstd::prelude::*;

verus! {

/// Number of limbs of one range check.
pub const LIMBS: usize = 3;

/// The example, as far as it is known before the gadget is laid out.
#[derive(Clone, Debug, PartialEq, Eq)]
pub struct RangeCheckExample {
    pub plan: Plan,
    /// The three limbs that are checked, lowest first.
    pub limbs: [Vec<u8>; LIMBS],
}

/// The program of its table.
pub open spec fn program() -> Seq<Step> {
    seq![Step::Call(Gadget::MultiRangeCheck), Step::Rows(GateType::Zero, PADDING)]
}

/// The range check of three limbs that a generator with a fixed seed draws
/// below `limb_bound`, the least number that does not fit into a limb. There
/// is no example for the bound zero.
pub fn caml_pasta_fp_plonk_proof_example_with_range_check(limb_bound: Vec<u8>) -> (example: Option<
    RangeCheckExample,
>)
    ensures
        example is Some <==> be_value(limb_bound@) > 0,
        example matches Some(example) ==> {
            &&& example.plan.program@ == program()
            &&& example.plan.witness@ == seq![WitnessStep::RangeCheckLimbs]
            &&& example.plan.settings@ == (SettingsView {
                public: 0,
                lookup: seq![LookupTable::RangeCheck],
                runtime: None,
            })
            &&& forall|i: int|
                0 <= i < LIMBS ==> be_value((#[trigger] example.limbs[i])@) < be_value(
                    limb_bound@,
                )
        },
{
    if is_zero(&limb_bound) {
        return None;
    }
    let program: Vec<Step> = vec![
        Step::Call(Gadget::MultiRangeCheck),
        Step::Rows(GateType::Zero, PADDING),
    ];
    let settings = Settings { public: 0, lookup: vec![LookupTable::RangeCheck], runtime: None };
    assert(settings@ =~= (SettingsView {
        public: 0,
        lookup: seq![LookupTable::RangeCheck],
        runtime: None,
    }));

    let mut rng = seeded([255u8;32]);
    let first = draw_below(&mut rng, &limb_bound);
    let second = draw_below(&mut rng, &limb_bound);
    let third = draw_below(&mut rng, &limb_bound);
    Some(
        RangeCheckExample {
            plan: Plan { program, witness: vec![WitnessStep::RangeCheckLimbs], settings },
            limbs: [first, second, third],
        },
    )
}

/// If the range check takes four rows, the table has four rows and the
/// padding.
pub proof fn lemma_layout(rows: spec_fn(Gadget) -> nat)
    requires
        rows(Gadget::MultiRangeCheck) == 4,
    ensures
        rows_after(program(), 0, 0, rows) == Some((4 + PADDING) as nat),
{
    reveal_with_fuel(rows_after, 3);
}

} // verus!
