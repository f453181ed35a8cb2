//! One multiplication in a foreign field, with the addition that bounds the
//! product and five range checks.
//!
//! Rows of its table:
//!
//! | rows   | gadget                                               |
//! |--------|------------------------------------------------------|
//! | 0-1    | foreign field multiplication                         |
//! | 2-3    | foreign field addition that bounds the remainder     |
//! | 4-7    | range check of the left operand                      |
//! | 8-11   | range check of the right operand                     |
//! | 12-15  | range check of the carry and of two product limbs    |
//! | 16-19  | range check of the remainder's bound                 |
//! | 20-23  | range check of the quotient's bound, compact         |

use crate::assembly::{rows_after, Gadget, Step};
use crate::bigint::{be_value, draw_below, is_zero, seeded};
use crate::circuit::{LookupTable, Operand, Plan, Settings, SettingsView, WitnessStep};
use crate::examples::PADDING;
use crate::gate::GateType;
use vstd::prelude::*;

verus! {

/// The example, as far as it is known before the gadgets are laid out.
#[derive(Clone, Debug, PartialEq, Eq)]
pub struct ForeignFieldMulExample {
    pub plan: Plan,
    /// The modulus of the foreign field.
    pub modulus: Vec<u8>,
    /// The operands of the multiplication, both below the modulus.
    pub left: Vec<u8>,
    pub right: Vec<u8>,
}

/// The program of its table. Each gadget is followed by the wires that tie
/// it to the multiplication in rows 0 and 1.
pub open spec fn program() -> Seq<Step> {
    seq![
        Step::Call(Gadget::ForeignFieldMul),
        Step::Call(Gadget::ForeignFieldAdd),
        Step::Connect((1, 0), (2, 0)),
        Step::Connect((1, 1), (2, 1)),
        Step::Connect((1, 2), (2, 2)),
        Step::Call(Gadget::MultiRangeCheck),
        Step::Connect((0, 0), (4, 0)),
        Step::Connect((0, 1), (5, 0)),
        Step::Connect((0, 2), (6, 0)),
        Step::Call(Gadget::MultiRangeCheck),
        Step::Connect((0, 3), (8, 0)),
        Step::Connect((0, 4), (9, 0)),
        Step::Connect((0, 5), (10, 0)),
        Step::Call(Gadget::MultiRangeCheck),
        Step::Connect((0, 6), (12, 0)),
        Step::Connect((1, 5), (13, 0)),
        Step::Connect((1, 6), (14, 0)),
        Step::Call(Gadget::MultiRangeCheck),
        Step::Connect((3, 0), (16, 0)),
        Step::Connect((3, 1), (17, 0)),
        Step::Connect((3, 2), (18, 0)),
        Step::Call(Gadget::CompactMultiRangeCheck),
        Step::Connect((1, 3), (22, 1)),
        Step::Connect((1, 4), (20, 0)),
        Step::Rows(GateType::Zero, PADDING),
    ]
}

/// The program of the witness: the rows of each gadget, in the order of the
/// gadgets. The third and the fourth range check are filled in together.
pub open spec fn witness_program() -> Seq<WitnessStep> {
    seq![
        WitnessStep::ForeignFieldMul,
        WitnessStep::BoundAdditionOwed,
        WitnessStep::RangeCheckOperand(Operand::Left),
        WitnessStep::RangeCheckOperand(Operand::Right),
        WitnessStep::RangeChecksOwed,
        WitnessStep::CompactRangeChecksOwed,
    ]
}

/// The multiplication of two operands that a generator with a fixed seed
/// draws below `modulus`. There is no example for the modulus zero.
pub fn caml_pasta_fp_plonk_proof_example_with_foreign_field_mul(modulus: Vec<u8>) -> (example:
    Option<ForeignFieldMulExample>)
    ensures
        example is Some <==> be_value(modulus@) > 0,
        example matches Some(example) ==> {
            &&& example.plan.program@ == program()
            &&& example.plan.witness@ == witness_program()
            &&& example.plan.settings@ == (SettingsView {
                public: 0,
                lookup: seq![LookupTable::ForeignFieldMul],
                runtime: None,
            })
            &&& example.modulus@ == modulus@
            &&& be_value(example.left@) < be_value(modulus@)
            &&& be_value(example.right@) < be_value(modulus@)
        },
{
    if is_zero(&modulus) {
        return None;
    }
    let program: Vec<Step> = vec![
        Step::Call(Gadget::ForeignFieldMul),
        Step::Call(Gadget::ForeignFieldAdd),
        Step::Connect((1, 0), (2, 0)),
        Step::Connect((1, 1), (2, 1)),
        Step::Connect((1, 2), (2, 2)),
        Step::Call(Gadget::MultiRangeCheck),
        Step::Connect((0, 0), (4, 0)),
        Step::Connect((0, 1), (5, 0)),
        Step::Connect((0, 2), (6, 0)),
        Step::Call(Gadget::MultiRangeCheck),
        Step::Connect((0, 3), (8, 0)),
        Step::Connect((0, 4), (9, 0)),
        Step::Connect((0, 5), (10, 0)),
        Step::Call(Gadget::MultiRangeCheck),
        Step::Connect((0, 6), (12, 0)),
        Step::Connect((1, 5), (13, 0)),
        Step::Connect((1, 6), (14, 0)),
        Step::Call(Gadget::MultiRangeCheck),
        Step::Connect((3, 0), (16, 0)),
        Step::Connect((3, 1), (17, 0)),
        Step::Connect((3, 2), (18, 0)),
        Step::Call(Gadget::CompactMultiRangeCheck),
        Step::Connect((1, 3), (22, 1)),
        Step::Connect((1, 4), (20, 0)),
        Step::Rows(GateType::Zero, PADDING),
    ];
    let settings = Settings {
        public: 0,
        lookup: vec![LookupTable::ForeignFieldMul],
        runtime: None,
    };
    assert(settings@ =~= (SettingsView {
        public: 0,
        lookup: seq![LookupTable::ForeignFieldMul],
        runtime: None,
    }));

    let mut rng = seeded([2u8;32]);
    let left = draw_below(&mut rng, &modulus);
    let right = draw_below(&mut rng, &modulus);
    let steps: Vec<WitnessStep> = vec![
        WitnessStep::ForeignFieldMul,
        WitnessStep::BoundAdditionOwed,
        WitnessStep::RangeCheckOperand(Operand::Left),
        WitnessStep::RangeCheckOperand(Operand::Right),
        WitnessStep::RangeChecksOwed,
        WitnessStep::CompactRangeChecksOwed,
    ];
    Some(
        ForeignFieldMulExample {
            plan: Plan { program, witness: steps, settings },
            modulus,
            left,
            right,
        },
    )
}

/// The program fits the rows of the table above: if the multiplication and
/// the addition take two rows each and every range check takes four, no step
/// is a fault, and the table has 24 rows and the padding.
pub proof fn lemma_layout(rows: spec_fn(Gadget) -> nat)
    requires
        rows(Gadget::ForeignFieldMul) == 2,
        rows(Gadget::ForeignFieldAdd) == 2,
        rows(Gadget::MultiRangeCheck) == 4,
        rows(Gadget::CompactMultiRangeCheck) == 4,
    ensures
        rows_after(program(), 0, 0, rows) == Some((24 + PADDING) as nat),
{
    reveal_with_fuel(rows_after, 26);
}

} // verus!
