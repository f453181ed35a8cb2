//! One addition in a foreign field, with range checks of both operands, of
//! the sum and of the bound.
//!
//! Rows of its table:
//!
//! | rows   | gadget                                   |
//! |--------|------------------------------------------|
//! | 0      | public input that holds 1                |
//! | 1      | foreign field addition                   |
//! | 2      | foreign field addition for the bound     |
//! | 3      | the bound                                |
//! | 4-7    | range check of the left operand          |
//! | 8-11   | range check of the right operand         |
//! | 12-15  | range check of the sum                   |
//! | 16-19  | range check of the bound                 |

use crate::assembly::{rows_after, Gadget, Step};
use crate::bigint::{be_value, lemma_zero_bytes, minus};
use crate::circuit::{LookupTable, Plan, Settings, SettingsView, WitnessStep};
use crate::examples::PADDING;
use crate::gate::GateType;
use crate::wires::COLUMNS;
use crate::witness::filled;
use vstd::prelude::*;

verus! {

/// The example, as far as it is known before the gadgets are laid out.
#[derive(Clone, Debug, PartialEq, Eq)]
pub struct ForeignFieldAddExample {
    pub plan: Plan,
    /// The modulus of the foreign field.
    pub modulus: Vec<u8>,
    /// The operands of the addition.
    pub left: Vec<u8>,
    pub right: Vec<u8>,
    /// The rows of the witness that come before those of the addition: the
    /// public input.
    pub witness: [Vec<u32>; COLUMNS],
}

/// The modulus of the foreign field, most significant byte first.
pub open spec fn modulus() -> Seq<u8> {
    seq![
        0xFF, 0xFF, 0xFF, 0xFF, 0xFF, 0xFF, 0xFF, 0xFF, 0xFF, 0xFF, 0xFE, 0xFF, 0xFF, 0xFF, 0xFF,
        0xFF, 0xFF, 0xFF, 0xFF, 0xFF, 0xFF, 0xFF, 0xFF, 0xFF, 0xFF, 0xFF, 0xFF, 0xFE, 0xFF, 0xFF,
        0xFC, 0x2F,
    ]
}

/// The program of its table.
pub open spec fn program() -> Seq<Step> {
    seq![
        Step::Call(Gadget::PublicInput),
        Step::Call(Gadget::ForeignFieldAddChain { public_row: 0, additions: 1 }),
        Step::Call(Gadget::MultiRangeCheck),
        Step::Call(Gadget::MultiRangeCheck),
        Step::Call(Gadget::MultiRangeCheck),
        Step::Call(Gadget::MultiRangeCheck),
        Step::Call(
            Gadget::ForeignFieldAddRangeChecks {
                ffadd_row: 1,
                left_rc: Some(4),
                right_rc: Some(8),
                out_rc: 12,
            },
        ),
        Step::Call(
            Gadget::ForeignFieldAddRangeChecks {
                ffadd_row: 2,
                left_rc: None,
                right_rc: None,
                out_rc: 16,
            },
        ),
        Step::Rows(GateType::Zero, PADDING),
    ]
}

/// The program of the witness. The limbs that get a range check are read
/// from the rows of the addition: both operands in row 1, the sum in row 2,
/// the bound in row 3.
pub open spec fn witness_program() -> Seq<WitnessStep> {
    seq![
        WitnessStep::ForeignFieldAddChain,
        WitnessStep::RangeCheckAt((1, 0)),
        WitnessStep::RangeCheckAt((1, 3)),
        WitnessStep::RangeCheckAt((2, 0)),
        WitnessStep::RangeCheckAt((3, 0)),
    ]
}

/// The addition of `modulus - 1` and `modulus - 1`.
pub fn caml_pasta_fp_plonk_proof_example_with_ffadd() -> (example: ForeignFieldAddExample)
    ensures
        example.plan.program@ == program(),
        example.plan.witness@ == witness_program(),
        example.plan.settings@ == (SettingsView {
            public: 1,
            lookup: seq![LookupTable::RangeCheck],
            runtime: None,
        }),
        example.modulus@ == modulus(),
        be_value(example.left@) == be_value(modulus()) - 1,
        be_value(example.right@) == be_value(modulus()) - 1,
        forall|c: int|
            0 <= c < COLUMNS ==> (#[trigger] example.witness[c])@ == seq![
                if c == 0 {
                    1u32
                } else {
                    0u32
                },
            ],
{
    let program: Vec<Step> = vec![
        Step::Call(Gadget::PublicInput),
        Step::Call(Gadget::ForeignFieldAddChain { public_row: 0, additions: 1 }),
        Step::Call(Gadget::MultiRangeCheck),
        Step::Call(Gadget::MultiRangeCheck),
        Step::Call(Gadget::MultiRangeCheck),
        Step::Call(Gadget::MultiRangeCheck),
        Step::Call(
            Gadget::ForeignFieldAddRangeChecks {
                ffadd_row: 1,
                left_rc: Some(4),
                right_rc: Some(8),
                out_rc: 12,
            },
        ),
        Step::Call(
            Gadget::ForeignFieldAddRangeChecks {
                ffadd_row: 2,
                left_rc: None,
                right_rc: None,
                out_rc: 16,
            },
        ),
        Step::Rows(GateType::Zero, PADDING),
    ];
    let settings = Settings { public: 1, lookup: vec![LookupTable::RangeCheck], runtime: None };
    assert(settings@ =~= (SettingsView {
        public: 1,
        lookup: seq![LookupTable::RangeCheck],
        runtime: None,
    }));

    let modulus: Vec<u8> = vec![
        0xFF, 0xFF, 0xFF, 0xFF, 0xFF, 0xFF, 0xFF, 0xFF, 0xFF, 0xFF, 0xFE, 0xFF, 0xFF, 0xFF, 0xFF,
        0xFF, 0xFF, 0xFF, 0xFF, 0xFF, 0xFF, 0xFF, 0xFF, 0xFF, 0xFF, 0xFF, 0xFF, 0xFE, 0xFF, 0xFF,
        0xFC, 0x2F,
    ];
    let one: Vec<u8> = vec![1];
    proof {
        assert(modulus@ =~= self::modulus());
        assert(be_value(one@) == 1) by {
            reveal_with_fuel(be_value, 2);
        }
        assert(be_value(modulus@) >= 1) by {
            lemma_zero_bytes(modulus@);
            assert(modulus@[0] != 0);
        }
    }
    let left = minus(&modulus, &one);
    let right = minus(&modulus, &one);

    let mut witness = filled(0u32, 1);
    witness[0][0] = 1;
    assert forall|c: int| 0 <= c < COLUMNS implies (#[trigger] witness[c])@ == seq![
        if c == 0 {
            1u32
        } else {
            0u32
        },
    ] by {
        assert(witness[c]@ =~= seq![
            if c == 0 {
                1u32
            } else {
                0u32
            },
        ]);
    }

    let steps: Vec<WitnessStep> = vec![
        WitnessStep::ForeignFieldAddChain,
        WitnessStep::RangeCheckAt((1, 0)),
        WitnessStep::RangeCheckAt((1, 3)),
        WitnessStep::RangeCheckAt((2, 0)),
        WitnessStep::RangeCheckAt((3, 0)),
    ];
    ForeignFieldAddExample {
        plan: Plan { program, witness: steps, settings },
        modulus,
        left,
        right,
        witness,
    }
}

/// The program fits the rows of the table above: if the public input takes
/// one row, the addition with its bound three, every range check four, and
/// the wiring of the range checks none, no step is a fault, and the table has
/// 20 rows and the padding.
pub proof fn lemma_layout(rows: spec_fn(Gadget) -> nat)
    requires
        rows(Gadget::PublicInput) == 1,
        rows(Gadget::ForeignFieldAddChain { public_row: 0, additions: 1 }) == 3,
        rows(Gadget::MultiRangeCheck) == 4,
        forall|ffadd_row: usize, left_rc: Option<usize>, right_rc: Option<usize>, out_rc: usize|
            #[trigger] rows(
                Gadget::ForeignFieldAddRangeChecks { ffadd_row, left_rc, right_rc, out_rc },
            ) == 0,
    ensures
        rows_after(program(), 0, 0, rows) == Some((20 + PADDING) as nat),
{
    reveal_with_fuel(rows_after, 10);
}

} // verus!
