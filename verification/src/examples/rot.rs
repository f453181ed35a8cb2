//! The rotation of a public word of 64 bits by 32 bits to the left.

use crate::assembly::{rows_after, Gadget, Step};
use crate::circuit::{LookupTable, Plan, Settings, SettingsView, WitnessStep};
use crate::examples::PADDING;
use crate::gate::GateType;
use crate::wires::COLUMNS;
use crate::witness::filled;
use vstd::prelude::*;

verus! {

/// The word that is rotated.
pub const WORD: u64 = 0xDC811727DAF22EC1;

/// Number of bits by which it is rotated.
pub const ROT: u32 = 32;

/// The example, as far as it is known before the gadget is laid out.
#[derive(Clone, Debug, PartialEq, Eq)]
pub struct RotExample {
    pub plan: Plan,
    pub word: u64,
    pub rot: u32,
    /// Whether the word is rotated to the left.
    pub left: bool,
    /// The rows of the witness that come before those of the gadget: the
    /// public word, and a row that holds 0.
    pub witness: [Vec<u64>; COLUMNS],
}

/// The program of its table: two public inputs, the gadget from row 2 on
/// with row 1 as its row of zero, and the wire from the public word to the
/// gadget's input.
pub open spec fn program() -> Seq<Step> {
    seq![
        Step::Call(Gadget::PublicInput),
        Step::Call(Gadget::PublicInput),
        Step::Call(Gadget::Rot { rot: ROT, left: true, zero_row: 1 }),
        Step::Connect((0, 0), (2, 0)),
        Step::Rows(GateType::Zero, PADDING),
    ]
}

/// The cells of column `col` in the two rows of public inputs.
pub open spec fn public_rows(col: int) -> Seq<u64> {
    if col == 0 {
        seq![WORD, 0u64]
    } else {
        seq![0u64, 0u64]
    }
}

/// The rotation of a fixed word.
pub fn caml_pasta_fp_plonk_proof_example_with_rot() -> (example: RotExample)
    ensures
        example.plan.program@ == program(),
        example.plan.witness@ == seq![WitnessStep::Rot],
        example.plan.settings@ == (SettingsView {
            public: 2,
            lookup: seq![LookupTable::Rot],
            runtime: None,
        }),
        example.word == WORD,
        example.rot == ROT,
        example.left,
        forall|c: int| 0 <= c < COLUMNS ==> (#[trigger] example.witness[c])@ == public_rows(c),
{
    let program: Vec<Step> = vec![
        Step::Call(Gadget::PublicInput),
        Step::Call(Gadget::PublicInput),
        Step::Call(Gadget::Rot { rot: ROT, left: true, zero_row: 1 }),
        Step::Connect((0, 0), (2, 0)),
        Step::Rows(GateType::Zero, PADDING),
    ];
    let settings = Settings { public: 2, lookup: vec![LookupTable::Rot], runtime: None };
    assert(settings@ =~= (SettingsView {
        public: 2,
        lookup: seq![LookupTable::Rot],
        runtime: None,
    }));

    let mut witness = filled(0u64, 2);
    witness[0][0] = WORD;
    assert forall|c: int| 0 <= c < COLUMNS implies (#[trigger] witness[c])@ == public_rows(c) by {
        assert(witness[c]@ =~= public_rows(c));
    }
    RotExample {
        plan: Plan { program, witness: vec![WitnessStep::Rot], settings },
        word: WORD,
        rot: ROT,
        left: true,
        witness,
    }
}

/// The program fits its gadgets: if a public input takes one row and the
/// gadget at least one, no step is a fault, and the table has the rows of
/// the public inputs, of the gadget and of the padding.
pub proof fn lemma_layout(rows: spec_fn(Gadget) -> nat)
    requires
        rows(Gadget::PublicInput) == 1,
        1 <= rows(Gadget::Rot { rot: ROT, left: true, zero_row: 1 }) <= PADDING,
    ensures
        rows_after(program(), 0, 0, rows) == Some(
            2 + rows(Gadget::Rot { rot: ROT, left: true, zero_row: 1 }) + PADDING as nat,
        ),
{
    reveal_with_fuel(rows_after, 6);
}

} // verus!
