//! The exclusive or of two words of 128 bits, both public.

use crate::assembly::{rows_after, Gadget, Step};
use crate::circuit::{LookupTable, Plan, Settings, SettingsView, WitnessStep};
use crate::examples::PADDING;
use crate::gate::GateType;
use crate::wires::COLUMNS;
use crate::witness::filled;
use vstd::prelude::*;

verus! {

/// The first word.
pub const INPUT1: u128 = 0xDC811727DAF22EC15927D6AA275F406B;

/// The second word.
pub const INPUT2: u128 = 0xA4F4417AF072DF9016A1EAB458DA80D1;

/// Number of bits of a word.
pub const BITS: usize = 128;

/// The example, as far as it is known before the gadget is laid out.
#[derive(Clone, Debug, PartialEq, Eq)]
pub struct XorExample {
    pub plan: Plan,
    pub input1: u128,
    pub input2: u128,
    pub bits: usize,
    /// The rows of the witness that come before those of the gadget: the two
    /// public inputs.
    pub witness: [Vec<u128>; COLUMNS],
}

/// The program of its table: two public inputs, the gadget from row 2 on,
/// and the wires from the public inputs to the gadget's two inputs.
pub open spec fn program() -> Seq<Step> {
    seq![
        Step::Call(Gadget::PublicInput),
        Step::Call(Gadget::PublicInput),
        Step::Call(Gadget::Xor { bits: BITS }),
        Step::Connect((0, 0), (2, 0)),
        Step::Connect((1, 0), (2, 1)),
        Step::Rows(GateType::Zero, PADDING),
    ]
}

/// The cells of column `col` in the two rows of public inputs.
pub open spec fn public_rows(col: int) -> Seq<u128> {
    if col == 0 {
        seq![INPUT1, INPUT2]
    } else {
        seq![0u128, 0u128]
    }
}

/// The exclusive or of two fixed words.
pub fn caml_pasta_fp_plonk_proof_example_with_xor() -> (example: XorExample)
    ensures
        example.plan.program@ == program(),
        example.plan.witness@ == seq![WitnessStep::Xor],
        example.plan.settings@ == (SettingsView {
            public: 2,
            lookup: seq![LookupTable::Xor],
            runtime: None,
        }),
        example.input1 == INPUT1,
        example.input2 == INPUT2,
        example.bits == BITS,
        forall|c: int| 0 <= c < COLUMNS ==> (#[trigger] example.witness[c])@ == public_rows(c),
{
    let program: Vec<Step> = vec![
        Step::Call(Gadget::PublicInput),
        Step::Call(Gadget::PublicInput),
        Step::Call(Gadget::Xor { bits: BITS }),
        Step::Connect((0, 0), (2, 0)),
        Step::Connect((1, 0), (2, 1)),
        Step::Rows(GateType::Zero, PADDING),
    ];
    let settings = Settings { public: 2, lookup: vec![LookupTable::Xor], runtime: None };
    assert(settings@ =~= (SettingsView {
        public: 2,
        lookup: seq![LookupTable::Xor],
        runtime: None,
    }));

    let mut witness = filled(0u128, 2);
    witness[0][0] = INPUT1;
    witness[0][1] = INPUT2;
    assert forall|c: int| 0 <= c < COLUMNS implies (#[trigger] witness[c])@ == public_rows(c) by {
        assert(witness[c]@ =~= public_rows(c));
    }
    XorExample {
        plan: Plan { program, witness: vec![WitnessStep::Xor], settings },
        input1: INPUT1,
        input2: INPUT2,
        bits: BITS,
        witness,
    }
}

/// The program fits its gadgets: if a public input takes one row and the
/// gadget nine, eight for sixteen bits each and a last one, no step is a
/// fault, and the table has eleven rows and the padding.
pub proof fn lemma_layout(rows: spec_fn(Gadget) -> nat)
    requires
        rows(Gadget::PublicInput) == 1,
        rows(Gadget::Xor { bits: BITS }) == 9,
    ensures
        rows_after(program(), 0, 0, rows) == Some((11 + PADDING) as nat),
{
    reveal_with_fuel(rows_after, 7);
}

} // verus!
