//! Eight blocks of the ChaCha20 stream cipher, all from one state.

use crate::assembly::{rows_after, Gadget, Step};
use crate::circuit::{Plan, Settings, SettingsView, WitnessStep};
use vstd::prelude::*;

verus! {

/// Number of blocks.
pub const BLOCKS: usize = 8;

/// The example, as far as it is known before the blocks are laid out.
#[derive(Clone, Debug, PartialEq, Eq)]
pub struct ChaChaExample {
    pub plan: Plan,
    /// The sixteen words of the state that every block starts from.
    pub state: Vec<u32>,
}

/// The program of its table: one block after the other.
pub open spec fn program() -> Seq<Step> {
    Seq::new(BLOCKS as nat, |i: int| Step::Call(Gadget::ChaCha20))
}

/// The program of the witness: the rows of one block after the other.
pub open spec fn witness_program() -> Seq<WitnessStep> {
    Seq::new(BLOCKS as nat, |i: int| WitnessStep::ChaChaBlock)
}

/// The state that every block starts from: the four constant words, a key
/// of eight words, the block counter and a nonce of three words.
pub open spec fn state() -> Seq<u32> {
    seq![
        0x61707865, 0x3320646e, 0x79622d32, 0x6b206574, 0x03020100, 0x07060504, 0x0b0a0908,
        0x0f0e0d0c, 0x13121110, 0x17161514, 0x1b1a1918, 0x1f1e1d1c, 0x00000001, 0x09000000,
        0x4a000000, 0x00000000,
    ]
}

/// Eight blocks from a fixed state, without public inputs and without lookup
/// tables.
pub fn caml_pasta_fp_plonk_proof_example_with_chacha() -> (example: ChaChaExample)
    ensures
        example.plan.program@ == program(),
        example.plan.witness@ == witness_program(),
        example.plan.settings@ == (SettingsView {
            public: 0,
            lookup: Seq::empty(),
            runtime: None,
        }),
        example.state@ == state(),
{
    let mut program: Vec<Step> = Vec::new();
    let mut steps: Vec<WitnessStep> = Vec::new();
    for i in 0..BLOCKS
        invariant
            program@ == Seq::new(i as nat, |i: int| Step::Call(Gadget::ChaCha20)),
            steps@ == Seq::new(i as nat, |i: int| WitnessStep::ChaChaBlock),
    {
        program.push(Step::Call(Gadget::ChaCha20));
        steps.push(WitnessStep::ChaChaBlock);
        assert(program@ =~= Seq::new((i + 1) as nat, |i: int| Step::Call(Gadget::ChaCha20)));
        assert(steps@ =~= Seq::new((i + 1) as nat, |i: int| WitnessStep::ChaChaBlock));
    }
    let settings = Settings { public: 0, lookup: Vec::new(), runtime: None };
    assert(settings@ =~= (SettingsView { public: 0, lookup: Seq::empty(), runtime: None }));
    let state: Vec<u32> = vec![
        0x61707865, 0x3320646e, 0x79622d32, 0x6b206574, 0x03020100, 0x07060504, 0x0b0a0908,
        0x0f0e0d0c, 0x13121110, 0x17161514, 0x1b1a1918, 0x1f1e1d1c, 0x00000001, 0x09000000,
        0x4a000000, 0x00000000,
    ];
    assert(state@ =~= self::state());
    ChaChaExample { plan: Plan { program, witness: steps, settings }, state }
}

/// The table has the rows of eight blocks.
pub proof fn lemma_layout(rows: spec_fn(Gadget) -> nat)
    ensures
        rows_after(program(), 0, 0, rows) == Some(BLOCKS as nat * rows(Gadget::ChaCha20)),
{
    reveal_with_fuel(rows_after, 9);
}

} // verus!
