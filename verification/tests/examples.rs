use num_bigint::BigUint;
use plonk_proof::assembly::{Assembly, Gadget, Reply, Request, Step};
use plonk_proof::circuit::{
    check_table, LookupTable, Operand, RuntimeTable, RuntimeTableCfg, WitnessStep,
};
use plonk_proof::examples::chacha::caml_pasta_fp_plonk_proof_example_with_chacha;
use plonk_proof::examples::foreign_field_add::caml_pasta_fp_plonk_proof_example_with_ffadd;
use plonk_proof::examples::foreign_field_mul::caml_pasta_fp_plonk_proof_example_with_foreign_field_mul;
use plonk_proof::examples::lookup::caml_pasta_fp_plonk_proof_example_with_lookup;
use plonk_proof::examples::range_check::caml_pasta_fp_plonk_proof_example_with_range_check;
use plonk_proof::examples::rot::caml_pasta_fp_plonk_proof_example_with_rot;
use plonk_proof::examples::xor::caml_pasta_fp_plonk_proof_example_with_xor;
use plonk_proof::examples::PADDING;
use plonk_proof::gate::{append_rows, Gate, GateType};
use plonk_proof::wires::Wire;
use plonk_proof::witness::{limbs_at, public_inputs};

/// The number of rows that each gadget takes in the tables of the examples.
fn rows_of(gadget: Gadget) -> usize {
    match gadget {
        Gadget::PublicInput => 1,
        Gadget::ForeignFieldMul => 2,
        Gadget::ForeignFieldAdd => 2,
        Gadget::ForeignFieldAddChain { additions, .. } => additions + 2,
        Gadget::MultiRangeCheck => 4,
        Gadget::CompactMultiRangeCheck => 4,
        Gadget::Xor { bits } => bits / 16 + 1,
        Gadget::Rot { .. } => 3,
        Gadget::ForeignFieldAddRangeChecks { .. } => 0,
        Gadget::ChaCha20 => 4,
    }
}

/// Runs a program with a stand-in for the gadget library that lays out plain
/// rows, and returns the table and the gadgets that were asked for.
fn run(program: Vec<Step>) -> (Vec<Gate<u64>>, Vec<(Gadget, usize)>) {
    let mut assembly: Assembly<u64> = Assembly::new(program);
    let mut asked = Vec::new();
    let mut reply = Reply::Nothing;
    loop {
        match assembly.step(reply) {
            Request::Done => return (assembly.into_gates(), asked),
            Request::Fault(fault) => panic!("fault {:?}", fault),
            Request::Call { gadget, row } => {
                asked.push((gadget, row));
                reply = if gadget == Gadget::ChaCha20 {
                    Reply::Types(vec![GateType::ChaCha0; rows_of(gadget)])
                } else {
                    let mut table = assembly.gates.clone();
                    append_rows(&mut table, GateType::Generic, rows_of(gadget));
                    Reply::Table(table)
                };
            }
        }
    }
}

fn pallas_scalar_modulus() -> Vec<u8> {
    BigUint::parse_bytes(
        b"40000000000000000000000000000000224698fc0994a8dd8c46eb2100000001",
        16,
    )
    .unwrap()
    .to_bytes_be()
}

#[test]
fn padding_is_two_to_the_thirteenth() {
    assert_eq!(PADDING, 1 << 13);
}

#[test]
fn lookup_example_has_a_thousand_lookup_rows() {
    let example = caml_pasta_fp_plonk_proof_example_with_lookup(true);
    assert_eq!(example.plan.program, vec![Step::Rows(GateType::Lookup, 1000)]);
    assert!(example.plan.witness.is_empty());
    let (gates, asked) = run(example.plan.program);
    assert!(asked.is_empty());
    assert_eq!(gates.len(), 1000);
    for (row, gate) in gates.iter().enumerate() {
        assert_eq!(*gate, Gate::new(GateType::Lookup, Wire::for_row(row), vec![]));
    }
    assert_eq!(check_table(&gates, example.plan.settings.public), Ok(()));
}

#[test]
fn lookup_example_has_five_runtime_tables() {
    for indexed in [true, false] {
        let example = caml_pasta_fp_plonk_proof_example_with_lookup(indexed);
        assert_eq!(example.plan.settings.public, 1);
        assert!(example.plan.settings.lookup.is_empty());
        let setup = example.plan.settings.runtime.unwrap();
        assert_eq!(setup.len(), 5);
        for (id, cfg) in setup.iter().enumerate() {
            assert_eq!(cfg.id(), id as i32);
            if indexed {
                assert_eq!(*cfg, RuntimeTableCfg::Indexed { id: id as i32, len: 5 });
            } else {
                assert_eq!(
                    *cfg,
                    RuntimeTableCfg::Custom { id: id as i32, first_column: vec![8, 9, 8, 7, 1] }
                );
            }
        }
        assert_eq!(example.runtime_tables.len(), 5);
        for (id, table) in example.runtime_tables.iter().enumerate() {
            assert_eq!(*table, RuntimeTable { id: id as i32, data: vec![0, 2, 3, 4, 5] });
        }
    }
}

#[test]
fn lookup_example_queries_index_and_value_three_times_a_row() {
    for (indexed, index) in [(true, 1u32), (false, 9u32)] {
        let example = caml_pasta_fp_plonk_proof_example_with_lookup(indexed);
        let row = [0, index, 2, index, 2, index, 2, 0, 0, 0, 0, 0, 0, 0, 0];
        for c in 0..15 {
            assert_eq!(example.witness[c], vec![row[c]; 1000]);
        }
        assert_eq!(public_inputs(&example.witness, example.plan.settings.public), Some(vec![0]));
    }
}

#[test]
fn lookup_example_finds_its_value_in_the_table() {
    // indexed: the entry at index 1 is 2
    let example = caml_pasta_fp_plonk_proof_example_with_lookup(true);
    let table = &example.runtime_tables[example.witness[0][0] as usize];
    assert_eq!(table.data[example.witness[1][0] as usize], example.witness[2][0]);
    // not indexed: the first column holds 9 where the entry is 2
    let example = caml_pasta_fp_plonk_proof_example_with_lookup(false);
    let first_column = match &example.plan.settings.runtime.as_ref().unwrap()[0] {
        RuntimeTableCfg::Custom { first_column, .. } => first_column.clone(),
        other => panic!("not a custom table: {:?}", other),
    };
    let at = first_column.iter().position(|x| *x == example.witness[1][0]).unwrap();
    assert_eq!(example.runtime_tables[0].data[at], example.witness[2][0]);
}

#[test]
fn foreign_field_mul_example_draws_operands_below_the_modulus() {
    let modulus = pallas_scalar_modulus();
    let example =
        caml_pasta_fp_plonk_proof_example_with_foreign_field_mul(modulus.clone()).unwrap();
    assert_eq!(example.modulus, modulus);
    let bound = BigUint::from_bytes_be(&modulus);
    let left = BigUint::from_bytes_be(&example.left);
    let right = BigUint::from_bytes_be(&example.right);
    assert!(left < bound);
    assert!(right < bound);
    assert_ne!(left, right);
    // each operand is made of three limbs of 88 bits
    let limb = BigUint::from(1u8) << 88usize;
    for operand in [&left, &right] {
        let limbs = [operand % &limb, (operand >> 88usize) % &limb, operand >> 176usize];
        assert!(limbs.iter().all(|l| l < &limb));
        assert_eq!(&limbs[0] + (&limbs[1] << 88usize) + (&limbs[2] << 176usize), *operand);
    }
    // the product of the operands has twice the width of the modulus, and its
    // remainder is below the modulus
    let product = &left * &right;
    assert!(product.bits() <= 2 * bound.bits());
    assert!(&product % &bound < bound);
    assert_eq!((&product / &bound) * &bound + (&product % &bound), product);
}

#[test]
fn foreign_field_mul_example_draws_these_operands() {
    let example =
        caml_pasta_fp_plonk_proof_example_with_foreign_field_mul(pallas_scalar_modulus()).unwrap();
    let hex = |text: &[u8]| BigUint::parse_bytes(text, 16).unwrap();
    assert_eq!(
        BigUint::from_bytes_be(&example.left),
        hex(b"218d9e1d20a6bacce83c1bd0f1ecdcccbdd9d10a51103b0effe56f2247edc417")
    );
    assert_eq!(
        BigUint::from_bytes_be(&example.right),
        hex(b"1e6bc150fc72e2bbb5be0a950f836d46390d47abbfe39bff1b217c0cc615b299")
    );
}

#[test]
fn foreign_field_mul_example_is_the_same_every_time() {
    let first =
        caml_pasta_fp_plonk_proof_example_with_foreign_field_mul(pallas_scalar_modulus());
    let second =
        caml_pasta_fp_plonk_proof_example_with_foreign_field_mul(pallas_scalar_modulus());
    assert!(first.is_some());
    assert_eq!(first, second);
}

#[test]
fn foreign_field_mul_example_needs_a_modulus() {
    assert_eq!(caml_pasta_fp_plonk_proof_example_with_foreign_field_mul(vec![]), None);
    assert_eq!(caml_pasta_fp_plonk_proof_example_with_foreign_field_mul(vec![0, 0]), None);
    let example = caml_pasta_fp_plonk_proof_example_with_foreign_field_mul(vec![0, 1]).unwrap();
    assert_eq!(BigUint::from_bytes_be(&example.left), BigUint::from(0u8));
    assert_eq!(BigUint::from_bytes_be(&example.right), BigUint::from(0u8));
}

#[test]
fn foreign_field_mul_example_lays_out_its_gadgets_row_by_row() {
    let example =
        caml_pasta_fp_plonk_proof_example_with_foreign_field_mul(pallas_scalar_modulus()).unwrap();
    assert_eq!(example.plan.settings.public, 0);
    assert_eq!(example.plan.settings.lookup, vec![LookupTable::ForeignFieldMul]);
    assert_eq!(example.plan.settings.runtime, None);
    assert_eq!(
        example.plan.witness,
        vec![
            WitnessStep::ForeignFieldMul,
            WitnessStep::BoundAdditionOwed,
            WitnessStep::RangeCheckOperand(Operand::Left),
            WitnessStep::RangeCheckOperand(Operand::Right),
            WitnessStep::RangeChecksOwed,
            WitnessStep::CompactRangeChecksOwed,
        ]
    );
    let (gates, asked) = run(example.plan.program);
    assert_eq!(
        asked,
        vec![
            (Gadget::ForeignFieldMul, 0),
            (Gadget::ForeignFieldAdd, 2),
            (Gadget::MultiRangeCheck, 4),
            (Gadget::MultiRangeCheck, 8),
            (Gadget::MultiRangeCheck, 12),
            (Gadget::MultiRangeCheck, 16),
            (Gadget::CompactMultiRangeCheck, 20),
        ]
    );
    assert_eq!(gates.len(), 24 + 8192);
    let pairs = [
        ((1, 0), (2, 0)),
        ((1, 1), (2, 1)),
        ((1, 2), (2, 2)),
        ((0, 0), (4, 0)),
        ((0, 1), (5, 0)),
        ((0, 2), (6, 0)),
        ((0, 3), (8, 0)),
        ((0, 4), (9, 0)),
        ((0, 5), (10, 0)),
        ((0, 6), (12, 0)),
        ((1, 5), (13, 0)),
        ((1, 6), (14, 0)),
        ((3, 0), (16, 0)),
        ((3, 1), (17, 0)),
        ((3, 2), (18, 0)),
        ((1, 3), (22, 1)),
        ((1, 4), (20, 0)),
    ];
    for (a, b) in pairs {
        assert_eq!(gates[a.0].wires[a.1], Wire::new(b.0, b.1));
        assert_eq!(gates[b.0].wires[b.1], Wire::new(a.0, a.1));
    }
    for row in 24..24 + 8192 {
        assert_eq!(gates[row], Gate::zero(Wire::for_row(row)));
    }
    assert_eq!(check_table(&gates, 0), Ok(()));
}

#[test]
fn range_check_example_draws_three_limbs_below_the_bound() {
    // the least number that does not fit into a limb of 88 bits
    let mut bound = vec![0u8; 12];
    bound[0] = 1;
    let example = caml_pasta_fp_plonk_proof_example_with_range_check(bound.clone()).unwrap();
    assert_eq!(example.limbs.len(), 3);
    for limb in example.limbs.iter() {
        assert!(BigUint::from_bytes_be(limb) < BigUint::from_bytes_be(&bound));
        assert!(BigUint::from_bytes_be(limb).bits() <= 88);
    }
    assert_ne!(example.limbs[0], example.limbs[1]);
    assert_ne!(example.limbs[1], example.limbs[2]);
    assert_eq!(
        caml_pasta_fp_plonk_proof_example_with_range_check(bound),
        Some(example)
    );
}

#[test]
fn range_check_example_draws_these_limbs() {
    let mut bound = vec![0u8; 12];
    bound[0] = 1;
    let example = caml_pasta_fp_plonk_proof_example_with_range_check(bound).unwrap();
    let hex = |text: &[u8]| BigUint::parse_bytes(text, 16).unwrap();
    assert_eq!(BigUint::from_bytes_be(&example.limbs[0]), hex(b"3a8e19b59936d9eef93586"));
    assert_eq!(BigUint::from_bytes_be(&example.limbs[1]), hex(b"58ba68daae8a97f12bc2ac"));
    assert_eq!(BigUint::from_bytes_be(&example.limbs[2]), hex(b"d042102da5d63cbdd86a64"));
}

#[test]
fn range_check_example_needs_a_bound() {
    assert_eq!(caml_pasta_fp_plonk_proof_example_with_range_check(vec![0]), None);
    assert_eq!(caml_pasta_fp_plonk_proof_example_with_range_check(vec![]), None);
}

#[test]
fn range_check_example_is_one_gadget_and_padding() {
    let example = caml_pasta_fp_plonk_proof_example_with_range_check(vec![1, 0]).unwrap();
    assert_eq!(
        example.plan.program,
        vec![Step::Call(Gadget::MultiRangeCheck), Step::Rows(GateType::Zero, 8192)]
    );
    assert_eq!(example.plan.witness, vec![WitnessStep::RangeCheckLimbs]);
    assert_eq!(example.plan.settings.public, 0);
    assert_eq!(example.plan.settings.lookup, vec![LookupTable::RangeCheck]);
    assert_eq!(example.plan.settings.runtime, None);
    let (gates, asked) = run(example.plan.program);
    assert_eq!(asked, vec![(Gadget::MultiRangeCheck, 0)]);
    assert_eq!(gates.len(), 4 + 8192);
}

#[test]
fn ffadd_operands_are_modulus_minus_one() {
    let example = caml_pasta_fp_plonk_proof_example_with_ffadd();
    assert_eq!(
        example.modulus,
        vec![
            0xFF, 0xFF, 0xFF, 0xFF, 0xFF, 0xFF, 0xFF, 0xFF, 0xFF, 0xFF, 0xFE, 0xFF, 0xFF, 0xFF,
            0xFF, 0xFF, 0xFF, 0xFF, 0xFF, 0xFF, 0xFF, 0xFF, 0xFF, 0xFF, 0xFF, 0xFF, 0xFF, 0xFE,
            0xFF, 0xFF, 0xFC, 0x2F,
        ]
    );
    let expected = BigUint::parse_bytes(
        b"fffffffffffffffffffffefffffffffffffffffffffffffffffffffefffffc2e",
        16,
    )
    .unwrap();
    assert_eq!(BigUint::from_bytes_be(&example.left), expected);
    assert_eq!(BigUint::from_bytes_be(&example.right), expected);
    assert_ne!(example.left, example.modulus);
}

#[test]
fn ffadd_example_starts_from_a_public_one() {
    let example = caml_pasta_fp_plonk_proof_example_with_ffadd();
    assert_eq!(example.plan.settings.public, 1);
    assert_eq!(example.plan.settings.lookup, vec![LookupTable::RangeCheck]);
    assert_eq!(example.plan.settings.runtime, None);
    assert_eq!(example.witness[0], vec![1]);
    for c in 1..15 {
        assert_eq!(example.witness[c], vec![0]);
    }
    assert_eq!(public_inputs(&example.witness, 1), Some(vec![1]));
}

#[test]
fn ffadd_example_checks_the_limbs_of_operands_sum_and_bound() {
    let example = caml_pasta_fp_plonk_proof_example_with_ffadd();
    assert_eq!(
        example.plan.witness,
        vec![
            WitnessStep::ForeignFieldAddChain,
            WitnessStep::RangeCheckAt((1, 0)),
            WitnessStep::RangeCheckAt((1, 3)),
            WitnessStep::RangeCheckAt((2, 0)),
            WitnessStep::RangeCheckAt((3, 0)),
        ]
    );
    // a witness of four rows, as it is after the addition, has all these limbs
    let mut witness = plonk_proof::witness::filled(0u32, 4);
    for c in 0..15 {
        for r in 0..4 {
            witness[c][r] = (10 * r + c) as u32;
        }
    }
    let mut limbs = Vec::new();
    for step in example.plan.witness.iter() {
        if let WitnessStep::RangeCheckAt((row, col)) = step {
            limbs.push(limbs_at(&witness, *row, *col).unwrap());
        }
    }
    assert_eq!(limbs, vec![(10, 11, 12), (13, 14, 15), (20, 21, 22), (30, 31, 32)]);
}

#[test]
fn ffadd_example_lays_out_its_gadgets_row_by_row() {
    let example = caml_pasta_fp_plonk_proof_example_with_ffadd();
    let (gates, asked) = run(example.plan.program);
    assert_eq!(
        asked,
        vec![
            (Gadget::PublicInput, 0),
            (Gadget::ForeignFieldAddChain { public_row: 0, additions: 1 }, 1),
            (Gadget::MultiRangeCheck, 4),
            (Gadget::MultiRangeCheck, 8),
            (Gadget::MultiRangeCheck, 12),
            (Gadget::MultiRangeCheck, 16),
            (
                Gadget::ForeignFieldAddRangeChecks {
                    ffadd_row: 1,
                    left_rc: Some(4),
                    right_rc: Some(8),
                    out_rc: 12
                },
                20
            ),
            (
                Gadget::ForeignFieldAddRangeChecks {
                    ffadd_row: 2,
                    left_rc: None,
                    right_rc: None,
                    out_rc: 16
                },
                20
            ),
        ]
    );
    assert_eq!(gates.len(), 20 + 8192);
    assert_eq!(gates[20], Gate::zero(Wire::for_row(20)));
    assert_eq!(check_table(&gates, 1), Ok(()));
}

#[test]
fn xor_example_has_its_two_words_as_public_inputs() {
    let example = caml_pasta_fp_plonk_proof_example_with_xor();
    assert_eq!(example.input1, 0xDC811727DAF22EC15927D6AA275F406B);
    assert_eq!(example.input2, 0xA4F4417AF072DF9016A1EAB458DA80D1);
    assert_eq!(example.bits, 128);
    assert_eq!(example.input1 ^ example.input2, 0x7875565D2A80F1514F863C1E7F85C0BA);
    assert_eq!(example.witness[0], vec![example.input1, example.input2]);
    for c in 1..15 {
        assert_eq!(example.witness[c], vec![0, 0]);
    }
    assert_eq!(example.plan.settings.public, 2);
    assert_eq!(
        public_inputs(&example.witness, example.plan.settings.public),
        Some(vec![example.input1, example.input2])
    );
    assert_eq!(example.plan.settings.lookup, vec![LookupTable::Xor]);
    assert_eq!(example.plan.settings.runtime, None);
    assert_eq!(example.plan.witness, vec![WitnessStep::Xor]);
}

#[test]
fn xor_example_wires_its_public_inputs_to_the_gadget() {
    let example = caml_pasta_fp_plonk_proof_example_with_xor();
    let (gates, asked) = run(example.plan.program);
    assert_eq!(
        asked,
        vec![
            (Gadget::PublicInput, 0),
            (Gadget::PublicInput, 1),
            (Gadget::Xor { bits: 128 }, 2),
        ]
    );
    // eight rows of sixteen bits each and a last row
    assert_eq!(gates.len(), 2 + 9 + 8192);
    assert_eq!(gates[0].wires[0], Wire::new(2, 0));
    assert_eq!(gates[2].wires[0], Wire::new(0, 0));
    assert_eq!(gates[1].wires[0], Wire::new(2, 1));
    assert_eq!(gates[2].wires[1], Wire::new(1, 0));
    assert_eq!(check_table(&gates, 2), Ok(()));
}

#[test]
fn rot_example_rotates_a_public_word() {
    let example = caml_pasta_fp_plonk_proof_example_with_rot();
    assert_eq!(example.word, 0xDC811727DAF22EC1);
    assert_eq!(example.rot, 32);
    assert!(example.left);
    assert_eq!(example.word.rotate_left(example.rot), 0xDAF22EC1DC811727);
    assert_eq!(example.witness[0], vec![example.word, 0]);
    for c in 1..15 {
        assert_eq!(example.witness[c], vec![0, 0]);
    }
    assert_eq!(example.plan.settings.public, 2);
    assert_eq!(public_inputs(&example.witness, 2), Some(vec![example.word, 0]));
    assert_eq!(example.plan.settings.lookup, vec![LookupTable::Rot]);
    assert_eq!(example.plan.witness, vec![WitnessStep::Rot]);
}

#[test]
fn rot_example_wires_its_public_word_to_the_gadget() {
    let example = caml_pasta_fp_plonk_proof_example_with_rot();
    let (gates, asked) = run(example.plan.program);
    assert_eq!(
        asked,
        vec![
            (Gadget::PublicInput, 0),
            (Gadget::PublicInput, 1),
            (Gadget::Rot { rot: 32, left: true, zero_row: 1 }, 2),
        ]
    );
    assert_eq!(gates[0].wires[0], Wire::new(2, 0));
    assert_eq!(gates[2].wires[0], Wire::new(0, 0));
    assert_eq!(gates[1].wires[0], Wire::new(1, 0));
    assert_eq!(gates.len(), 2 + 3 + 8192);
}

#[test]
fn chacha_example_has_eight_blocks_from_one_state() {
    let example = caml_pasta_fp_plonk_proof_example_with_chacha();
    assert_eq!(example.plan.program, vec![Step::Call(Gadget::ChaCha20); 8]);
    assert_eq!(example.plan.witness, vec![WitnessStep::ChaChaBlock; 8]);
    assert_eq!(example.plan.settings.public, 0);
    assert!(example.plan.settings.lookup.is_empty());
    assert_eq!(example.plan.settings.runtime, None);
    assert_eq!(
        example.state,
        vec![
            0x61707865, 0x3320646e, 0x79622d32, 0x6b206574, 0x03020100, 0x07060504, 0x0b0a0908,
            0x0f0e0d0c, 0x13121110, 0x17161514, 0x1b1a1918, 0x1f1e1d1c, 0x00000001, 0x09000000,
            0x4a000000, 0x00000000,
        ]
    );
    // the constant words spell "expand 32-byte k"
    let mut text = Vec::new();
    for word in &example.state[0..4] {
        text.extend_from_slice(&word.to_le_bytes());
    }
    assert_eq!(text, b"expand 32-byte k".to_vec());
    let (gates, asked) = run(example.plan.program);
    assert_eq!(asked.len(), 8);
    assert_eq!(gates.len(), 8 * 4);
    for (row, gate) in gates.iter().enumerate() {
        assert_eq!(*gate, Gate::new(GateType::ChaCha0, Wire::for_row(row), vec![]));
    }
}
