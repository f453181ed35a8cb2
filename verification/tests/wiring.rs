use plonk_proof::circuit::{check_table, SetupError};
use plonk_proof::gate::{
    append_rows, append_typed_rows, check_wires, connect_cell_pair, Gate, GateType,
};
use plonk_proof::wires::{Wire, COLUMNS, PERMUTS};

fn plain(rows: usize) -> Vec<Gate<u64>> {
    let mut gates = Vec::new();
    append_rows(&mut gates, GateType::Generic, rows);
    gates
}

#[test]
fn table_has_fifteen_columns_of_which_seven_are_wired() {
    assert_eq!(COLUMNS, 15);
    assert_eq!(PERMUTS, 7);
}

#[test]
fn wires_of_a_fresh_row_refer_to_their_own_cells() {
    let wires = Wire::for_row(5);
    assert_eq!(wires.len(), 7);
    for (col, wire) in wires.iter().enumerate() {
        assert_eq!(*wire, Wire::new(5, col));
        assert_eq!(wire.row, 5);
        assert_eq!(wire.col, col);
    }
}

#[test]
fn zero_gate_has_no_constraint_and_no_coefficients() {
    let gate: Gate<u64> = Gate::zero(Wire::for_row(3));
    assert_eq!(gate.typ, GateType::Zero);
    assert_eq!(gate.wires, Wire::for_row(3));
    assert!(gate.coeffs.is_empty());
}

#[test]
fn new_gate_holds_what_it_is_given() {
    let gate = Gate::new(GateType::Poseidon, Wire::for_row(1), vec![7u64, 8, 9]);
    assert_eq!(gate.typ, GateType::Poseidon);
    assert_eq!(gate.wires, Wire::for_row(1));
    assert_eq!(gate.coeffs, vec![7, 8, 9]);
}

#[test]
fn connecting_two_cells_exchanges_their_wires() {
    let mut gates = plain(3);
    connect_cell_pair(&mut gates, (0, 1), (2, 4));
    assert_eq!(gates[0].wires[1], Wire::new(2, 4));
    assert_eq!(gates[2].wires[4], Wire::new(0, 1));
    // every other wire is as it was
    for row in 0..3 {
        for col in 0..7 {
            if (row, col) != (0, 1) && (row, col) != (2, 4) {
                assert_eq!(gates[row].wires[col], Wire::new(row, col));
            }
        }
    }
    // types and coefficients are as they were
    assert_eq!(gates[0].typ, GateType::Generic);
    assert!(gates[2].coeffs.is_empty());
}

#[test]
fn connecting_a_third_cell_joins_it_to_the_cycle() {
    let mut gates = plain(3);
    connect_cell_pair(&mut gates, (0, 0), (1, 0));
    connect_cell_pair(&mut gates, (0, 0), (2, 0));
    // 0 -> 2 -> 1 -> 0
    assert_eq!(gates[0].wires[0], Wire::new(2, 0));
    assert_eq!(gates[2].wires[0], Wire::new(1, 0));
    assert_eq!(gates[1].wires[0], Wire::new(0, 0));
}

#[test]
fn connecting_a_cell_to_itself_changes_nothing() {
    let mut gates = plain(2);
    let before = gates.clone();
    connect_cell_pair(&mut gates, (1, 3), (1, 3));
    assert_eq!(gates, before);
}

#[test]
fn connecting_two_cells_of_one_row_exchanges_their_wires() {
    let mut gates = plain(1);
    connect_cell_pair(&mut gates, (0, 2), (0, 6));
    assert_eq!(gates[0].wires[2], Wire::new(0, 6));
    assert_eq!(gates[0].wires[6], Wire::new(0, 2));
}

#[test]
fn appended_rows_are_plain_and_numbered_on() {
    let mut gates = plain(2);
    append_rows(&mut gates, GateType::Zero, 3);
    assert_eq!(gates.len(), 5);
    assert_eq!(gates[1].typ, GateType::Generic);
    for row in 2..5 {
        assert_eq!(gates[row], Gate::zero(Wire::for_row(row)));
    }
    append_rows(&mut gates, GateType::Lookup, 0);
    assert_eq!(gates.len(), 5);
}

#[test]
fn typed_rows_take_their_types_in_order() {
    let mut gates = plain(1);
    append_typed_rows(
        &mut gates,
        &vec![GateType::ChaCha0, GateType::ChaCha1, GateType::ChaChaFinal],
    );
    assert_eq!(gates.len(), 4);
    assert_eq!(gates[1], Gate::new(GateType::ChaCha0, Wire::for_row(1), vec![]));
    assert_eq!(gates[2], Gate::new(GateType::ChaCha1, Wire::for_row(2), vec![]));
    assert_eq!(gates[3], Gate::new(GateType::ChaChaFinal, Wire::for_row(3), vec![]));
}

#[test]
fn wires_inside_the_table_pass_the_check() {
    let mut gates = plain(4);
    assert!(check_wires(&gates));
    connect_cell_pair(&mut gates, (0, 0), (3, 6));
    assert!(check_wires(&gates));
    let empty: Vec<Gate<u64>> = Vec::new();
    assert!(check_wires(&empty));
}

#[test]
fn a_wire_to_a_missing_row_fails_the_check() {
    let mut gates = plain(4);
    gates[2].wires[5] = Wire::new(4, 0);
    assert!(!check_wires(&gates));
}

#[test]
fn a_wire_to_a_column_that_is_not_wired_fails_the_check() {
    let mut gates = plain(4);
    gates[3].wires[6] = Wire::new(0, 7);
    assert!(!check_wires(&gates));
}

#[test]
fn table_check_tells_its_errors_apart() {
    let gates = plain(4);
    assert_eq!(check_table(&gates, 0), Ok(()));
    assert_eq!(check_table(&gates, 4), Ok(()));
    assert_eq!(check_table(&gates, 5), Err(SetupError::PublicExceedsGates));
    let mut broken = plain(4);
    broken[0].wires[0] = Wire::new(9, 0);
    assert_eq!(check_table(&broken, 1), Err(SetupError::WireOutOfRange));
    // too many public inputs are reported before a wire out of range
    assert_eq!(check_table(&broken, 5), Err(SetupError::PublicExceedsGates));
}

/// Whether every wirable cell of the witness holds what the cell that it is
/// wired to holds.
fn meets(gates: &Vec<Gate<u64>>, witness: &[Vec<u32>; 15]) -> bool {
    (0..gates.len()).all(|r| {
        (0..7).all(|c| {
            let wire = gates[r].wires[c];
            witness[c][r] == witness[wire.col][wire.row]
        })
    })
}

#[test]
fn cells_with_equal_values_can_be_wired_together() {
    let mut witness = plonk_proof::witness::filled(0u32, 3);
    for c in 0..15 {
        for r in 0..3 {
            witness[c][r] = (10 * r + c) as u32;
        }
    }
    witness[4][2] = witness[1][0];
    witness[6][1] = witness[1][0];
    let mut gates = plain(3);
    assert!(meets(&gates, &witness));
    connect_cell_pair(&mut gates, (0, 1), (2, 4));
    assert!(meets(&gates, &witness));
    connect_cell_pair(&mut gates, (2, 4), (1, 6));
    assert!(meets(&gates, &witness));
    append_rows(&mut gates, GateType::Zero, 0);
    assert!(meets(&gates, &witness));
    // a witness that is changed in one of the wired cells meets it no longer
    witness[6][1] += 1;
    assert!(!meets(&gates, &witness));
}

#[test]
fn cells_with_different_values_cannot_be_wired_together() {
    let mut witness = plonk_proof::witness::filled(0u32, 2);
    witness[0][0] = 5;
    witness[3][1] = 6;
    let mut gates = plain(2);
    assert!(meets(&gates, &witness));
    connect_cell_pair(&mut gates, (0, 0), (1, 3));
    assert!(!meets(&gates, &witness));
}
