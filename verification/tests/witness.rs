use plonk_proof::witness::{
    extend_columns, filled, from_rows, limbs_at, public_inputs, uniform_column,
};

fn numbered(rows: usize) -> [Vec<u32>; 15] {
    let mut witness = filled(0u32, rows);
    for c in 0..15 {
        for r in 0..rows {
            witness[c][r] = (100 * c + r) as u32;
        }
    }
    witness
}

#[test]
fn column_repeats_one_value() {
    assert_eq!(uniform_column(7u8, 3), vec![7, 7, 7]);
    assert_eq!(uniform_column(7u8, 0), Vec::<u8>::new());
}

#[test]
fn filled_table_has_fifteen_equal_columns() {
    let witness = filled('z', 4);
    assert_eq!(witness.len(), 15);
    for col in witness.iter() {
        assert_eq!(*col, vec!['z'; 4]);
    }
}

#[test]
fn rows_are_appended_column_by_column() {
    let mut witness = filled(1u32, 1);
    let more = numbered(2);
    extend_columns(&mut witness, &more);
    for c in 0..15 {
        assert_eq!(witness[c], vec![1, 100 * c as u32, 100 * c as u32 + 1]);
    }
    let none = filled(0u32, 0);
    let before = witness.clone();
    extend_columns(&mut witness, &none);
    assert_eq!(witness, before);
}

#[test]
fn columns_of_different_lengths_each_grow_by_their_own_rows() {
    let mut witness = filled(0u32, 1);
    let mut more = filled(5u32, 2);
    more[3] = vec![];
    more[4] = vec![6, 7, 8];
    extend_columns(&mut witness, &more);
    assert_eq!(witness[0], vec![0, 5, 5]);
    assert_eq!(witness[3], vec![0]);
    assert_eq!(witness[4], vec![0, 6, 7, 8]);
}

#[test]
fn table_of_rows_is_their_transpose() {
    let mut rows: Vec<[u32; 15]> = Vec::new();
    for r in 0..4u32 {
        let mut row = [0u32; 15];
        for c in 0..15 {
            row[c] = 100 * r + c as u32;
        }
        rows.push(row);
    }
    let witness = from_rows(&rows);
    for c in 0..15 {
        assert_eq!(witness[c].len(), 4);
        for r in 0..4 {
            assert_eq!(witness[c][r], rows[r][c]);
        }
    }
    let none: Vec<[u32; 15]> = vec![];
    assert_eq!(from_rows(&none), filled(0u32, 0));
}

#[test]
fn limbs_are_three_neighbours_in_a_row() {
    let witness = numbered(4);
    assert_eq!(limbs_at(&witness, 1, 0), Some((1, 101, 201)));
    assert_eq!(limbs_at(&witness, 1, 3), Some((301, 401, 501)));
    assert_eq!(limbs_at(&witness, 3, 12), Some((1203, 1303, 1403)));
}

#[test]
fn limbs_that_do_not_exist_are_none() {
    let mut witness = numbered(4);
    assert_eq!(limbs_at(&witness, 4, 0), None);
    assert_eq!(limbs_at(&witness, 0, 13), None);
    assert_eq!(limbs_at(&witness, 0, 14), None);
    assert_eq!(limbs_at(&witness, 0, usize::MAX), None);
    witness[2].truncate(3);
    assert_eq!(limbs_at(&witness, 3, 0), None);
    assert_eq!(limbs_at(&witness, 3, 1), None);
    assert_eq!(limbs_at(&witness, 3, 2), None);
    assert_eq!(limbs_at(&witness, 3, 3), Some((303, 403, 503)));
    assert_eq!(limbs_at(&witness, 2, 0), Some((2, 102, 202)));
}

#[test]
fn public_inputs_head_the_first_column() {
    let witness = numbered(4);
    assert_eq!(public_inputs(&witness, 0), Some(vec![]));
    assert_eq!(public_inputs(&witness, 2), Some(vec![0, 1]));
    assert_eq!(public_inputs(&witness, 4), Some(vec![0, 1, 2, 3]));
    assert_eq!(public_inputs(&witness, 5), None);
}
