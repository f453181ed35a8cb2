//! Witness tables: fifteen columns of equal length, one cell for each column
//! and row of the circuit table.
//!
//! A table is held column by column, `witness[col][row]`. `T` is the type of a
//! cell; this crate only moves cells around.

use crate::wires::COLUMNS;
use vstd::prelude::*;

verus! {

/// The cells of a column of `rows` cells that all hold `value`.
pub open spec fn constant_column<T>(value: T, rows: nat) -> Seq<T> {
    Seq::new(rows, |r: int| value)
}

/// Whether all columns of `witness` have `rows` cells.
pub open spec fn has_rows<T>(witness: [Vec<T>; COLUMNS], rows: nat) -> bool {
    forall|c: int| 0 <= c < COLUMNS ==> (#[trigger] witness[c]).len() == rows
}

/// A column of `rows` cells that all hold `value`.
pub fn uniform_column<T: Copy>(value: T, rows: usize) -> (cells: Vec<T>)
    ensures
        cells@ == constant_column(value, rows as nat),
{
    let mut cells: Vec<T> = Vec::new();
    for r in 0..rows
        invariant
            cells@ == constant_column(value, r as nat),
    {
        cells.push(value);
        assert(cells@ =~= constant_column(value, (r + 1) as nat));
    }
    cells
}

/// A table of `rows` rows in which every cell holds `value`.
pub fn filled<T: Copy>(value: T, rows: usize) -> (witness: [Vec<T>; COLUMNS])
    ensures
        forall|c: int|
            0 <= c < COLUMNS ==> (#[trigger] witness[c])@ == constant_column(value, rows as nat),
{
    [
        uniform_column(value, rows),
        uniform_column(value, rows),
        uniform_column(value, rows),
        uniform_column(value, rows),
        uniform_column(value, rows),
        uniform_column(value, rows),
        uniform_column(value, rows),
        uniform_column(value, rows),
        uniform_column(value, rows),
        uniform_column(value, rows),
        uniform_column(value, rows),
        uniform_column(value, rows),
        uniform_column(value, rows),
        uniform_column(value, rows),
        uniform_column(value, rows),
    ]
}

/// Appends the rows of `more` below those of `witness`, column by column.
pub fn extend_columns<T: Copy>(witness: &mut [Vec<T>; COLUMNS], more: &[Vec<T>; COLUMNS])
    ensures
        forall|c: int|
            0 <= c < COLUMNS ==> (#[trigger] final(witness)[c])@ == old(witness)[c]@ + more[c]@,
{
    let ghost before = *witness;
    for c in 0..COLUMNS
        invariant
            forall|d: int| 0 <= d < c ==> (#[trigger] witness[d])@ == before[d]@ + more[d]@,
            forall|d: int| c <= d < COLUMNS ==> (#[trigger] witness[d]) == before[d],
    {
        let n = more[c].len();
        for r in 0..n
            invariant
                c < COLUMNS,
                n == more[c as int].len(),
                witness[c as int]@ == before[c as int]@ + more[c as int]@.take(r as int),
                forall|d: int| 0 <= d < c ==> (#[trigger] witness[d])@ == before[d]@ + more[d]@,
                forall|d: int| c < d < COLUMNS ==> (#[trigger] witness[d]) == before[d],
        {
            let cell = more[c][r];
            witness[c].push(cell);
            assert(witness[c as int]@ =~= before[c as int]@ + more[c as int]@.take(r + 1));
        }
        assert(more[c as int]@.take(n as int) == more[c as int]@);
    }
}

/// The table whose rows are `rows`, in order.
pub fn from_rows<T: Copy>(rows: &Vec<[T; COLUMNS]>) -> (witness: [Vec<T>; COLUMNS])
    ensures
        has_rows(witness, rows.len() as nat),
        forall|c: int, r: int|
            0 <= c < COLUMNS && 0 <= r < rows.len() ==> #[trigger] witness[c][r] == rows[r][c],
{
    let mut witness: [Vec<T>; COLUMNS] = [
        Vec::new(),
        Vec::new(),
        Vec::new(),
        Vec::new(),
        Vec::new(),
        Vec::new(),
        Vec::new(),
        Vec::new(),
        Vec::new(),
        Vec::new(),
        Vec::new(),
        Vec::new(),
        Vec::new(),
        Vec::new(),
        Vec::new(),
    ];
    for r in 0..rows.len()
        invariant
            has_rows(witness, r as nat),
            forall|c: int, q: int|
                0 <= c < COLUMNS && 0 <= q < r ==> #[trigger] witness[c][q] == rows[q][c],
    {
        let ghost above = witness;
        for c in 0..COLUMNS
            invariant
                r < rows.len(),
                has_rows(above, r as nat),
                forall|d: int| 0 <= d < c ==> (#[trigger] witness[d])@ == above[d]@.push(rows[r as int][d]),
                forall|d: int| c <= d < COLUMNS ==> (#[trigger] witness[d]) == above[d],
        {
            let cell = rows[r][c];
            witness[c].push(cell);
        }
        assert forall|c: int, q: int| 0 <= c < COLUMNS && 0 <= q < r + 1 implies #[trigger] witness[c][q]
            == rows[q][c] by {
            assert(witness[c]@ == above[c]@.push(rows[r as int][c]));
            if q < r {
                assert(witness[c][q] == above[c][q]);
            }
        }
        assert forall|c: int| 0 <= c < COLUMNS implies (#[trigger] witness[c]).len() == r + 1 by {
            assert(witness[c]@ == above[c]@.push(rows[r as int][c]));
        }
    }
    witness
}

/// Whether the three cells of `row` that start at column `col` exist.
pub open spec fn has_limbs<T>(witness: [Vec<T>; COLUMNS], row: usize, col: usize) -> bool {
    &&& col + 2 < COLUMNS
    &&& row < witness[col as int].len()
    &&& row < witness[col + 1].len()
    &&& row < witness[col + 2].len()
}

/// The three cells of `row` that start at column `col`: the limbs of one
/// value, lowest first. `None` when one of the cells does not exist.
pub fn limbs_at<T: Copy>(witness: &[Vec<T>; COLUMNS], row: usize, col: usize) -> (limbs: Option<
    (T, T, T),
>)
    ensures
        limbs is Some <==> has_limbs(*witness, row, col),
        limbs is Some ==> limbs->0 == (
            witness[col as int][row as int],
            witness[col + 1][row as int],
            witness[col + 2][row as int],
        ),
{
    if col >= COLUMNS - 2 {
        return None;
    }
    if row >= witness[col].len() || row >= witness[col + 1].len() || row >= witness[col + 2].len() {
        return None;
    }
    Some((witness[col][row], witness[col + 1][row], witness[col + 2][row]))
}

/// The first `count` cells of the first column, where a circuit keeps its
/// public inputs. `None` when the column is shorter than that.
pub fn public_inputs<T: Copy>(witness: &[Vec<T>; COLUMNS], count: usize) -> (public: Option<Vec<T>>)
    ensures
        public is Some <==> count <= witness[0].len(),
        public is Some ==> public->0@ == witness[0]@.take(count as int),
{
    if count > witness[0].len() {
        return None;
    }
    let mut public: Vec<T> = Vec::new();
    for r in 0..count
        invariant
            count <= witness[0].len(),
            public@ == witness[0]@.take(r as int),
    {
        public.push(witness[0][r]);
        assert(public@ =~= witness[0]@.take(r + 1));
    }
    Some(public)
}

} // verus!
