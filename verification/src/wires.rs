//! Cells of the circuit table and the wires between them.

use vstd::prelude::*;

verus! {

/// Number of witness columns of a circuit table.
pub const COLUMNS: usize = 15;

/// Number of leading columns whose cells can be wired to other cells.
pub const PERMUTS: usize = 7;

/// A reference to the cell at `row` and `col` of the circuit table.
#[derive(Clone, Copy, Debug, PartialEq, Eq, Structural)]
pub struct Wire {
    pub row: usize,
    pub col: usize,
}

impl Wire {
    /// The wiring of a row whose cells are connected to nothing: cell `c`
    /// refers to itself.
    pub open spec fn row_wires(row: usize) -> Seq<Wire> {
        Seq::new(PERMUTS as nat, |c: int| Wire { row, col: c as usize })
    }

    pub fn new(row: usize, col: usize) -> (wire: Wire)
        ensures
            wire == (Wire { row, col }),
    {
        Wire { row, col }
    }

    /// The wires of a fresh row: every cell refers to itself.
    pub fn for_row(row: usize) -> (wires: [Wire; PERMUTS])
        ensures
            wires@ == Self::row_wires(row),
    {
        let wires = [
            Wire { row, col: 0 },
            Wire { row, col: 1 },
            Wire { row, col: 2 },
            Wire { row, col: 3 },
            Wire { row, col: 4 },
            Wire { row, col: 5 },
            Wire { row, col: 6 },
        ];
        assert(wires@ =~= Self::row_wires(row));
        wires
    }
}

} // verus!
