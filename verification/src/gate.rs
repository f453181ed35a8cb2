//! Gates, one per row of the circuit table, and the operations that grow and
//! rewire a table.

use crate::wires::{Wire, PERMUTS};
use vstd::prelude::*;

verus! {

/// The kind of constraint that a row enforces.
#[derive(Clone, Copy, Debug, PartialEq, Eq, Structural)]
pub enum GateType {
    /// No constraint.
    Zero,
    Generic,
    Poseidon,
    CompleteAdd,
    VarBaseMul,
    EndoMul,
    EndoMulScalar,
    ChaCha0,
    ChaCha1,
    ChaCha2,
    ChaChaFinal,
    Lookup,
    CairoClaim,
    CairoInstruction,
    CairoFlags,
    CairoTransition,
    RangeCheck0,
    RangeCheck1,
    ForeignFieldAdd,
    ForeignFieldMul,
    Xor16,
    Rot64,
}

/// One row of the circuit table. `F` is the type of a field element; this
/// crate only moves such values around.
#[derive(Clone, Debug, PartialEq, Eq)]
pub struct Gate<F> {
    pub typ: GateType,
    /// For each wirable cell of the row, the cell it is connected to.
    pub wires: [Wire; PERMUTS],
    pub coeffs: Vec<F>,
}

/// What a gate holds.
#[verifier::ext_equal]
pub struct GateView<F> {
    pub typ: GateType,
    pub wires: Seq<Wire>,
    pub coeffs: Seq<F>,
}

impl<F> View for Gate<F> {
    type V = GateView<F>;

    open spec fn view(&self) -> GateView<F> {
        GateView { typ: self.typ, wires: self.wires@, coeffs: self.coeffs@ }
    }
}

impl<F> DeepView for Gate<F> {
    type V = GateView<F>;

    open spec fn deep_view(&self) -> GateView<F> {
        self@
    }
}

impl<F> Gate<F> {
    pub fn new(typ: GateType, wires: [Wire; PERMUTS], coeffs: Vec<F>) -> (gate: Gate<F>)
        ensures
            gate@ == (GateView { typ, wires: wires@, coeffs: coeffs@ }),
    {
        Gate { typ, wires, coeffs }
    }

    /// A row without a constraint and without coefficients.
    pub fn zero(wires: [Wire; PERMUTS]) -> (gate: Gate<F>)
        ensures
            gate@ == (GateView { typ: GateType::Zero, wires: wires@, coeffs: Seq::<F>::empty() }),
    {
        Gate { typ: GateType::Zero, wires, coeffs: Vec::new() }
    }
}

/// A row of type `typ` at `row` that is wired to nothing and has no
/// coefficients.
pub open spec fn plain_row<F>(typ: GateType, row: int) -> GateView<F> {
    GateView { typ, wires: Wire::row_wires(row as usize), coeffs: Seq::empty() }
}

/// Plain rows of the given types, placed from row `start` on.
pub open spec fn typed_rows<F>(start: int, types: Seq<GateType>) -> Seq<GateView<F>> {
    Seq::new(types.len(), |i: int| plain_row(types[i], start + i))
}

/// `count` plain rows of one type, placed from row `start` on.
pub open spec fn plain_rows<F>(typ: GateType, start: int, count: nat) -> Seq<GateView<F>> {
    Seq::new(count, |i: int| plain_row(typ, start + i))
}

/// A cell, as a row and a column.
pub type Cell = (usize, usize);

/// Whether `cell` is a wirable cell of `table`.
pub open spec fn cell_in<F>(table: Seq<GateView<F>>, cell: Cell) -> bool {
    cell.0 < table.len() && cell.1 < PERMUTS
}

/// `table` with the wire entries of the cells `a` and `b` exchanged.
pub open spec fn connected<F>(table: Seq<GateView<F>>, a: Cell, b: Cell) -> Seq<GateView<F>> {
    let wa = table[a.0 as int].wires[a.1 as int];
    let wb = table[b.0 as int].wires[b.1 as int];
    let first = table.update(
        a.0 as int,
        GateView { wires: table[a.0 as int].wires.update(a.1 as int, wb), ..table[a.0 as int] },
    );
    first.update(
        b.0 as int,
        GateView { wires: first[b.0 as int].wires.update(b.1 as int, wa), ..first[b.0 as int] },
    )
}

/// Connects two cells by exchanging their wire entries. Cells that were
/// wired to nothing but themselves are wired to each other afterwards.
pub fn connect_cell_pair<F>(gates: &mut Vec<Gate<F>>, a: Cell, b: Cell)
    requires
        cell_in(old(gates).deep_view(), a),
        cell_in(old(gates).deep_view(), b),
    ensures
        final(gates).deep_view() == connected(old(gates).deep_view(), a, b),
{
    let wa = gates[a.0].wires[a.1];
    let wb = gates[b.0].wires[b.1];
    gates[a.0].wires[a.1] = wb;
    gates[b.0].wires[b.1] = wa;
    assert(gates.deep_view() =~= connected(old(gates).deep_view(), a, b));
}

/// Appends `count` plain rows of type `typ` to the table.
pub fn append_rows<F>(gates: &mut Vec<Gate<F>>, typ: GateType, count: usize)
    requires
        old(gates).len() + count <= usize::MAX,
    ensures
        final(gates).deep_view() == old(gates).deep_view() + plain_rows(
            typ,
            old(gates).len() as int,
            count as nat,
        ),
{
    let start = gates.len();
    let ghost before = gates.deep_view();
    for i in 0..count
        invariant
            start + count <= usize::MAX,
            before.len() == start,
            gates.len() == start + i,
            gates.deep_view() == before + plain_rows::<F>(typ, start as int, i as nat),
    {
        let ghost grown = gates.deep_view();
        gates.push(Gate { typ, wires: Wire::for_row(start + i), coeffs: Vec::new() });
        assert forall|j: int| 0 <= j < gates.len() implies gates.deep_view()[j] == (before
            + plain_rows::<F>(typ, start as int, (i + 1) as nat))[j] by {
            if j < start + i {
                assert(gates.deep_view()[j] == grown[j]);
            }
        }
        assert(gates.deep_view() =~= before + plain_rows::<F>(typ, start as int, (i + 1) as nat));
    }
}

/// Appends one plain row for each entry of `types`, in order.
pub fn append_typed_rows<F>(gates: &mut Vec<Gate<F>>, types: &Vec<GateType>)
    requires
        old(gates).len() + types.len() <= usize::MAX,
    ensures
        final(gates).deep_view() == old(gates).deep_view() + typed_rows(
            old(gates).len() as int,
            types@,
        ),
{
    let start = gates.len();
    let ghost before = gates.deep_view();
    for i in 0..types.len()
        invariant
            start + types.len() <= usize::MAX,
            before.len() == start,
            gates.len() == start + i,
            gates.deep_view() == before + typed_rows::<F>(start as int, types@.take(i as int)),
    {
        let ghost grown = gates.deep_view();
        gates.push(Gate { typ: types[i], wires: Wire::for_row(start + i), coeffs: Vec::new() });
        assert forall|j: int| 0 <= j < gates.len() implies gates.deep_view()[j] == (before
            + typed_rows::<F>(start as int, types@.take(i + 1)))[j] by {
            if j < start + i {
                assert(gates.deep_view()[j] == grown[j]);
            }
        }
        assert(gates.deep_view() =~= before + typed_rows::<F>(
            start as int,
            types@.take(i + 1),
        ));
    }
    assert(types@.take(types.len() as int) == types@);
}

/// Whether `wire` refers to a wirable cell of a table of `rows` rows.
pub open spec fn wire_in_range(wire: Wire, rows: nat) -> bool {
    wire.row < rows && wire.col < PERMUTS
}

/// Whether every row of `table` has a wire for each of its wirable cells, as
/// the rows of every table that is held in memory have.
pub open spec fn fully_wired<F>(table: Seq<GateView<F>>) -> bool {
    forall|r: int| 0 <= r < table.len() ==> (#[trigger] table[r]).wires.len() == PERMUTS
}

/// Whether every row of `table` has a wire for each of its wirable cells, and
/// every wire refers to a wirable cell of `table`.
pub open spec fn wires_in_range<F>(table: Seq<GateView<F>>) -> bool {
    forall|r: int|
        0 <= r < table.len() ==> {
            &&& (#[trigger] table[r]).wires.len() == PERMUTS
            &&& forall|c: int|
                0 <= c < PERMUTS ==> wire_in_range(#[trigger] table[r].wires[c], table.len())
        }
}

/// Tells whether every wire of the table refers to a wirable cell of it.
pub fn check_wires<F>(gates: &Vec<Gate<F>>) -> (ok: bool)
    ensures
        ok == wires_in_range(gates.deep_view()),
{
    let n = gates.len();
    for r in 0..n
        invariant
            n == gates.len(),
            forall|r0: int, c: int|
                0 <= r0 < r && 0 <= c < PERMUTS ==> wire_in_range(
                    #[trigger] gates.deep_view()[r0].wires[c],
                    n as nat,
                ),
    {
        for c in 0..PERMUTS
            invariant
                r < n,
                n == gates.len(),
                forall|c0: int|
                    0 <= c0 < c ==> wire_in_range(
                        #[trigger] gates.deep_view()[r as int].wires[c0],
                        n as nat,
                    ),
        {
            let wire = gates[r].wires[c];
            assert(wire == gates.deep_view()[r as int].wires[c as int]);
            if wire.row >= n || wire.col >= PERMUTS {
                return false;
            }
        }
    }
    assert forall|r: int| 0 <= r < n implies (#[trigger] gates.deep_view()[r]).wires.len()
        == PERMUTS by {
        assert(gates.deep_view()[r].wires == gates@[r].wires@);
    }
    true
}

/// Connecting two cells of a table keeps every wire inside the table.
pub proof fn lemma_connected_in_range<F>(table: Seq<GateView<F>>, a: Cell, b: Cell)
    requires
        wires_in_range(table),
        cell_in(table, a),
        cell_in(table, b),
    ensures
        wires_in_range(connected(table, a, b)),
        connected(table, a, b).len() == table.len(),
{
    let after = connected(table, a, b);
    let wa = table[a.0 as int].wires[a.1 as int];
    let wb = table[b.0 as int].wires[b.1 as int];
    assert(wire_in_range(wa, table.len()));
    assert(wire_in_range(wb, table.len()));
    assert forall|r: int| 0 <= r < after.len() implies {
        &&& (#[trigger] after[r]).wires.len() == PERMUTS
        &&& forall|c: int|
            0 <= c < PERMUTS ==> wire_in_range(#[trigger] after[r].wires[c], after.len())
    } by {
        assert(table[r].wires.len() == PERMUTS);
        assert forall|c: int| 0 <= c < PERMUTS implies wire_in_range(
            #[trigger] after[r].wires[c],
            after.len(),
        ) by {
            let w = table[r].wires[c];
            assert(wire_in_range(w, table.len()));
            assert(after[r].wires[c] == wa || after[r].wires[c] == wb || after[r].wires[c] == w);
        }
    }
}

/// Plain rows appended to a table keep every wire inside the table.
pub proof fn lemma_rows_in_range<F>(table: Seq<GateView<F>>, types: Seq<GateType>)
    requires
        wires_in_range(table),
        table.len() + types.len() <= usize::MAX,
    ensures
        wires_in_range(table + typed_rows(table.len() as int, types)),
{
    let after = table + typed_rows::<F>(table.len() as int, types);
    assert forall|r: int| 0 <= r < after.len() implies {
        &&& (#[trigger] after[r]).wires.len() == PERMUTS
        &&& forall|c: int|
            0 <= c < PERMUTS ==> wire_in_range(#[trigger] after[r].wires[c], after.len())
    } by {
        if r < table.len() {
            assert(after[r] == table[r]);
            assert forall|c: int| 0 <= c < PERMUTS implies wire_in_range(
                #[trigger] after[r].wires[c],
                after.len(),
            ) by {
                assert(wire_in_range(table[r].wires[c], table.len()));
            }
        } else {
            assert(after[r] == plain_row::<F>(types[r - table.len()], r));
        }
    }
}

} // verus!
