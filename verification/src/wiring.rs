//! What the wiring of a table demands of a witness: two cells that are wired
//! together hold the same value.

use crate::assembly::{AssemblyView, ReplyView, Step};
use crate::gate::{
    cell_in, connected, fully_wired, plain_row, plain_rows, typed_rows, Cell, GateType, GateView,
};
use crate::wires::{COLUMNS, PERMUTS};
use vstd::prelude::*;

verus! {

/// What `witness` holds in the cell `cell`.
pub open spec fn value_at<T>(witness: [Vec<T>; COLUMNS], cell: Cell) -> T {
    witness[cell.1 as int][cell.0 as int]
}

/// Whether `witness` meets the wiring of `table`: every wirable cell holds
/// what the cell that it is wired to holds.
pub open spec fn wiring_holds<F, T>(table: Seq<GateView<F>>, witness: [Vec<T>; COLUMNS]) -> bool {
    forall|r: int, c: int|
        0 <= r < table.len() && 0 <= c < PERMUTS ==> value_at(witness, (r as usize, c as usize))
            == value_at(
            witness,
            ((#[trigger] table[r].wires[c]).row, table[r].wires[c].col),
        )
}

/// Whether `witness` holds the same value in each two cells that `program`
/// connects.
pub open spec fn connects_agree<T>(program: Seq<Step>, witness: [Vec<T>; COLUMNS]) -> bool {
    forall|i: int|
        0 <= i < program.len() ==> (#[trigger] program[i] matches Step::Connect(a, b) ==> value_at(
            witness,
            a,
        ) == value_at(witness, b))
}

/// Two cells that hold the same value can be wired together: a witness that
/// met the wiring before meets it afterwards.
pub proof fn lemma_connect_keeps_wiring<F, T>(
    table: Seq<GateView<F>>,
    witness: [Vec<T>; COLUMNS],
    a: Cell,
    b: Cell,
)
    requires
        table.len() <= usize::MAX,
        fully_wired(table),
        cell_in(table, a),
        cell_in(table, b),
        wiring_holds(table, witness),
        value_at(witness, a) == value_at(witness, b),
    ensures
        wiring_holds(connected(table, a, b), witness),
{
    let after = connected(table, a, b);
    let wa = table[a.0 as int].wires[a.1 as int];
    let wb = table[b.0 as int].wires[b.1 as int];
    assert(value_at(witness, a) == value_at(witness, (wa.row, wa.col)));
    assert(value_at(witness, b) == value_at(witness, (wb.row, wb.col)));
    assert forall|r: int, c: int| 0 <= r < after.len() && 0 <= c < PERMUTS implies value_at(
        witness,
        (r as usize, c as usize),
    ) == value_at(witness, ((#[trigger] after[r].wires[c]).row, after[r].wires[c].col)) by {
        let w = table[r].wires[c];
        assert(table[r].wires.len() == PERMUTS);
        assert(value_at(witness, (r as usize, c as usize)) == value_at(witness, (w.row, w.col)));
        if r == b.0 && c == b.1 {
            assert(after[r].wires[c] == wa);
        } else if r == a.0 && c == a.1 {
            assert(after[r].wires[c] == wb);
        } else {
            assert(after[r].wires[c] == w);
        }
    }
}

/// Plain rows demand nothing: a witness that met the wiring before they were
/// appended meets it afterwards.
pub proof fn lemma_rows_keep_wiring<F, T>(
    table: Seq<GateView<F>>,
    witness: [Vec<T>; COLUMNS],
    types: Seq<GateType>,
)
    requires
        table.len() + types.len() <= usize::MAX,
        wiring_holds(table, witness),
    ensures
        wiring_holds(table + typed_rows(table.len() as int, types), witness),
{
    let after = table + typed_rows::<F>(table.len() as int, types);
    assert forall|r: int, c: int| 0 <= r < after.len() && 0 <= c < PERMUTS implies value_at(
        witness,
        (r as usize, c as usize),
    ) == value_at(witness, ((#[trigger] after[r].wires[c]).row, after[r].wires[c].col)) by {
        if r < table.len() {
            assert(after[r] == table[r]);
            let w = table[r].wires[c];
        } else {
            assert(after[r] == plain_row::<F>(types[r - table.len()], r));
        }
    }
}

proof fn lemma_run_keeps_wiring<F, T>(state: AssemblyView<F>, witness: [Vec<T>; COLUMNS])
    requires
        state.table.len() <= usize::MAX,
        fully_wired(state.table),
        wiring_holds(state.table, witness),
        connects_agree(state.program, witness),
    ensures
        wiring_holds(state.run().0.table, witness),
        fully_wired(state.run().0.table),
        state.run().0.table.len() <= usize::MAX,
    decreases state.program.len() - state.pc,
{
    if state.pc < state.program.len() {
        match state.program[state.pc as int] {
            Step::Call(_) => {},
            Step::Connect(a, b) => {
                if cell_in(state.table, a) && cell_in(state.table, b) {
                    lemma_connect_keeps_wiring(state.table, witness, a, b);
                    let next = AssemblyView {
                        pc: state.pc + 1,
                        table: connected(state.table, a, b),
                        ..state
                    };
                    assert forall|r: int| 0 <= r < next.table.len() implies (
                    #[trigger] next.table[r]).wires.len() == PERMUTS by {
                        assert(state.table[r].wires.len() == PERMUTS);
                    }
                    lemma_run_keeps_wiring(next, witness);
                }
            },
            Step::Rows(typ, count) => {
                if state.table.len() + count <= usize::MAX {
                    let types = Seq::new(count as nat, |i: int| typ);
                    lemma_rows_keep_wiring(state.table, witness, types);
                    assert(typed_rows::<F>(state.table.len() as int, types) =~= plain_rows::<F>(
                        typ,
                        state.table.len() as int,
                        count as nat,
                    ));
                    let next = AssemblyView {
                        pc: state.pc + 1,
                        table: state.table + plain_rows(
                            typ,
                            state.table.len() as int,
                            count as nat,
                        ),
                        ..state
                    };
                    assert forall|r: int| 0 <= r < next.table.len() implies (
                    #[trigger] next.table[r]).wires.len() == PERMUTS by {
                        if r < state.table.len() {
                            assert(next.table[r] == state.table[r]);
                        }
                    }
                    lemma_run_keeps_wiring(next, witness);
                }
            },
        }
    }
}

/// A witness that meets the wiring of every table that is handed in, and
/// that holds the same value in each two cells that the program connects,
/// meets the wiring of the table that is held.
pub proof fn lemma_step_keeps_wiring<F, T>(
    state: AssemblyView<F>,
    reply: ReplyView<F>,
    witness: [Vec<T>; COLUMNS],
)
    requires
        state.table.len() <= usize::MAX,
        fully_wired(state.table),
        wiring_holds(state.table, witness),
        connects_agree(state.program, witness),
        reply matches ReplyView::Table(table) ==> {
            &&& table.len() <= usize::MAX
            &&& fully_wired(table)
            &&& wiring_holds(table, witness)
        },
    ensures
        wiring_holds(state.step(reply).0.table, witness),
        fully_wired(state.step(reply).0.table),
        state.step(reply).0.table.len() <= usize::MAX,
{
    match state.received(reply) {
        Ok(taken) => {
            if let ReplyView::Types(types) = reply {
                if state.table.len() + types.len() <= usize::MAX {
                    lemma_rows_keep_wiring(state.table, witness, types);
                    assert forall|r: int| 0 <= r < taken.table.len() implies (
                    #[trigger] taken.table[r]).wires.len() == PERMUTS by {
                        if r < state.table.len() {
                            assert(taken.table[r] == state.table[r]);
                        }
                    }
                }
            }
            lemma_run_keeps_wiring(taken, witness);
        },
        Err(_) => {},
    }
}

} // verus!
