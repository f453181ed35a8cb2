//! A thousand lookup rows that query runtime tables.
//!
//! Every row looks three pairs of index and value up in the table with
//! identifier 0: the first cell of a row names the table, the next six cells
//! hold the pairs.

use crate::assembly::{rows_after, AssemblyView, Gadget, ReplyView, Request, Step};
use crate::circuit::{
    Plan, RuntimeTable, RuntimeTableCfg, RuntimeTableCfgView, RuntimeTableView, Settings,
    SettingsView, WitnessStep,
};
use crate::gate::{plain_rows, GateType};
use crate::views::lemma_deep_view_push;
use crate::wires::COLUMNS;
use crate::witness::{constant_column, uniform_column};
use vstd::prelude::*;

verus! {

/// Number of rows of the circuit.
pub const ROWS: usize = 1000;

/// Number of runtime tables.
pub const TABLES: i32 = 5;

/// The example: the circuit, the entries of its runtime tables and its
/// witness.
#[derive(Clone, Debug, PartialEq, Eq)]
pub struct LookupExample {
    pub plan: Plan,
    pub runtime_tables: Vec<RuntimeTable>,
    pub witness: [Vec<u32>; COLUMNS],
}

/// The first column of a table that is not indexed.
pub open spec fn first_column() -> Seq<u32> {
    seq![8u32, 9u32, 8u32, 7u32, 1u32]
}

/// The entries of every runtime table.
pub open spec fn entries() -> Seq<u32> {
    seq![0u32, 2u32, 3u32, 4u32, 5u32]
}

/// The shape of the runtime table with identifier `id`.
pub open spec fn table_cfg(indexed: bool, id: int) -> RuntimeTableCfgView {
    if indexed {
        RuntimeTableCfgView::Indexed { id: id as i32, len: 5 }
    } else {
        RuntimeTableCfgView::Custom { id: id as i32, first_column: first_column() }
    }
}

/// What every row of the witness holds in column `col`: the table identifier
/// 0 in the first column; then three times the index that is looked up (1 in
/// an indexed table, else 9, which the first column has at 1) and the value 2
/// found there; 0 in the columns that the lookup does not use.
pub open spec fn cell(indexed: bool, col: int) -> u32 {
    if 1 <= col < 7 {
        if col % 2 == 1 {
            if indexed {
                1
            } else {
                9
            }
        } else {
            2
        }
    } else {
        0
    }
}

/// The circuit with five runtime tables, indexed or not, one public input and
/// a witness whose lookups succeed.
pub fn caml_pasta_fp_plonk_proof_example_with_lookup(indexed: bool) -> (example: LookupExample)
    ensures
        example.plan.program@ == seq![Step::Rows(GateType::Lookup, ROWS)],
        example.plan.witness@ == Seq::<WitnessStep>::empty(),
        example.plan.settings@ == (SettingsView {
            public: 1,
            lookup: Seq::empty(),
            runtime: Some(Seq::new(TABLES as nat, |id: int| table_cfg(indexed, id))),
        }),
        example.runtime_tables.deep_view() == Seq::new(
            TABLES as nat,
            |id: int| RuntimeTableView { id: id as i32, data: entries() },
        ),
        forall|c: int|
            0 <= c < COLUMNS ==> (#[trigger] example.witness[c])@ == constant_column(
                cell(indexed, c),
                ROWS as nat,
            ),
{
    let mut setup: Vec<RuntimeTableCfg> = Vec::new();
    let mut runtime_tables: Vec<RuntimeTable> = Vec::new();
    let mut id: i32 = 0;
    while id < TABLES
        invariant
            0 <= id <= TABLES,
            setup.deep_view() == Seq::new(id as nat, |i: int| table_cfg(indexed, i)),
            runtime_tables.deep_view() == Seq::new(
                id as nat,
                |i: int| RuntimeTableView { id: i as i32, data: entries() },
            ),
        decreases TABLES - id,
    {
        let cfg = if indexed {
            RuntimeTableCfg::Indexed { id, len: 5 }
        } else {
            RuntimeTableCfg::Custom { id, first_column: vec![8, 9, 8, 7, 1] }
        };
        assert(cfg@ =~= table_cfg(indexed, id as int));
        let table = RuntimeTable { id: cfg.id(), data: vec![0, 2, 3, 4, 5] };
        assert(table@ =~= (RuntimeTableView { id, data: entries() }));
        let ghost setup_before = setup;
        let ghost tables_before = runtime_tables;
        setup.push(cfg);
        runtime_tables.push(table);
        proof {
            lemma_deep_view_push(setup_before, setup, cfg);
            lemma_deep_view_push(tables_before, runtime_tables, table);
        }
        id = id + 1;
        assert(setup.deep_view() =~= Seq::new(id as nat, |i: int| table_cfg(indexed, i)));
        assert(runtime_tables.deep_view() =~= Seq::new(
            id as nat,
            |i: int| RuntimeTableView { id: i as i32, data: entries() },
        ));
    }

    let index: u32 = if indexed {
        1
    } else {
        9
    };
    let witness = [
        uniform_column(0u32, ROWS),
        uniform_column(index, ROWS),
        uniform_column(2u32, ROWS),
        uniform_column(index, ROWS),
        uniform_column(2u32, ROWS),
        uniform_column(index, ROWS),
        uniform_column(2u32, ROWS),
        uniform_column(0u32, ROWS),
        uniform_column(0u32, ROWS),
        uniform_column(0u32, ROWS),
        uniform_column(0u32, ROWS),
        uniform_column(0u32, ROWS),
        uniform_column(0u32, ROWS),
        uniform_column(0u32, ROWS),
        uniform_column(0u32, ROWS),
    ];

    let settings = Settings { public: 1, lookup: Vec::new(), runtime: Some(setup) };
    assert(settings@ =~= (SettingsView {
        public: 1,
        lookup: Seq::empty(),
        runtime: Some(Seq::new(TABLES as nat, |id: int| table_cfg(indexed, id))),
    }));
    LookupExample {
        plan: Plan {
            program: vec![Step::Rows(GateType::Lookup, ROWS)],
            witness: Vec::new(),
            settings,
        },
        runtime_tables,
        witness,
    }
}

/// The program of the example needs no gadget: its first step ends it, with
/// a table of a thousand plain lookup rows.
pub proof fn lemma_table<F>()
    ensures
        (AssemblyView::<F> {
            program: seq![Step::Rows(GateType::Lookup, ROWS)],
            pc: 0,
            awaiting: false,
            table: Seq::empty(),
        }).step(ReplyView::Nothing) == (
            AssemblyView::<F> {
                program: seq![Step::Rows(GateType::Lookup, ROWS)],
                pc: 1,
                awaiting: false,
                table: plain_rows(GateType::Lookup, 0, ROWS as nat),
            },
            Request::Done,
        ),
{
    reveal_with_fuel(AssemblyView::run, 2);
    let start = AssemblyView::<F> {
        program: seq![Step::Rows(GateType::Lookup, ROWS)],
        pc: 0,
        awaiting: false,
        table: Seq::empty(),
    };
    assert(start.received(ReplyView::Nothing) == Ok::<_, crate::assembly::Fault>(start));
    assert(Seq::<crate::gate::GateView<F>>::empty() + plain_rows::<F>(
        GateType::Lookup,
        0,
        ROWS as nat,
    ) =~= plain_rows::<F>(GateType::Lookup, 0, ROWS as nat));
}

/// The table has a thousand rows, whatever rows the gadgets take.
pub proof fn lemma_layout(rows: spec_fn(Gadget) -> nat)
    ensures
        rows_after(seq![Step::Rows(GateType::Lookup, ROWS)], 0, 0, rows) == Some(ROWS as nat),
{
    reveal_with_fuel(rows_after, 2);
}

} // verus!
