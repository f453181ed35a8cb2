//! Assembling a gate table together with a gadget library that lives outside
//! this crate.
//!
//! A table is built by a program: a list of steps. Some steps are gadgets that
//! only the gadget library can lay out; the others (wiring two cells together,
//! appending plain rows) are carried out here. [`Assembly::step`] runs the
//! program up to the next gadget and says which one is wanted; the caller has
//! the gadget library lay it out and hands the grown table back with the next
//! call.

use crate::gate::{
    append_rows, append_typed_rows, cell_in, connect_cell_pair, connected, lemma_connected_in_range,
    lemma_rows_in_range, plain_rows, typed_rows, wires_in_range, Cell, Gate, GateType, GateView,
};
use crate::wires::PERMUTS;
use vstd::prelude::*;

verus! {

/// A gadget that the gadget library lays out, starting at the first free row
/// of the table.
#[derive(Clone, Copy, Debug, PartialEq, Eq)]
pub enum Gadget {
    /// One generic row that exposes a public input.
    PublicInput,
    /// A multiplication in the foreign field.
    ForeignFieldMul,
    /// One addition in the foreign field together with its bound check.
    ForeignFieldAdd,
    /// A chain of `additions` additions in the foreign field with the final
    /// bound check; `public_row` is the row of the public input that holds 1.
    ForeignFieldAddChain { public_row: usize, additions: usize },
    /// A range check of three limbs.
    MultiRangeCheck,
    /// A range check of three limbs, two of which arrive in compact form.
    CompactMultiRangeCheck,
    /// The exclusive or of two words of `bits` bits.
    Xor { bits: usize },
    /// The rotation of a 64-bit word by `rot` bits, to the left or to the
    /// right; `zero_row` is a row whose first cell holds 0.
    Rot { rot: u32, left: bool, zero_row: usize },
    /// No new rows: the limbs of the addition at `ffadd_row` are wired to the
    /// range checks that start at the given rows.
    ForeignFieldAddRangeChecks {
        ffadd_row: usize,
        left_rc: Option<usize>,
        right_rc: Option<usize>,
        out_rc: usize,
    },
    /// The rows of one ChaCha20 block. The gadget library names their types
    /// only; the rows are plain.
    ChaCha20,
}

/// One step of a program that builds a gate table.
#[derive(Clone, Copy, Debug, PartialEq, Eq)]
pub enum Step {
    /// Have the gadget library lay out a gadget.
    Call(Gadget),
    /// Wire two cells of the table together.
    Connect(Cell, Cell),
    /// Append this many plain rows of one type.
    Rows(GateType, usize),
}

/// Why a program cannot go on.
#[derive(Clone, Copy, Debug, PartialEq, Eq)]
pub enum Fault {
    /// A step wires a cell that the table does not have.
    CellOutOfRange,
    /// The table would have more rows than can be counted.
    TableTooLarge,
    /// The reply is not the kind that the program waits for.
    UnexpectedReply,
}

/// What [`Assembly::step`] asks of its caller.
#[derive(Clone, Copy, Debug, PartialEq, Eq)]
pub enum Request {
    /// Lay out `gadget` from row `row` on and hand back what it yields.
    Call { gadget: Gadget, row: usize },
    /// The program has run to its end; the table is complete.
    Done,
    /// The program cannot go on.
    Fault(Fault),
}

/// What the caller hands to [`Assembly::step`].
#[derive(Clone, Debug, PartialEq, Eq)]
pub enum Reply<F> {
    /// Nothing was asked for.
    Nothing,
    /// The whole table, after the gadget was laid out.
    Table(Vec<Gate<F>>),
    /// The types of the gadget's rows, in order.
    Types(Vec<GateType>),
}

/// What a reply holds.
pub enum ReplyView<F> {
    Nothing,
    Table(Seq<GateView<F>>),
    Types(Seq<GateType>),
}

impl<F> View for Reply<F> {
    type V = ReplyView<F>;

    open spec fn view(&self) -> ReplyView<F> {
        match self {
            Reply::Nothing => ReplyView::Nothing,
            Reply::Table(gates) => ReplyView::Table(gates.deep_view()),
            Reply::Types(types) => ReplyView::Types(types@),
        }
    }
}

/// A gate table under construction.
#[derive(Clone, Debug, PartialEq, Eq)]
pub struct Assembly<F> {
    pub program: Vec<Step>,
    /// Index of the next step.
    pub pc: usize,
    /// Whether the gadget at `pc` has been asked for and not yet handed in.
    pub awaiting: bool,
    pub gates: Vec<Gate<F>>,
}

/// What an assembly holds.
#[verifier::ext_equal]
pub struct AssemblyView<F> {
    pub program: Seq<Step>,
    pub pc: nat,
    pub awaiting: bool,
    pub table: Seq<GateView<F>>,
}

impl<F> View for Assembly<F> {
    type V = AssemblyView<F>;

    open spec fn view(&self) -> AssemblyView<F> {
        AssemblyView {
            program: self.program@,
            pc: self.pc as nat,
            awaiting: self.awaiting,
            table: self.gates.deep_view(),
        }
    }
}

impl<F> AssemblyView<F> {
    /// The gadget that was asked for and is still owed, if any.
    pub open spec fn pending(self) -> Option<Gadget> {
        if self.awaiting && self.pc < self.program.len() {
            match self.program[self.pc as int] {
                Step::Call(gadget) => Some(gadget),
                _ => None,
            }
        } else {
            None
        }
    }

    /// The state once `reply` is taken in, or the fault that it causes. A
    /// table replaces the one held; row types are appended as plain rows.
    pub open spec fn received(self, reply: ReplyView<F>) -> Result<AssemblyView<F>, Fault> {
        match (self.pending(), reply) {
            (None, ReplyView::Nothing) => Ok(AssemblyView { awaiting: false, ..self }),
            (Some(Gadget::ChaCha20), ReplyView::Types(types)) => {
                if self.table.len() + types.len() <= usize::MAX {
                    Ok(
                        AssemblyView {
                            pc: self.pc + 1,
                            awaiting: false,
                            table: self.table + typed_rows(self.table.len() as int, types),
                            ..self
                        },
                    )
                } else {
                    Err(Fault::TableTooLarge)
                }
            },
            (Some(gadget), ReplyView::Table(table)) => {
                if gadget == Gadget::ChaCha20 {
                    Err(Fault::UnexpectedReply)
                } else {
                    Ok(AssemblyView { pc: self.pc + 1, awaiting: false, table, ..self })
                }
            },
            _ => Err(Fault::UnexpectedReply),
        }
    }

    /// Runs the steps from `pc` on, up to the next gadget, the end of the
    /// program or a fault.
    pub open spec fn run(self) -> (AssemblyView<F>, Request)
        decreases self.program.len() - self.pc,
    {
        if self.pc >= self.program.len() {
            (self, Request::Done)
        } else {
            match self.program[self.pc as int] {
                Step::Call(gadget) => (
                    AssemblyView { awaiting: true, ..self },
                    Request::Call { gadget, row: self.table.len() as usize },
                ),
                Step::Connect(a, b) => {
                    if cell_in(self.table, a) && cell_in(self.table, b) {
                        AssemblyView {
                            pc: self.pc + 1,
                            table: connected(self.table, a, b),
                            ..self
                        }.run()
                    } else {
                        (self, Request::Fault(Fault::CellOutOfRange))
                    }
                },
                Step::Rows(typ, count) => {
                    if self.table.len() + count <= usize::MAX {
                        AssemblyView {
                            pc: self.pc + 1,
                            table: self.table + plain_rows(
                                typ,
                                self.table.len() as int,
                                count as nat,
                            ),
                            ..self
                        }.run()
                    } else {
                        (self, Request::Fault(Fault::TableTooLarge))
                    }
                },
            }
        }
    }

    /// One exchange with the caller: take the reply in, then run on. A reply
    /// that causes a fault leaves the state as it was.
    pub open spec fn step(self, reply: ReplyView<F>) -> (AssemblyView<F>, Request) {
        match self.received(reply) {
            Ok(state) => state.run(),
            Err(fault) => (self, Request::Fault(fault)),
        }
    }
}

impl<F> Assembly<F> {
    /// An empty table and a program that has not started.
    pub fn new(program: Vec<Step>) -> (assembly: Assembly<F>)
        ensures
            assembly@ == (AssemblyView::<F> {
                program: program@,
                pc: 0,
                awaiting: false,
                table: Seq::empty(),
            }),
    {
        let assembly = Assembly { program, pc: 0, awaiting: false, gates: Vec::new() };
        assert(assembly@.table =~= Seq::empty());
        assembly
    }

    /// The first call takes [`Reply::Nothing`]; each later call takes what the
    /// gadget named by the last request has yielded.
    pub fn step(&mut self, reply: Reply<F>) -> (request: Request)
        ensures
            final(self)@ == old(self)@.step(reply@).0,
            request == old(self)@.step(reply@).1,
    {
        let ghost asked = reply@;
        let ghost goal = old(self)@.step(asked);
        let pending: Option<Gadget> = if self.awaiting && self.pc < self.program.len() {
            match self.program[self.pc] {
                Step::Call(gadget) => Some(gadget),
                _ => None,
            }
        } else {
            None
        };
        match (pending, reply) {
            (None, Reply::Nothing) => {
                self.awaiting = false;
            },
            (Some(Gadget::ChaCha20), Reply::Types(types)) => {
                if types.len() > usize::MAX - self.gates.len() {
                    return Request::Fault(Fault::TableTooLarge);
                }
                append_typed_rows(&mut self.gates, &types);
                self.pc = self.pc + 1;
                self.awaiting = false;
            },
            (Some(Gadget::ChaCha20), Reply::Table(_)) => {
                return Request::Fault(Fault::UnexpectedReply);
            },
            (Some(_), Reply::Table(table)) => {
                self.gates = table;
                self.pc = self.pc + 1;
                self.awaiting = false;
            },
            _ => {
                return Request::Fault(Fault::UnexpectedReply);
            },
        }
        assert(self@.run() == goal);
        loop
            invariant
                !self.awaiting,
                goal == old(self)@.step(asked),
                asked == reply@,
                self@.run() == goal,
            decreases self.program.len() - self.pc,
        {
            if self.pc >= self.program.len() {
                return Request::Done;
            }
            match self.program[self.pc] {
                Step::Call(gadget) => {
                    self.awaiting = true;
                    return Request::Call { gadget, row: self.gates.len() };
                },
                Step::Connect(a, b) => {
                    let rows = self.gates.len();
                    if a.0 >= rows || a.1 >= PERMUTS || b.0 >= rows || b.1 >= PERMUTS {
                        return Request::Fault(Fault::CellOutOfRange);
                    }
                    connect_cell_pair(&mut self.gates, a, b);
                    self.pc = self.pc + 1;
                },
                Step::Rows(typ, count) => {
                    if count > usize::MAX - self.gates.len() {
                        return Request::Fault(Fault::TableTooLarge);
                    }
                    append_rows(&mut self.gates, typ, count);
                    self.pc = self.pc + 1;
                },
            }
        }
    }

    /// The table as it stands.
    pub fn into_gates(self) -> (gates: Vec<Gate<F>>)
        ensures
            gates.deep_view() == self@.table,
    {
        self.gates
    }
}

/// The number of rows that the table has when `program` has run from step
/// `pc` on, begun on a table of `len` rows, if each gadget takes the number
/// of rows that `rows` names for it. `None` where a step would be a fault.
pub open spec fn rows_after(
    program: Seq<Step>,
    pc: nat,
    len: nat,
    rows: spec_fn(Gadget) -> nat,
) -> Option<nat>
    decreases program.len() - pc,
{
    if pc >= program.len() {
        Some(len)
    } else {
        match program[pc as int] {
            Step::Call(gadget) => rows_after(program, pc + 1, len + rows(gadget), rows),
            Step::Connect(a, b) => {
                if a.0 < len && a.1 < PERMUTS && b.0 < len && b.1 < PERMUTS {
                    rows_after(program, pc + 1, len, rows)
                } else {
                    None
                }
            },
            Step::Rows(_, count) => {
                if len + count <= usize::MAX {
                    rows_after(program, pc + 1, len + count as nat, rows)
                } else {
                    None
                }
            },
        }
    }
}

/// Whether `reply` is what `state` waits for and has the number of rows that
/// `rows` names: a table that is longer than the table held by the rows of
/// the gadget that is owed, or as many types as a ChaCha20 block has rows;
/// nothing where no gadget is owed.
pub open spec fn reply_fits<F>(
    state: AssemblyView<F>,
    reply: ReplyView<F>,
    rows: spec_fn(Gadget) -> nat,
) -> bool {
    match (state.pending(), reply) {
        (None, ReplyView::Nothing) => true,
        (Some(gadget), ReplyView::Table(table)) => {
            &&& gadget != Gadget::ChaCha20
            &&& table.len() == state.table.len() + rows(gadget)
            &&& table.len() <= usize::MAX
        },
        (Some(gadget), ReplyView::Types(types)) => {
            &&& gadget == Gadget::ChaCha20
            &&& types.len() == rows(gadget)
            &&& state.table.len() + types.len() <= usize::MAX
        },
        _ => false,
    }
}

/// Whether `state` is on its way to a table of `total` rows: its program,
/// run on from where it stands, ends without a fault in such a table if each
/// gadget takes the number of rows that `rows` names for it.
pub open spec fn on_course<F>(
    state: AssemblyView<F>,
    rows: spec_fn(Gadget) -> nat,
    total: nat,
) -> bool {
    &&& state.table.len() <= usize::MAX
    &&& match state.pending() {
        Some(gadget) => rows_after(
            state.program,
            state.pc + 1,
            state.table.len() + rows(gadget),
            rows,
        ) == Some(total),
        None => rows_after(state.program, state.pc, state.table.len(), rows) == Some(total),
    }
}

/// What is known of a request when the state was on course before it: it is
/// no fault; at the end the table has `total` rows; and where a gadget is
/// asked for, it is asked for at the first free row and the state is on
/// course still.
pub open spec fn request_on_course<F>(
    outcome: (AssemblyView<F>, Request),
    rows: spec_fn(Gadget) -> nat,
    total: nat,
) -> bool {
    match outcome.1 {
        Request::Done => outcome.0.table.len() == total,
        Request::Call { gadget, row } => {
            &&& outcome.0.pending() == Some(gadget)
            &&& row == outcome.0.table.len()
            &&& on_course(outcome.0, rows, total)
        },
        Request::Fault(_) => false,
    }
}

proof fn lemma_run_on_course<F>(state: AssemblyView<F>, rows: spec_fn(Gadget) -> nat, total: nat)
    requires
        state.table.len() <= usize::MAX,
        rows_after(state.program, state.pc, state.table.len(), rows) == Some(total),
    ensures
        request_on_course(state.run(), rows, total),
    decreases state.program.len() - state.pc,
{
    if state.pc < state.program.len() {
        match state.program[state.pc as int] {
            Step::Call(_) => {},
            Step::Connect(a, b) => {
                let next = AssemblyView {
                    pc: state.pc + 1,
                    table: connected(state.table, a, b),
                    ..state
                };
                lemma_run_on_course(next, rows, total);
            },
            Step::Rows(typ, count) => {
                let next = AssemblyView {
                    pc: state.pc + 1,
                    table: state.table + plain_rows(typ, state.table.len() as int, count as nat),
                    ..state
                };
                lemma_run_on_course(next, rows, total);
            },
        }
    }
}

/// A program whose steps fit the rows of its gadgets never faults: as long
/// as every reply has the rows that its gadget takes, a state that is on
/// course stays on course, and at the end the table has the number of rows
/// that the program comes to.
pub proof fn lemma_step_on_course<F>(
    state: AssemblyView<F>,
    reply: ReplyView<F>,
    rows: spec_fn(Gadget) -> nat,
    total: nat,
)
    requires
        on_course(state, rows, total),
        reply_fits(state, reply, rows),
    ensures
        request_on_course(state.step(reply), rows, total),
{
    let taken = state.received(reply)->Ok_0;
    assert(state.received(reply) is Ok);
    lemma_run_on_course(taken, rows, total);
}

/// Running a program keeps every wire inside the table.
pub proof fn lemma_run_in_range<F>(state: AssemblyView<F>)
    requires
        wires_in_range(state.table),
    ensures
        wires_in_range(state.run().0.table),
    decreases state.program.len() - state.pc,
{
    if state.pc < state.program.len() {
        match state.program[state.pc as int] {
            Step::Call(_) => {},
            Step::Connect(a, b) => {
                if cell_in(state.table, a) && cell_in(state.table, b) {
                    lemma_connected_in_range(state.table, a, b);
                    lemma_run_in_range(
                        AssemblyView {
                            pc: state.pc + 1,
                            table: connected(state.table, a, b),
                            ..state
                        },
                    );
                }
            },
            Step::Rows(typ, count) => {
                if state.table.len() + count <= usize::MAX {
                    let types = Seq::new(count as nat, |i: int| typ);
                    lemma_rows_in_range(state.table, types);
                    assert(typed_rows::<F>(state.table.len() as int, types) =~= plain_rows::<F>(
                        typ,
                        state.table.len() as int,
                        count as nat,
                    ));
                    lemma_run_in_range(
                        AssemblyView {
                            pc: state.pc + 1,
                            table: state.table + plain_rows(
                                typ,
                                state.table.len() as int,
                                count as nat,
                            ),
                            ..state
                        },
                    );
                }
            },
        }
    }
}

/// As long as every table that is handed in keeps its wires inside itself,
/// so does the table that is held: the steps carried out here never lead a
/// wire out of the table.
pub proof fn lemma_step_in_range<F>(state: AssemblyView<F>, reply: ReplyView<F>)
    requires
        wires_in_range(state.table),
        reply matches ReplyView::Table(table) ==> wires_in_range(table),
    ensures
        wires_in_range(state.step(reply).0.table),
{
    match state.received(reply) {
        Ok(taken) => {
            if let ReplyView::Types(types) = reply {
                if state.table.len() + types.len() <= usize::MAX {
                    lemma_rows_in_range(state.table, types);
                }
            }
            lemma_run_in_range(taken);
        },
        Err(_) => {},
    }
}

} // verus!
