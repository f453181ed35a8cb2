//! What a constraint system is made from: the program that builds its gate
//! table, the number of public inputs and the lookup tables.

use crate::assembly::Step;
use crate::gate::{check_wires, wires_in_range, Cell, Gate};
use vstd::prelude::*;

verus! {

/// A fixed lookup table, named by the gadget that needs it.
#[derive(Clone, Copy, Debug, PartialEq, Eq, Structural)]
pub enum LookupTable {
    ForeignFieldMul,
    RangeCheck,
    Xor,
    Rot,
}

/// The shape of a lookup table whose entries arrive with each proof.
#[derive(Clone, Debug, PartialEq, Eq)]
pub enum RuntimeTableCfg {
    /// `len` entries, found by their index.
    Indexed { id: i32, len: usize },
    /// Entries found by the values of `first_column`.
    Custom { id: i32, first_column: Vec<u32> },
}

/// What a runtime table configuration holds.
#[verifier::ext_equal]
pub enum RuntimeTableCfgView {
    Indexed { id: i32, len: usize },
    Custom { id: i32, first_column: Seq<u32> },
}

impl View for RuntimeTableCfg {
    type V = RuntimeTableCfgView;

    open spec fn view(&self) -> RuntimeTableCfgView {
        match self {
            RuntimeTableCfg::Indexed { id, len } => RuntimeTableCfgView::Indexed {
                id: *id,
                len: *len,
            },
            RuntimeTableCfg::Custom { id, first_column } => RuntimeTableCfgView::Custom {
                id: *id,
                first_column: first_column@,
            },
        }
    }
}

impl DeepView for RuntimeTableCfg {
    type V = RuntimeTableCfgView;

    open spec fn deep_view(&self) -> RuntimeTableCfgView {
        self@
    }
}

impl RuntimeTableCfgView {
    pub open spec fn id(self) -> i32 {
        match self {
            RuntimeTableCfgView::Indexed { id, .. } => id,
            RuntimeTableCfgView::Custom { id, .. } => id,
        }
    }
}

impl RuntimeTableCfg {
    /// The identifier of the table.
    pub fn id(&self) -> (id: i32)
        ensures
            id == self@.id(),
    {
        match self {
            RuntimeTableCfg::Indexed { id, .. } => *id,
            RuntimeTableCfg::Custom { id, .. } => *id,
        }
    }
}

/// The entries of a runtime table, as they are supplied with a proof.
#[derive(Clone, Debug, PartialEq, Eq)]
pub struct RuntimeTable {
    pub id: i32,
    pub data: Vec<u32>,
}

/// What a runtime table holds.
#[verifier::ext_equal]
pub struct RuntimeTableView {
    pub id: i32,
    pub data: Seq<u32>,
}

impl View for RuntimeTable {
    type V = RuntimeTableView;

    open spec fn view(&self) -> RuntimeTableView {
        RuntimeTableView { id: self.id, data: self.data@ }
    }
}

impl DeepView for RuntimeTable {
    type V = RuntimeTableView;

    open spec fn deep_view(&self) -> RuntimeTableView {
        self@
    }
}

/// What a constraint system is built with, besides its gates.
#[derive(Clone, Debug, PartialEq, Eq)]
pub struct Settings {
    /// Number of rows at the head of the table that hold public inputs.
    pub public: usize,
    /// The fixed lookup tables.
    pub lookup: Vec<LookupTable>,
    /// The runtime tables, if the circuit has any.
    pub runtime: Option<Vec<RuntimeTableCfg>>,
}

/// What the settings hold.
#[verifier::ext_equal]
pub struct SettingsView {
    pub public: usize,
    pub lookup: Seq<LookupTable>,
    pub runtime: Option<Seq<RuntimeTableCfgView>>,
}

impl View for Settings {
    type V = SettingsView;

    open spec fn view(&self) -> SettingsView {
        SettingsView {
            public: self.public,
            lookup: self.lookup@,
            runtime: match self.runtime {
                Some(tables) => Some(tables.deep_view()),
                None => None,
            },
        }
    }
}

/// One of the two operands of an operation.
#[derive(Clone, Copy, Debug, PartialEq, Eq, Structural)]
pub enum Operand {
    Left,
    Right,
}

/// One step of a program that builds a witness. Each step has the gadget
/// library fill in the rows of one gadget, or of several, below the rows that
/// the witness has already.
#[derive(Clone, Copy, Debug, PartialEq, Eq)]
pub enum WitnessStep {
    /// The rows of a multiplication of the two operands in the foreign field.
    /// The multiplication leaves checks to be made of its results; the steps
    /// named `Owed` fill in their rows.
    ForeignFieldMul,
    /// The rows of the addition that bounds the result of the multiplication.
    BoundAdditionOwed,
    /// The rows of the range checks of two triples of results of the
    /// multiplication.
    RangeChecksOwed,
    /// The rows of the compact range check of the quotient's bound.
    CompactRangeChecksOwed,
    /// The rows of the range check of an operand's limbs.
    RangeCheckOperand(Operand),
    /// The rows of the range check of the three limbs that the example names.
    RangeCheckLimbs,
    /// The rows of the addition of the two operands in the foreign field, with
    /// its bound.
    ForeignFieldAddChain,
    /// The rows of the range check of the three limbs that the witness holds
    /// in the row and from the column of this cell on.
    RangeCheckAt(Cell),
    /// The rows of the exclusive or of the two words.
    Xor,
    /// The rows of the rotation of the word.
    Rot,
    /// The rows of one ChaCha20 block from the state.
    ChaChaBlock,
}

/// A circuit before it is built: the program for its table of gates, the
/// program for its witness and the settings of its constraint system.
#[derive(Clone, Debug, PartialEq, Eq)]
pub struct Plan {
    pub program: Vec<Step>,
    pub witness: Vec<WitnessStep>,
    pub settings: Settings,
}

/// Why a gate table cannot become a constraint system.
#[derive(Clone, Copy, Debug, PartialEq, Eq, Structural)]
pub enum SetupError {
    /// There are more public inputs than rows.
    PublicExceedsGates,
    /// A wire refers to a cell that the table does not have.
    WireOutOfRange,
}

/// What [`check_table`] returns for a table and a number of public inputs.
pub open spec fn table_checked<F>(
    table: Seq<crate::gate::GateView<F>>,
    public: usize,
) -> Result<(), SetupError> {
    if public > table.len() {
        Err(SetupError::PublicExceedsGates)
    } else if !wires_in_range(table) {
        Err(SetupError::WireOutOfRange)
    } else {
        Ok(())
    }
}

/// Checks a finished gate table before a constraint system is built from it:
/// the public inputs must fit into the table, and every wire must stay inside
/// it.
pub fn check_table<F>(gates: &Vec<Gate<F>>, public: usize) -> (checked: Result<(), SetupError>)
    ensures
        checked == table_checked(gates.deep_view(), public),
{
    if public > gates.len() {
        Err(SetupError::PublicExceedsGates)
    } else if !check_wires(gates) {
        Err(SetupError::WireOutOfRange)
    } else {
        Ok(())
    }
}

} // verus!
