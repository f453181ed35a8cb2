//! Ready-made circuits, one for each kind of gadget.
//!
//! Each example names the program that builds its gate table, the settings of
//! its constraint system and the inputs that its witness starts from. The
//! gadgets themselves are laid out by the gadget library.

pub mod chacha;
pub mod foreign_field_add;
pub mod foreign_field_mul;
pub mod lookup;
pub mod range_check;
pub mod rot;
pub mod xor;

use vstd::prelude::*;

verus! {

/// Number of rows without a constraint that are put below a circuit, so that
/// the table is long enough for the lookup table of its gadgets.
pub const PADDING: usize = 8192;

} // verus!
