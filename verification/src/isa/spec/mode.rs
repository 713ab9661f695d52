//! Mode codes of the I- and U-type formats.
pub mod immediate_arithmetic_compare;
pub mod immediate_logical;
pub mod immediate_shift;
pub mod bit_immediate;
pub mod constant_construction;

use vstd::prelude::*;

verus! {


} // verus!
