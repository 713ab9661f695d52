//! Function codes of the R-, R2- and JR-type formats.
pub mod register_alu;
pub mod register_shift;
pub mod multiply_divide;
pub mod register_jump_call;

use vstd::prelude::*;

verus! {


} // verus!
