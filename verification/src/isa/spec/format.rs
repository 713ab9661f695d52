//! Field layouts of the instruction formats.
pub mod r;
pub mod r2;
pub mod i;
pub mod u;
pub mod m;
pub mod bf;
pub mod bc;
pub mod j;
pub mod jr;
pub mod x;

use vstd::prelude::*;

verus! {


} // verus!
