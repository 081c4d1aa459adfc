//! Boundary-binding generation: type shapes, per-target conversion rules,
//! declaration exposition and the run-time ownership helpers that generated
//! code relies on.
use vstd::prelude::*;

pub mod ty;
pub mod conv;
pub mod c;
pub mod expose;
pub mod naming;
pub mod java;
pub mod shim;
pub mod runtime;
pub mod marshal;
pub mod laws;

verus! {

} // verus!
