//! Calculation chains composed at compile time.
//!
//! A chain is built front to back by attaching one node at a time to a prefix
//! chain. A node may read, while it computes, every node that was attached
//! before it, and the type checker refuses a composition in which a node asks
//! for one that is not there. Recomputing a chain recomputes its prefix first
//! and then lets the last node compute against the fresh prefix.
use vstd::prelude::*;

pub mod graph;
pub mod nodes;

pub use graph::{add_calc, GraphCalc, GraphNodeCalc, Has, WithCalc};
pub use nodes::{Calc1, Calc2, Calc3};

verus! {

} // verus!
