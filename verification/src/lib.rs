//! Table-name extraction over a SQL syntax tree, and the rows of the issue
//! export, with their behaviour stated as Verus contracts.
use vstd::prelude::*;

pub mod analysis;
pub mod ast;
pub mod decimal;
pub mod extract;
pub mod extract_laws;
pub mod issue_export;

verus! {

} // verus!
