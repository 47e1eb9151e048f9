//! Zerum: deterministic-first code governance for Python sources.
//!
//! The library holds the rule engine (configuration resolution, the rule
//! catalog and its detectors over a Python syntax-tree model), the location
//! arithmetic, report building and the bookkeeping around external checkers.
//! Each of them is stated with `requires` / `ensures` contracts and proved.
pub mod analysis;
pub mod analyzers;
pub mod base;
pub mod checks;
pub mod cli;
pub mod config;
pub mod discovery;
pub mod integrations;
pub mod parser;
pub mod reporters;
pub mod text;

use vstd::prelude::*;

verus! {

} // verus!
