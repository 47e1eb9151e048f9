//! Model-assisted review: opt-in, and contributing no findings yet.
use vstd::prelude::*;
use crate::base::issue::Issue;

verus! {

/// The model-assisted analyzer.
pub struct LlmAnalyzer;

impl LlmAnalyzer {
    /// Reviews the project at `root`; no model is wired in, so there are no
    /// findings.
    pub fn run(root: &str) -> (r: Vec<Issue>)
        ensures
            r@.len() == 0,
    {
        Vec::new()
    }
}

/// A provider of model completions, by name.
pub trait LlmProvider {
    fn name(&self) -> &str;
}

} // verus!
