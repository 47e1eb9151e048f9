//! Analyzers: the deterministic rule engine over files, external checkers
//! and the opt-in model-assisted review.
pub mod deterministic;
pub mod external;
pub mod llm;
pub mod order;
