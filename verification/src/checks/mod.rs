//! The rule catalog and its detectors.
pub mod catalog;
pub mod check;
pub mod expr_rules;
pub mod flow_rules;
pub mod hit;
pub mod laws;
pub mod layering;
pub mod model_rules;
pub mod registry;
pub mod run;
pub mod standalone;
pub mod stmt_rules;
pub mod stmt_scan;
pub mod syntax;
pub mod text_rules;
