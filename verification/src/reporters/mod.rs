//! Reports: the human and Markdown renderings, and the SARIF log model.
pub mod human;
pub mod markdown;
pub mod render;
pub mod sarif;

pub use render::{render, ReportKind, Reporter};
