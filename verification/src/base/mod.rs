//! Shared vocabulary: severities, categories and issues.
pub mod category;
pub mod issue;
pub mod severity;

pub use category::Category;
pub use issue::{ConfidenceKind, Issue};
pub use severity::Severity;
