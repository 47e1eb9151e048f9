//! Reading a parsed module: traversals, per-function and per-class metrics,
//! imports and comments.
pub mod fold;
pub mod lines;
pub mod metrics;
pub mod model;
pub mod source_model;
pub mod walk;
