//! Python source: locations, the syntax tree and the parser that builds it.
pub mod ast;
pub mod dump;
pub mod fields;
pub mod location;
pub mod lower;
pub mod lower_expr;
pub mod python;

pub use location::line_col;
pub use python::{ParseFailure, ParsedFile, PythonParser, RustPythonParser};
