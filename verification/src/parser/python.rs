//! Parsing Python source with `rustpython_parser`, and the parsed file the
//! rules work on.
use vstd::prelude::*;
use vstd::string::StringSliceAdditionalSpecFns;
use vstd::utf8::encode_utf8;
use super::ast::{module_view, Module, StmtV};
use super::dump::{read_dump, read_spec};
use super::lower::{lower_module, module_spec};
use crate::text::string_of;

verus! {

/// What `rustpython_parser::parse(source, Mode::Module, path)` hands back,
/// as text: on success the `Debug` rendering of the syntax tree, on failure
/// the error's `Display` message.
pub uninterp spec fn python_parse_rendering(source: Seq<char>, path: Seq<char>) -> Result<Seq<char>, Seq<char>>;

/// The character views of a textual result.
pub open spec fn text_result(r: Result<String, String>) -> Result<Seq<char>, Seq<char>> {
    match r {
        Ok(t) => Ok(t@),
        Err(e) => Err(e@),
    }
}

/// Calls `rustpython_parser::parse` in module mode and renders the outcome:
/// the tree with `{:?}`, an error with `to_string`. The contract claims only
/// that the rendered outcome is a function of the source and the path.
#[verifier::external_body]
fn parse_rendered(source: &str, path: &str) -> (r: Result<String, String>)
    ensures
        text_result(r) == python_parse_rendering(source@, path@),
{
    match rustpython_parser::parse(source, rustpython_parser::Mode::Module, path) {
        Ok(module) => Ok(format!("{:?}", module)),
        Err(err) => Err(err.to_string()),
    }
}

/// A parsed source file: where it came from, its text and its syntax tree.
pub struct ParsedFile {
    pub path: String,
    pub source: String,
    pub module: Module,
}

impl ParsedFile {
    /// Byte offsets into the source fit in a `usize` with room to spare.
    pub open spec fn wf(&self) -> bool {
        encode_utf8(self.source@).len() < usize::MAX
    }
}

/// The statements a source parses to: the parser's rendering of the tree,
/// read back and lowered (`None` when the parser accepts the source but its
/// rendering does not read back as a module).
pub open spec fn parsed_statements(source: Seq<char>, path: Seq<char>) -> Option<Seq<StmtV>> {
    match python_parse_rendering(source, path) {
        Ok(t) => match read_spec(t) {
            Some(d) => module_spec(d),
            None => None,
        },
        Err(_) => None,
    }
}

/// Why a file could not be parsed.
pub enum ParseFailure {
    /// The parser rejected the source; the parser's message.
    Syntax(String),
    /// The parser's tree could not be read back.
    UnreadableTree,
}

/// Something that parses Python source into a [`ParsedFile`].
pub trait PythonParser {
    /// Parses `source` (named `path` in messages) as a Python module.
    fn parse_file(&self, source: &str, path: &str) -> (r: Result<ParsedFile, ParseFailure>)
        requires
            source.spec_bytes().len() < usize::MAX,
    ;
}

/// The Python parser backed by `rustpython_parser`.
pub struct RustPythonParser;

impl PythonParser for RustPythonParser {
    /// Parses `source` (named `path` in messages) as a Python module.
    ///
    /// Fails with the parser's message exactly when the parser rejects the
    /// source; otherwise the file keeps the path and the source as given and
    /// holds the parser's tree, read back from its rendering and lowered
    /// ([`parsed_statements`]), or fails as unreadable when that tree does not
    /// read back.
    fn parse_file(&self, source: &str, path: &str) -> (r: Result<ParsedFile, ParseFailure>)
        ensures
            match python_parse_rendering(source@, path@) {
                Err(m) => r matches Err(ParseFailure::Syntax(x)) && x@ == m,
                Ok(_) => match parsed_statements(source@, path@) {
                    Some(body) => r matches Ok(f) && f.path@ == path@ && f.source@ == source@ && f.wf()
                        && module_view(f.module) == body,
                    None => r matches Err(ParseFailure::UnreadableTree),
                },
            },
    {
        match parse_rendered(source, path) {
            Err(msg) => Err(ParseFailure::Syntax(msg)),
            Ok(text) => {
                let tree = match read_dump(text.as_str()) {
                    Some(d) => d,
                    None => return Err(ParseFailure::UnreadableTree),
                };
                match lower_module(&tree) {
                    Some(module) => Ok(ParsedFile { path: string_of(path), source: string_of(source), module }),
                    None => Err(ParseFailure::UnreadableTree),
                }
            },
        }
    }
}

} // verus!
