//! Everything the rules read from one parsed file, computed once: its
//! functions, classes, imports, lines and comments.
use vstd::prelude::*;
use super::fold::{lemma_take_ends};
use super::lines::{char_rows, collect_comments, comment_views, comments_of, source_lines, split_lines, CommentFacts, CommentView};
use super::model::{
    class_views, collect_class_views, collect_function_metrics, collect_imports, function_views, import_views,
    module_classes, module_functions, module_imports, src_bytes, ClassFacts, ClassView, FunctionFacts,
    FunctionMetrics, ImportFacts, ImportView,
};
use crate::parser::python::ParsedFile;
use crate::text::chars_of;

verus! {

/// What the rules see of one function.
pub struct FunctionView {
    pub name: String,
    pub line: usize,
    pub column: usize,
    pub arg_count: usize,
    pub body_lines: usize,
    pub branch_count: usize,
    pub max_conditional_depth: usize,
    pub has_docstring: bool,
}

impl View for FunctionView {
    type V = FunctionFacts;

    open spec fn view(&self) -> FunctionFacts {
        FunctionFacts {
            name: self.name@,
            line: self.line as int,
            column: self.column as int,
            arg_count: self.arg_count as int,
            body_lines: self.body_lines as int,
            branch_count: self.branch_count as int,
            max_conditional_depth: self.max_conditional_depth as int,
            has_docstring: self.has_docstring,
        }
    }
}

/// The models of a sequence of function views.
pub open spec fn function_view_facts(v: Seq<FunctionView>) -> Seq<FunctionFacts> {
    v.map_values(|f: FunctionView| f@)
}

/// The facts of one parsed file.
pub struct SourceModel {
    functions: Vec<FunctionView>,
    classes: Vec<ClassView>,
    imports: Vec<ImportView>,
    lines: Vec<Vec<char>>,
    comments: Vec<CommentView>,
}

impl SourceModel {
    /// The functions held.
    pub closed spec fn function_facts(&self) -> Seq<FunctionFacts> {
        function_view_facts(self.functions@)
    }

    /// The classes held.
    pub closed spec fn class_facts(&self) -> Seq<ClassFacts> {
        class_views(self.classes@)
    }

    /// The imports held.
    pub closed spec fn import_facts(&self) -> Seq<ImportFacts> {
        import_views(self.imports@)
    }

    /// The source lines held.
    pub closed spec fn line_facts(&self) -> Seq<Seq<char>> {
        char_rows(self.lines@)
    }

    /// The comments held.
    pub closed spec fn comment_facts(&self) -> Seq<CommentFacts> {
        comment_views(self.comments@)
    }

    /// The model of a file: every function, class, import, line and comment.
    pub open spec fn describes(&self, parsed: ParsedFile) -> bool {
        &&& self.function_facts() == module_functions(src_bytes(parsed), parsed.module)
        &&& self.class_facts() == module_classes(src_bytes(parsed), parsed.module)
        &&& self.import_facts() == module_imports(src_bytes(parsed), parsed.module)
        &&& self.line_facts() == source_lines(parsed.source@)
        &&& self.comment_facts() == comments_of(parsed.source@)
    }

    /// Reads every fact the rules use from a parsed file.
    pub fn from_parsed(parsed: &ParsedFile) -> (r: SourceModel)
        requires
            parsed.wf(),
        ensures
            r.describes(*parsed),
    {
        let metrics = collect_function_metrics(parsed);
        let mut functions: Vec<FunctionView> = Vec::new();
        let mut i: usize = 0;
        proof {
            lemma_take_ends(metrics@);
            assert(function_view_facts(functions@) =~= Seq::<FunctionFacts>::empty());
        }
        while i < metrics.len()
            invariant
                i <= metrics@.len(),
                function_view_facts(functions@) == function_views(metrics@.take(i as int)),
            decreases metrics@.len() - i,
        {
            let m = &metrics[i];
            let v = FunctionView {
                name: m.name.clone(),
                line: m.line,
                column: m.column,
                arg_count: m.arg_count,
                body_lines: m.body_lines,
                branch_count: m.branch_count,
                max_conditional_depth: m.max_conditional_depth,
                has_docstring: m.has_docstring,
            };
            let ghost before = functions@;
            functions.push(v);
            proof {
                assert(function_view_facts(functions@) =~= function_view_facts(before).push(v@));
                assert(function_views(metrics@.take(i + 1)) =~= function_views(metrics@.take(i as int)).push(
                    metrics@[i as int]@,
                ));
            }
            i = i + 1;
        }
        proof {
            lemma_take_ends(metrics@);
        }
        let classes = collect_class_views(parsed);
        let imports = collect_imports(parsed);
        let cs = chars_of(parsed.source.as_str());
        let lines = split_lines(&cs);
        let comments = collect_comments(&lines);
        SourceModel { functions, classes, imports, lines, comments }
    }

    /// Every function of the file, nested ones included, in pre-order.
    pub fn functions(&self) -> (r: &Vec<FunctionView>)
        ensures
            function_view_facts(r@) == self.function_facts(),
    {
        &self.functions
    }

    /// Every class of the file, nested ones included, in pre-order.
    pub fn classes(&self) -> (r: &Vec<ClassView>)
        ensures
            class_views(r@) == self.class_facts(),
    {
        &self.classes
    }

    /// Every import of the file, in pre-order.
    pub fn imports(&self) -> (r: &Vec<ImportView>)
        ensures
            import_views(r@) == self.import_facts(),
    {
        &self.imports
    }

    /// The lines of the source.
    pub fn lines(&self) -> (r: &Vec<Vec<char>>)
        ensures
            char_rows(r@) == self.line_facts(),
    {
        &self.lines
    }

    /// Every comment of the file, by line.
    pub fn comments(&self) -> (r: &Vec<CommentView>)
        ensures
            comment_views(r@) == self.comment_facts(),
    {
        &self.comments
    }
}

} // verus!
