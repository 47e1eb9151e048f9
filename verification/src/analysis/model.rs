//! The per-file facts the rules read: functions with their metrics, classes
//! with their method and attribute counts, and imported modules.
use vstd::prelude::*;
use vstd::string::StringSliceAdditionalSpecFns;
use vstd::utf8::encode_utf8;
use super::fold::{flat_map, lemma_flat_map_step, lemma_take_ends};
use super::metrics::{
    arg_count, block_branches, block_depth, body_starts_with_docstring, count_args, count_branches,
    max_conditional_depth, sat, span_of, starts_with_docstring, stmt_line_span,
};
use super::walk::{derefs, module_statements, module_stmts};
use crate::parser::ast::{Alias, Expr, ExprKind, Module, Stmt, StmtKind};
use crate::parser::location::{line_col_at, spec_line_col};
use crate::parser::python::ParsedFile;
use crate::text::{push_char, push_str, str_eq};

verus! {

/// The source bytes of a parsed file.
pub open spec fn src_bytes(p: ParsedFile) -> Seq<u8> {
    encode_utf8(p.source@)
}

// ---------------------------------------------------------------------------
// Functions
// ---------------------------------------------------------------------------

/// Metrics of one function definition (`def` or `async def`).
pub struct FunctionMetrics {
    pub name: String,
    pub line: usize,
    pub column: usize,
    pub arg_count: usize,
    pub body_lines: usize,
    pub branch_count: usize,
    pub max_conditional_depth: usize,
    pub has_docstring: bool,
}

/// Mathematical model of a function's metrics.
pub ghost struct FunctionFacts {
    pub name: Seq<char>,
    pub line: int,
    pub column: int,
    pub arg_count: int,
    pub body_lines: int,
    pub branch_count: int,
    pub max_conditional_depth: int,
    pub has_docstring: bool,
}

impl View for FunctionMetrics {
    type V = FunctionFacts;

    open spec fn view(&self) -> FunctionFacts {
        FunctionFacts {
            name: self.name@,
            line: self.line as int,
            column: self.column as int,
            arg_count: self.arg_count as int,
            body_lines: self.body_lines as int,
            branch_count: self.branch_count as int,
            max_conditional_depth: self.max_conditional_depth as int,
            has_docstring: self.has_docstring,
        }
    }
}

/// The models of a sequence of function metrics.
pub open spec fn function_views(v: Seq<FunctionMetrics>) -> Seq<FunctionFacts> {
    v.map_values(|m: FunctionMetrics| m@)
}

/// The metrics of a statement if it defines a function: its location, its
/// parameter count, the line span of its body, its branches, the deepest
/// conditional nesting of its body and whether the body opens with a
/// docstring.
pub open spec fn function_facts_of(bytes: Seq<u8>, s: Stmt) -> Seq<FunctionFacts> {
    match s.kind {
        StmtKind::FunctionDef { name, args, body, .. } => seq![
            FunctionFacts {
                name: name@,
                line: spec_line_col(bytes, s.start as int).0,
                column: spec_line_col(bytes, s.start as int).1,
                arg_count: sat(arg_count(args)),
                body_lines: span_of(bytes, body@),
                branch_count: sat(block_branches(body@)),
                max_conditional_depth: block_depth(body@, 0),
                has_docstring: starts_with_docstring(body@),
            },
        ],
        _ => Seq::empty(),
    }
}

/// [`function_facts_of`] as a function of the statement.
pub open spec fn function_facts_fn(bytes: Seq<u8>) -> spec_fn(Stmt) -> Seq<FunctionFacts> {
    |s: Stmt| function_facts_of(bytes, s)
}

/// Every function of a module, nested ones included, in statement pre-order.
pub open spec fn module_functions(bytes: Seq<u8>, m: Module) -> Seq<FunctionFacts> {
    flat_map(module_stmts(m), function_facts_fn(bytes))
}

/// Metrics of every function of the file.
pub fn collect_function_metrics(parsed: &ParsedFile) -> (r: Vec<FunctionMetrics>)
    requires
        parsed.wf(),
    ensures
        function_views(r@) == module_functions(src_bytes(*parsed), parsed.module),
{
    let ghost bytes = src_bytes(*parsed);
    let ghost f = function_facts_fn(bytes);
    let source = parsed.source.as_str();
    let stmts = module_statements(&parsed.module);
    let ghost ss = derefs(stmts@);
    let mut out: Vec<FunctionMetrics> = Vec::new();
    let mut i: usize = 0;
    proof {
        lemma_take_ends(ss);
        assert(function_views(out@) =~= Seq::<FunctionFacts>::empty());
    }
    while i < stmts.len()
        invariant
            i <= stmts@.len(),
            ss == derefs(stmts@),
            ss == module_stmts(parsed.module),
            bytes == src_bytes(*parsed),
            source@ == parsed.source@,
            source.spec_bytes() == bytes,
            bytes.len() < usize::MAX,
            f == function_facts_fn(bytes),
            function_views(out@) == flat_map(ss.take(i as int), f),
        decreases stmts@.len() - i,
    {
        proof {
            lemma_flat_map_step(ss, i as int, f);
        }
        let s: &Stmt = stmts[i];
        match &s.kind {
            StmtKind::FunctionDef { name, args, body, .. } => {
                let (line, column) = line_col_at(source, s.start);
                let m = FunctionMetrics {
                    name: name.clone(),
                    line,
                    column,
                    arg_count: count_args(args),
                    body_lines: stmt_line_span(source, body),
                    branch_count: count_branches(body),
                    max_conditional_depth: max_conditional_depth(body, 0),
                    has_docstring: body_starts_with_docstring(body),
                };
                let ghost before = out@;
                out.push(m);
                proof {
                    assert(function_views(out@) =~= function_views(before).push(m@));
                }
            },
            _ => {},
        }
        i = i + 1;
    }
    proof {
        lemma_take_ends(ss);
    }
    out
}

// ---------------------------------------------------------------------------
// Classes
// ---------------------------------------------------------------------------

/// Method and attribute counts of one class definition.
pub struct ClassView {
    pub name: String,
    pub line: usize,
    pub column: usize,
    pub method_count: usize,
    pub public_method_count: usize,
    pub instance_var_count: usize,
}

/// Mathematical model of a class's counts.
pub ghost struct ClassFacts {
    pub name: Seq<char>,
    pub line: int,
    pub column: int,
    pub method_count: int,
    pub public_method_count: int,
    pub instance_var_count: int,
}

impl View for ClassView {
    type V = ClassFacts;

    open spec fn view(&self) -> ClassFacts {
        ClassFacts {
            name: self.name@,
            line: self.line as int,
            column: self.column as int,
            method_count: self.method_count as int,
            public_method_count: self.public_method_count as int,
            instance_var_count: self.instance_var_count as int,
        }
    }
}

/// The models of a sequence of class views.
pub open spec fn class_views(v: Seq<ClassView>) -> Seq<ClassFacts> {
    v.map_values(|c: ClassView| c@)
}

/// A name that does not start with an underscore.
pub open spec fn is_public_name(n: Seq<char>) -> bool {
    !(n.len() > 0 && n[0] == '_')
}

/// Functions defined directly in a class body (`def` and `async def`).
pub open spec fn method_count(b: Seq<Stmt>) -> int
    decreases b.len(),
{
    if b.len() == 0 {
        0
    } else {
        method_count(b.drop_last()) + if b.last().kind is FunctionDef {
            1int
        } else {
            0int
        }
    }
}

/// Every `def` and every `async def` directly in a class body is one method:
/// the method count is the number of function definitions in the body,
/// whether they are async or not, adding an `async def` adds one method, and
/// the public methods are among them.
pub proof fn law_every_function_definition_is_a_method(b: Seq<Stmt>, s: Stmt)
    ensures
        method_count(b) == b.filter(|t: Stmt| t.kind is FunctionDef).len(),
        s.kind is FunctionDef ==> method_count(b.push(s)) == method_count(b) + 1,
        (s.kind matches StmtKind::FunctionDef { is_async, .. } && is_async) ==> method_count(b.push(s)) == method_count(
            b,
        ) + 1,
        0 <= public_method_count(b) <= method_count(b),
        public_method_count(b) == b.filter(|t: Stmt| public_definition(t)).len(),
    decreases b.len(),
{
    let f = |t: Stmt| t.kind is FunctionDef;
    let g = |t: Stmt| public_definition(t);
    assert(b.push(s).drop_last() =~= b);
    if b.len() == 0 {
        assert(b.filter(f) =~= Seq::<Stmt>::empty());
        assert(b.filter(g) =~= Seq::<Stmt>::empty());
    } else {
        let p = b.drop_last();
        law_every_function_definition_is_a_method(p, b.last());
        p.lemma_filter_push(b.last(), f);
        p.lemma_filter_push(b.last(), g);
        assert(p.push(b.last()) =~= b);
    }
}

/// A `def` or `async def` whose name does not start with `_`.
pub open spec fn public_definition(t: Stmt) -> bool {
    t.kind matches StmtKind::FunctionDef { name, .. } && is_public_name(name@)
}

/// Methods of a class body whose names do not start with `_`.
pub open spec fn public_method_count(b: Seq<Stmt>) -> int
    decreases b.len(),
{
    if b.len() == 0 {
        0
    } else {
        public_method_count(b.drop_last()) + match b.last().kind {
            StmtKind::FunctionDef { name, .. } => if is_public_name(name@) {
                1int
            } else {
                0int
            },
            _ => 0int,
        }
    }
}

/// The attribute names assigned as `self.<attr>` among assignment targets.
pub open spec fn self_attrs(ts: Seq<Expr>) -> Seq<Seq<char>>
    decreases ts.len(),
{
    if ts.len() == 0 {
        Seq::empty()
    } else {
        self_attrs(ts.drop_last()) + match ts.last().kind {
            ExprKind::Attribute { value, attr } => match value.kind {
                ExprKind::Name { id } => if id@ == "self"@ {
                    seq![attr@]
                } else {
                    Seq::empty()
                },
                _ => Seq::empty(),
            },
            _ => Seq::empty(),
        }
    }
}

/// `self.<attr>` targets of the assignments directly in a function body.
pub open spec fn init_attrs(b: Seq<Stmt>) -> Seq<Seq<char>>
    decreases b.len(),
{
    if b.len() == 0 {
        Seq::empty()
    } else {
        init_attrs(b.drop_last()) + match b.last().kind {
            StmtKind::Assign { targets, .. } => self_attrs(targets@),
            _ => Seq::empty(),
        }
    }
}

/// `self.<attr>` targets assigned in the (non-async) `__init__` methods of a
/// class body.
pub open spec fn class_attrs(b: Seq<Stmt>) -> Seq<Seq<char>>
    decreases b.len(),
{
    if b.len() == 0 {
        Seq::empty()
    } else {
        class_attrs(b.drop_last()) + match b.last().kind {
            StmtKind::FunctionDef { is_async, name, body, .. } => if !is_async && name@ == "__init__"@ {
                init_attrs(body@)
            } else {
                Seq::empty()
            },
            _ => Seq::empty(),
        }
    }
}

/// The elements of `s` without repeats, in order of first occurrence.
pub open spec fn distinct<T>(s: Seq<T>) -> Seq<T>
    decreases s.len(),
{
    if s.len() == 0 {
        Seq::empty()
    } else {
        let d = distinct(s.drop_last());
        if d.contains(s.last()) {
            d
        } else {
            d.push(s.last())
        }
    }
}

/// The counts of a statement if it defines a class.
pub open spec fn class_facts_of(bytes: Seq<u8>, s: Stmt) -> Seq<ClassFacts> {
    match s.kind {
        StmtKind::ClassDef { name, body, .. } => seq![
            ClassFacts {
                name: name@,
                line: spec_line_col(bytes, s.start as int).0,
                column: spec_line_col(bytes, s.start as int).1,
                method_count: sat(method_count(body@)),
                public_method_count: sat(public_method_count(body@)),
                instance_var_count: sat(distinct(class_attrs(body@)).len() as int),
            },
        ],
        _ => Seq::empty(),
    }
}

/// [`class_facts_of`] as a function of the statement.
pub open spec fn class_facts_fn(bytes: Seq<u8>) -> spec_fn(Stmt) -> Seq<ClassFacts> {
    |s: Stmt| class_facts_of(bytes, s)
}

/// Every class of a module, nested ones included, in statement pre-order.
pub open spec fn module_classes(bytes: Seq<u8>, m: Module) -> Seq<ClassFacts> {
    flat_map(module_stmts(m), class_facts_fn(bytes))
}

/// The character views of a sequence of strings.
pub open spec fn string_views(v: Seq<String>) -> Seq<Seq<char>> {
    v.map_values(|s: String| s@)
}

/// Adds `a` to `seen` unless an equal string is already there.
fn add_distinct(seen: &mut Vec<String>, a: &String)
    ensures
        string_views(final(seen)@) == if string_views(old(seen)@).contains(a@) {
            string_views(old(seen)@)
        } else {
            string_views(old(seen)@).push(a@)
        },
{
    let mut k: usize = 0;
    while k < seen.len()
        invariant
            k <= seen@.len(),
            forall|j: int| 0 <= j < k ==> seen@[j]@ != a@,
        decreases seen@.len() - k,
    {
        if str_eq(seen[k].as_str(), a.as_str()) {
            proof {
                assert(string_views(seen@)[k as int] == a@);
            }
            return;
        }
        k = k + 1;
    }
    proof {
        assert(!string_views(seen@).contains(a@)) by {
            if string_views(seen@).contains(a@) {
                let j = choose|j: int| 0 <= j < string_views(seen@).len() && string_views(seen@)[j] == a@;
                assert(seen@[j]@ == a@);
            }
        }
    }
    let ghost before = seen@;
    seen.push(a.clone());
    proof {
        assert(string_views(seen@) =~= string_views(before).push(a@));
    }
}

/// Adds the `self.<attr>` targets of `ts` to `seen`.
fn add_self_attrs(seen: &mut Vec<String>, ts: &Vec<Expr>)
    ensures
        string_views(final(seen)@) == distinct_onto(string_views(old(seen)@), self_attrs(ts@)),
{
    let mut i: usize = 0;
    let ghost start = string_views(seen@);
    proof {
        lemma_take_ends(ts@);
    }
    while i < ts.len()
        invariant
            i <= ts@.len(),
            string_views(seen@) == distinct_onto(start, self_attrs(ts@.take(i as int))),
        decreases ts@.len() - i,
    {
        proof {
            assert(ts@.take(i + 1).drop_last() =~= ts@.take(i as int));
            assert(ts@.take(i + 1).last() == ts@[i as int]);
        }
        match &ts[i].kind {
            ExprKind::Attribute { value, attr } => match &value.kind {
                ExprKind::Name { id } => {
                    if str_eq(id.as_str(), "self") {
                        proof {
                            lemma_distinct_onto_push(start, self_attrs(ts@.take(i as int)), attr@);
                            assert(self_attrs(ts@.take(i + 1)) =~= self_attrs(ts@.take(i as int)).push(attr@));
                        }
                        add_distinct(seen, attr);
                    } else {
                        proof {
                            assert(self_attrs(ts@.take(i + 1)) =~= self_attrs(ts@.take(i as int)));
                        }
                    }
                },
                _ => {
                    proof {
                        assert(self_attrs(ts@.take(i + 1)) =~= self_attrs(ts@.take(i as int)));
                    }
                },
            },
            _ => {
                proof {
                    assert(self_attrs(ts@.take(i + 1)) =~= self_attrs(ts@.take(i as int)));
                }
            },
        }
        i = i + 1;
    }
    proof {
        lemma_take_ends(ts@);
    }
}

/// `base` followed by the elements of `s` that are not yet present, in order
/// of first occurrence.
pub open spec fn distinct_onto<T>(base: Seq<T>, s: Seq<T>) -> Seq<T>
    decreases s.len(),
{
    if s.len() == 0 {
        base
    } else {
        let d = distinct_onto(base, s.drop_last());
        if d.contains(s.last()) {
            d
        } else {
            d.push(s.last())
        }
    }
}

/// Adding one element after a prefix.
pub proof fn lemma_distinct_onto_push<T>(base: Seq<T>, s: Seq<T>, x: T)
    ensures
        distinct_onto(base, s.push(x)) == if distinct_onto(base, s).contains(x) {
            distinct_onto(base, s)
        } else {
            distinct_onto(base, s).push(x)
        },
{
    assert(s.push(x).drop_last() =~= s);
}

/// Concatenation: distinct elements of `s + t` onto `base`.
pub proof fn lemma_distinct_onto_concat<T>(base: Seq<T>, s: Seq<T>, t: Seq<T>)
    ensures
        distinct_onto(base, s + t) == distinct_onto(distinct_onto(base, s), t),
    decreases t.len(),
{
    if t.len() == 0 {
        assert(s + t =~= s);
    } else {
        lemma_distinct_onto_concat(base, s, t.drop_last());
        assert((s + t).drop_last() =~= s + t.drop_last());
    }
}

/// From the empty base, [`distinct_onto`] is [`distinct`].
pub proof fn lemma_distinct_onto_empty<T>(s: Seq<T>)
    ensures
        distinct_onto(Seq::<T>::empty(), s) == distinct(s),
    decreases s.len(),
{
    if s.len() > 0 {
        lemma_distinct_onto_empty(s.drop_last());
    }
}

/// Whether a name does not start with an underscore.
fn public_name(n: &String) -> (r: bool)
    ensures
        r == is_public_name(n@),
{
    let t = n.as_str();
    !(t.unicode_len() > 0 && t.get_char(0) == '_')
}

/// Adds the `self.<attr>` targets of the assignments of an `__init__` body.
fn add_init_attrs(seen: &mut Vec<String>, body: &Vec<Stmt>)
    ensures
        string_views(final(seen)@) == distinct_onto(string_views(old(seen)@), init_attrs(body@)),
{
    let ghost start = string_views(seen@);
    let mut i: usize = 0;
    proof {
        lemma_take_ends(body@);
    }
    while i < body.len()
        invariant
            i <= body@.len(),
            string_views(seen@) == distinct_onto(start, init_attrs(body@.take(i as int))),
        decreases body@.len() - i,
    {
        proof {
            assert(body@.take(i + 1).drop_last() =~= body@.take(i as int));
            assert(body@.take(i + 1).last() == body@[i as int]);
        }
        match &body[i].kind {
            StmtKind::Assign { targets, .. } => {
                proof {
                    lemma_distinct_onto_concat(start, init_attrs(body@.take(i as int)), self_attrs(targets@));
                }
                add_self_attrs(seen, targets);
            },
            _ => {
                proof {
                    assert(init_attrs(body@.take(i + 1)) =~= init_attrs(body@.take(i as int)));
                }
            },
        }
        i = i + 1;
    }
    proof {
        lemma_take_ends(body@);
    }
}

/// Method count, public method count and distinct `self` attributes set in
/// `__init__`, for a class body.
fn class_counts(body: &Vec<Stmt>) -> (r: (usize, usize, usize))
    ensures
        r.0 == sat(method_count(body@)),
        r.1 == sat(public_method_count(body@)),
        r.2 == sat(distinct(class_attrs(body@)).len() as int),
{
    let mut methods: usize = 0;
    let mut public: usize = 0;
    let mut seen: Vec<String> = Vec::new();
    let mut i: usize = 0;
    proof {
        lemma_take_ends(body@);
        assert(string_views(seen@) =~= Seq::<Seq<char>>::empty());
    }
    while i < body.len()
        invariant
            i <= body@.len(),
            methods == sat(method_count(body@.take(i as int))),
            public == sat(public_method_count(body@.take(i as int))),
            string_views(seen@) == distinct_onto(Seq::<Seq<char>>::empty(), class_attrs(body@.take(i as int))),
        decreases body@.len() - i,
    {
        proof {
            assert(body@.take(i + 1).drop_last() =~= body@.take(i as int));
            assert(body@.take(i + 1).last() == body@[i as int]);
        }
        match &body[i].kind {
            StmtKind::FunctionDef { is_async, name, body: fbody, .. } => {
                methods = methods.saturating_add(1);
                if public_name(name) {
                    public = public.saturating_add(1);
                }
                if !*is_async && str_eq(name.as_str(), "__init__") {
                    proof {
                        lemma_distinct_onto_concat(
                            Seq::<Seq<char>>::empty(),
                            class_attrs(body@.take(i as int)),
                            init_attrs(fbody@),
                        );
                    }
                    add_init_attrs(&mut seen, fbody);
                } else {
                    proof {
                        assert(class_attrs(body@.take(i + 1)) =~= class_attrs(body@.take(i as int)));
                    }
                }
            },
            _ => {
                proof {
                    assert(class_attrs(body@.take(i + 1)) =~= class_attrs(body@.take(i as int)));
                }
            },
        }
        i = i + 1;
    }
    proof {
        lemma_take_ends(body@);
        lemma_distinct_onto_empty(class_attrs(body@));
    }
    (methods, public, seen.len())
}

/// Counts of every class of the file.
pub fn collect_class_views(parsed: &ParsedFile) -> (r: Vec<ClassView>)
    requires
        parsed.wf(),
    ensures
        class_views(r@) == module_classes(src_bytes(*parsed), parsed.module),
{
    let ghost bytes = src_bytes(*parsed);
    let ghost f = class_facts_fn(bytes);
    let source = parsed.source.as_str();
    let stmts = module_statements(&parsed.module);
    let ghost ss = derefs(stmts@);
    let mut out: Vec<ClassView> = Vec::new();
    let mut i: usize = 0;
    proof {
        lemma_take_ends(ss);
        assert(class_views(out@) =~= Seq::<ClassFacts>::empty());
    }
    while i < stmts.len()
        invariant
            i <= stmts@.len(),
            ss == derefs(stmts@),
            ss == module_stmts(parsed.module),
            bytes == src_bytes(*parsed),
            source.spec_bytes() == bytes,
            bytes.len() < usize::MAX,
            f == class_facts_fn(bytes),
            class_views(out@) == flat_map(ss.take(i as int), f),
        decreases stmts@.len() - i,
    {
        proof {
            lemma_flat_map_step(ss, i as int, f);
        }
        let s: &Stmt = stmts[i];
        match &s.kind {
            StmtKind::ClassDef { name, body, .. } => {
                let (line, column) = line_col_at(source, s.start);
                let (method_count, public_method_count, instance_var_count) = class_counts(body);
                let c = ClassView {
                    name: name.clone(),
                    line,
                    column,
                    method_count,
                    public_method_count,
                    instance_var_count,
                };
                let ghost before = out@;
                out.push(c);
                proof {
                    assert(class_views(out@) =~= class_views(before).push(c@));
                }
            },
            _ => {},
        }
        i = i + 1;
    }
    proof {
        lemma_take_ends(ss);
    }
    out
}

// ---------------------------------------------------------------------------
// Imports
// ---------------------------------------------------------------------------

/// One imported module, dotted as written (`from a.b import c` gives `a.b.c`).
pub struct ImportView {
    pub module: String,
    pub line: usize,
    pub column: usize,
    pub is_from: bool,
}

/// Mathematical model of an import.
pub ghost struct ImportFacts {
    pub module: Seq<char>,
    pub line: int,
    pub column: int,
    pub is_from: bool,
}

impl View for ImportView {
    type V = ImportFacts;

    open spec fn view(&self) -> ImportFacts {
        ImportFacts { module: self.module@, line: self.line as int, column: self.column as int, is_from: self.is_from }
    }
}

/// The models of a sequence of import views.
pub open spec fn import_views(v: Seq<ImportView>) -> Seq<ImportFacts> {
    v.map_values(|i: ImportView| i@)
}

/// The dotted name an alias imports: the alias alone, or behind the `from`
/// module and a dot when that module is named.
pub open spec fn imported_name(from: Option<Seq<char>>, alias: Alias) -> Seq<char> {
    match from {
        Some(m) => if m.len() == 0 {
            alias.name@
        } else {
            m + seq!['.'] + alias.name@
        },
        None => alias.name@,
    }
}

/// The imports of a list of aliases, located at each alias.
pub open spec fn alias_facts(bytes: Seq<u8>, from: Option<Seq<char>>, is_from: bool, names: Seq<Alias>) -> Seq<
    ImportFacts,
>
    decreases names.len(),
{
    if names.len() == 0 {
        Seq::empty()
    } else {
        let a = names.last();
        alias_facts(bytes, from, is_from, names.drop_last()).push(
            ImportFacts {
                module: imported_name(from, a),
                line: spec_line_col(bytes, a.start as int).0,
                column: spec_line_col(bytes, a.start as int).1,
                is_from,
            },
        )
    }
}

/// The imports a statement makes.
pub open spec fn import_facts_of(bytes: Seq<u8>, s: Stmt) -> Seq<ImportFacts> {
    match s.kind {
        StmtKind::Import { names } => alias_facts(bytes, None, false, names@),
        StmtKind::ImportFrom { module, names } => alias_facts(
            bytes,
            Some(
                match module {
                    Some(m) => m@,
                    None => Seq::<char>::empty(),
                },
            ),
            true,
            names@,
        ),
        _ => Seq::empty(),
    }
}

/// [`import_facts_of`] as a function of the statement.
pub open spec fn import_facts_fn(bytes: Seq<u8>) -> spec_fn(Stmt) -> Seq<ImportFacts> {
    |s: Stmt| import_facts_of(bytes, s)
}

/// Every import of a module, nested ones included, in statement pre-order.
pub open spec fn module_imports(bytes: Seq<u8>, m: Module) -> Seq<ImportFacts> {
    flat_map(module_stmts(m), import_facts_fn(bytes))
}

/// Appends the imports of `names`.
fn push_aliases(
    out: &mut Vec<ImportView>,
    source: &str,
    from: &String,
    is_from: bool,
    names: &Vec<Alias>,
)
    requires
        source.spec_bytes().len() < usize::MAX,
    ensures
        import_views(final(out)@) == import_views(old(out)@) + alias_facts(
            source.spec_bytes(),
            if is_from {
                Some(from@)
            } else {
                None
            },
            is_from,
            names@,
        ),
{
    let ghost start = import_views(out@);
    let ghost fr = if is_from {
        Some(from@)
    } else {
        None
    };
    let mut i: usize = 0;
    proof {
        lemma_take_ends(names@);
        assert(start + Seq::<ImportFacts>::empty() =~= start);
    }
    while i < names.len()
        invariant
            i <= names@.len(),
            source.spec_bytes().len() < usize::MAX,
            fr == if is_from {
                Some(from@)
            } else {
                None
            },
            import_views(out@) == start + alias_facts(source.spec_bytes(), fr, is_from, names@.take(i as int)),
        decreases names@.len() - i,
    {
        let a = &names[i];
        let (line, column) = line_col_at(source, a.start);
        let mut module = String::new();
        if is_from && from.as_str().unicode_len() > 0 {
            push_str(&mut module, from.as_str());
            push_char(&mut module, '.');
        }
        push_str(&mut module, a.name.as_str());
        let v = ImportView { module, line, column, is_from };
        let ghost before = out@;
        out.push(v);
        proof {
            assert(names@.take(i + 1).drop_last() =~= names@.take(i as int));
            assert(names@.take(i + 1).last() == names@[i as int]);
            assert(v@.module == imported_name(fr, names@[i as int]));
            assert(import_views(out@) =~= import_views(before).push(v@));
        }
        i = i + 1;
    }
    proof {
        lemma_take_ends(names@);
    }
}

/// Every import of the file.
pub fn collect_imports(parsed: &ParsedFile) -> (r: Vec<ImportView>)
    requires
        parsed.wf(),
    ensures
        import_views(r@) == module_imports(src_bytes(*parsed), parsed.module),
{
    let ghost bytes = src_bytes(*parsed);
    let ghost f = import_facts_fn(bytes);
    let source = parsed.source.as_str();
    let stmts = module_statements(&parsed.module);
    let ghost ss = derefs(stmts@);
    let mut out: Vec<ImportView> = Vec::new();
    let mut i: usize = 0;
    proof {
        lemma_take_ends(ss);
        assert(import_views(out@) =~= Seq::<ImportFacts>::empty());
    }
    while i < stmts.len()
        invariant
            i <= stmts@.len(),
            ss == derefs(stmts@),
            ss == module_stmts(parsed.module),
            bytes == src_bytes(*parsed),
            source.spec_bytes() == bytes,
            bytes.len() < usize::MAX,
            f == import_facts_fn(bytes),
            import_views(out@) == flat_map(ss.take(i as int), f),
        decreases stmts@.len() - i,
    {
        proof {
            lemma_flat_map_step(ss, i as int, f);
        }
        let s: &Stmt = stmts[i];
        match &s.kind {
            StmtKind::Import { names } => {
                let none = String::new();
                push_aliases(&mut out, source, &none, false, names);
            },
            StmtKind::ImportFrom { module, names } => {
                let m = match module {
                    Some(m) => m.clone(),
                    None => String::new(),
                };
                push_aliases(&mut out, source, &m, true, names);
            },
            _ => {},
        }
        i = i + 1;
    }
    proof {
        lemma_take_ends(ss);
    }
    out
}

} // verus!
