use zerum::analysis::model::collect_function_metrics;
use zerum::analysis::walk::module_expressions;
use zerum::checks::syntax::is_print_call;
use zerum::parser::dump::{read_dump, Dump};
use zerum::parser::{ParsedFile, PythonParser, RustPythonParser};

fn parse(source: &str) -> ParsedFile {
    match RustPythonParser.parse_file(source, "t.py") {
        Ok(p) => p,
        Err(_) => panic!("source should parse"),
    }
}

#[test]
fn nested_function_depth_not_attributed_to_outer() {
    let source = r#"
def outer():
    if a:
        if b:
            if c:
                pass

    def inner():
        if e:
            if f:
                if g:
                    if h:
                        pass
"#;
    let parsed = parse(source);
    let metrics = collect_function_metrics(&parsed);
    let outer = metrics.iter().find(|m| m.name == "outer").unwrap();
    let inner = metrics.iter().find(|m| m.name == "inner").unwrap();
    assert_eq!(outer.max_conditional_depth, 3);
    assert_eq!(inner.max_conditional_depth, 4);
}

#[test]
fn walk_exprs_finds_print_inside_nested_function() {
    let source = "def outer():\n    def inner():\n        print('x')\n";
    let parsed = parse(source);
    let hits = module_expressions(&parsed.module)
        .into_iter()
        .filter(|e| is_print_call(e))
        .count();
    assert_eq!(hits, 1);
}

#[test]
fn function_metrics_count_arguments_and_position() {
    let source = "x = 1\n\ndef f(a, b, *args, c=1, **kw):\n    return a\n";
    let parsed = parse(source);
    let metrics = collect_function_metrics(&parsed);
    assert_eq!(metrics.len(), 1);
    assert_eq!(metrics[0].name, "f");
    assert_eq!(metrics[0].line, 3);
    assert_eq!(metrics[0].column, 1);
    assert_eq!(metrics[0].arg_count, 5);
}

#[test]
fn syntax_error_is_reported_as_syntax_failure() {
    let r = RustPythonParser.parse_file("def (((: pass\n", "broken.py");
    assert!(matches!(r, Err(zerum::parser::ParseFailure::Syntax(_))));
}

fn first_constant(source: &str) -> zerum::parser::ast::Constant {
    let parsed = parse(source);
    match &parsed.module.body[0].kind {
        zerum::parser::ast::StmtKind::Assign { value, .. } => match &value.kind {
            zerum::parser::ast::ExprKind::Constant { value } => match value {
                zerum::parser::ast::Constant::Float(t) => zerum::parser::ast::Constant::Float(t.clone()),
                zerum::parser::ast::Constant::Int(t) => zerum::parser::ast::Constant::Int(t.clone()),
                zerum::parser::ast::Constant::Str(t) => zerum::parser::ast::Constant::Str(t.clone()),
                _ => zerum::parser::ast::Constant::Other,
            },
            _ => panic!("expected a constant"),
        },
        _ => panic!("expected an assignment"),
    }
}

fn float_text_of(source: &str) -> String {
    match first_constant(source) {
        zerum::parser::ast::Constant::Float(t) => t,
        _ => panic!("expected a float"),
    }
}

#[test]
fn float_literals_keep_their_display_text() {
    assert_eq!(float_text_of("x = 2.0\n"), format!("{}", 2.0f64));
    assert_eq!(float_text_of("x = 0.25\n"), format!("{}", 0.25f64));
    assert_eq!(float_text_of("x = 1e-7\n"), format!("{}", 1e-7f64));
    assert_eq!(float_text_of("x = 1.5e20\n"), format!("{}", 1.5e20f64));
    assert_eq!(float_text_of("x = 1.25e-10\n"), format!("{}", 1.25e-10f64));
}

#[test]
fn string_literals_decode_escapes_from_the_rendering() {
    match first_constant("x = 'caf\u{e9}\\n'\n") {
        zerum::parser::ast::Constant::Str(t) => assert_eq!(t, "caf\u{e9}\n"),
        _ => panic!("expected a string"),
    }
}

#[test]
fn integer_literals_keep_their_digits() {
    match first_constant("x = 12345\n") {
        zerum::parser::ast::Constant::Int(t) => assert_eq!(t, "12345"),
        _ => panic!("expected an int"),
    }
}

#[test]
fn statements_keep_their_byte_ranges() {
    let parsed = parse("a = 1\nb = 2\n");
    assert_eq!(parsed.module.body.len(), 2);
    assert_eq!(parsed.module.body[1].start, 6);
    assert_eq!(parsed.module.body[1].end, 11);
}

#[test]
fn rendered_values_read_back() {
    match read_dump("Name(Rec { id: Identifier(\"x\\u{e9}\"), range: 3..17, ok: true }, [1, 2])") {
        Some(Dump::Call(name, args)) => {
            assert_eq!(name, "Name");
            assert_eq!(args.len(), 2);
            match &args[0] {
                Dump::Record(r, fields) => {
                    assert_eq!(r, "Rec");
                    assert_eq!(fields.len(), 3);
                    assert_eq!(fields[1].0, "range");
                    match &fields[0].1 {
                        Dump::Call(n, inner) => {
                            assert_eq!(n, "Identifier");
                            assert!(matches!(&inner[0], Dump::Text(t) if t == "x\u{e9}"));
                        }
                        _ => panic!("expected a call"),
                    }
                    assert!(matches!(&fields[1].1, Dump::Atom(a) if a == "3..17"));
                }
                _ => panic!("expected a record"),
            }
            assert!(matches!(&args[1], Dump::List(items) if items.len() == 2));
        }
        _ => panic!("expected a call"),
    }
    assert!(read_dump("Name(").is_none());
    assert!(read_dump("[1, 2] trailing").is_none());
}

#[test]
fn branch_counts_add_over_joined_blocks() {
    let a = "if x:\n    pass\nelif y:\n    pass\n";
    let b = "while y:\n    for z in w:\n        pass\ntry:\n    pass\nexcept ValueError:\n    pass\nexcept KeyError:\n    pass\n";
    let joined = format!("{a}{b}");
    let first = zerum::analysis::metrics::count_branches(&parse(a).module.body);
    let second = zerum::analysis::metrics::count_branches(&parse(b).module.body);
    let both = zerum::analysis::metrics::count_branches(&parse(&joined).module.body);
    assert_eq!(first, 2);
    assert_eq!(second, 5);
    assert_eq!(both, first + second);
}

#[test]
fn dict_literal_is_walked_key_then_value() {
    let parsed = parse("x = {a: b, **rest, c: d}\n");
    let names: Vec<String> = module_expressions(&parsed.module)
        .into_iter()
        .filter_map(|e| match &e.kind {
            zerum::parser::ast::ExprKind::Name { id } => Some(id.clone()),
            _ => None,
        })
        .collect();
    assert_eq!(names, vec!["x", "a", "b", "rest", "c", "d"]);
}
