//! Reading the fields of rendered tree nodes: lookups by name, byte ranges,
//! identifiers, operators and literal values.
use vstd::prelude::*;
use super::ast::{
    aliases_view, alias_view, arguments_view, case_view, cases_view, comp_view, comps_view, constant_view, expr_view,
    exprs_view, handler_view, handlers_view, kind_view, lemma_views_empty, lemma_views_push, module_view, names_view,
    opt_box_view, opt_expr_view, opt_exprs_view, param_view, params_view, pattern_view, patterns_view, stmt_kind_view,
    stmt_view, stmts_view, with_item_view, with_items_view, Alias, AliasV, Arguments, ArgumentsV, CmpOp, Comprehension,
    ComprehensionV, Constant, ConstantV, ExceptHandler, ExceptHandlerV, Expr, ExprKind, ExprKindV, ExprV, MatchCase,
    MatchCaseV, Module, Param, ParamV, Pattern, PatternV, Stmt, StmtKind, StmtKindV, StmtV, WithItem, WithItemV,
};
use super::dump::{dump_view, dump_views, field_views, lemma_dump_views_index, lemma_field_views_index, Dump, DumpV};
use crate::text::{push_char, str_eq};

verus! {


/// The rendered fields of a record.
pub type FieldsV = Seq<(Seq<char>, DumpV)>;

/// The index of the first field from `i` on called `name`.
pub open spec fn field_from(fs: FieldsV, name: Seq<char>, i: int) -> Option<int>
    decreases fs.len() - i,
{
    if i < 0 || i >= fs.len() {
        None
    } else if fs[i].0 == name {
        Some(i)
    } else {
        field_from(fs, name, i + 1)
    }
}

/// The index of the first field called `name`.
pub open spec fn field_pos(fs: FieldsV, name: Seq<char>) -> Option<int> {
    field_from(fs, name, 0)
}

/// The value of the first field called `name`.
pub open spec fn field_value(fs: FieldsV, name: Seq<char>) -> Option<DumpV> {
    match field_pos(fs, name) {
        Some(i) => if 0 <= i < fs.len() {
            Some(fs[i].1)
        } else {
            None
        },
        None => None,
    }
}

/// All characters are ASCII digits.
pub open spec fn all_digits(s: Seq<char>) -> bool {
    forall|j: int| 0 <= j < s.len() ==> '0' <= #[trigger] s[j] && s[j] <= '9'
}

/// The value of a string of decimal digits.
pub open spec fn digits_value(s: Seq<char>) -> int
    decreases s.len(),
{
    if s.len() == 0 {
        0
    } else {
        digits_value(s.drop_last()) * 10 + (s.last() as int - '0' as int)
    }
}

/// A non-empty decimal number that fits in `usize`.
pub open spec fn number_spec(s: Seq<char>) -> Option<usize> {
    if s.len() == 0 || !all_digits(s) || digits_value(s) > usize::MAX {
        None
    } else {
        Some(digits_value(s) as usize)
    }
}

/// The position of the first `..` at or after `k`.
pub open spec fn dotdot_from(t: Seq<char>, k: int) -> Option<int>
    decreases t.len() - k,
{
    if k < 0 || k + 1 >= t.len() {
        None
    } else if t[k] == '.' && t[k + 1] == '.' {
        Some(k)
    } else {
        dotdot_from(t, k + 1)
    }
}

/// The byte range `start..end` in a node's `range` field.
pub open spec fn range_spec(fs: FieldsV) -> Option<(usize, usize)> {
    match field_value(fs, "range"@) {
        Some(DumpV::Atom(t)) => match dotdot_from(t, 0) {
            Some(k) => match (number_spec(t.subrange(0, k)), number_spec(t.subrange(k + 2, t.len() as int))) {
                (Some(a), Some(b)) => Some((a, b)),
                _ => None,
            },
            None => None,
        },
        _ => None,
    }
}

/// An identifier `Identifier("name")`.
pub open spec fn ident_spec(d: DumpV) -> Option<Seq<char>> {
    match d {
        DumpV::Call(n, args) => if n == "Identifier"@ && args.len() == 1 {
            match args[0] {
                DumpV::Text(s) => Some(s),
                _ => None,
            }
        } else {
            None
        },
        _ => None,
    }
}

/// An identifier field.
pub open spec fn ident_field_spec(fs: FieldsV, name: Seq<char>) -> Option<Seq<char>> {
    match field_value(fs, name) {
        Some(d) => ident_spec(d),
        None => None,
    }
}

/// An optional identifier field: `None` or `Some(Identifier(..))`.
pub open spec fn opt_ident_field_spec(fs: FieldsV, name: Seq<char>) -> Option<Option<Seq<char>>> {
    match field_value(fs, name) {
        Some(DumpV::Atom(a)) => if a == "None"@ {
            Some(None)
        } else {
            None
        },
        Some(DumpV::Call(n, args)) => if n == "Some"@ && args.len() == 1 {
            match ident_spec(args[0]) {
                Some(s) => Some(Some(s)),
                None => None,
            }
        } else {
            None
        },
        _ => None,
    }
}

/// Whether an optional field holds a value.
pub open spec fn field_is_some_spec(fs: FieldsV, name: Seq<char>) -> Option<bool> {
    match field_value(fs, name) {
        Some(DumpV::Atom(a)) => if a == "None"@ {
            Some(false)
        } else {
            None
        },
        Some(DumpV::Call(n, _)) => if n == "Some"@ {
            Some(true)
        } else {
            None
        },
        _ => None,
    }
}

/// A comparison operator.
pub open spec fn compare_op_spec(d: DumpV) -> Option<CmpOp> {
    match d {
        DumpV::Atom(a) => if a == "Eq"@ {
            Some(CmpOp::Eq)
        } else if a == "NotEq"@ {
            Some(CmpOp::NotEq)
        } else if a == "Lt"@ {
            Some(CmpOp::Lt)
        } else if a == "LtE"@ {
            Some(CmpOp::LtE)
        } else if a == "Gt"@ {
            Some(CmpOp::Gt)
        } else if a == "GtE"@ {
            Some(CmpOp::GtE)
        } else if a == "Is"@ {
            Some(CmpOp::Is)
        } else if a == "IsNot"@ {
            Some(CmpOp::IsNot)
        } else if a == "In"@ {
            Some(CmpOp::In)
        } else if a == "NotIn"@ {
            Some(CmpOp::NotIn)
        } else {
            None
        },
        _ => None,
    }
}

/// A list of comparison operators.
pub open spec fn compare_ops_spec(items: Seq<DumpV>) -> Option<Seq<CmpOp>>
    decreases items.len(),
{
    if items.len() == 0 {
        Some(Seq::empty())
    } else {
        match (compare_op_spec(items[0]), compare_ops_spec(items.subrange(1, items.len() as int))) {
            (Some(x), Some(rest)) => Some(seq![x] + rest),
            _ => None,
        }
    }
}

/// A field holding a list of comparison operators.
pub open spec fn compare_ops_field_spec(fs: FieldsV, name: Seq<char>) -> Option<Seq<CmpOp>> {
    match field_value(fs, name) {
        Some(DumpV::List(items)) => compare_ops_spec(items),
        _ => None,
    }
}

/// The constructor and fields of a node `Variant(Struct { .. })`.
pub open spec fn node_spec(d: DumpV) -> Option<(Seq<char>, FieldsV)> {
    match d {
        DumpV::Call(v, args) => if args.len() == 1 {
            match args[0] {
                DumpV::Record(_, fs) => Some((v, fs)),
                _ => None,
            }
        } else {
            None
        },
        _ => None,
    }
}

/// A literal value.
pub open spec fn constant_spec(d: DumpV) -> Option<ConstantV> {
    match d {
        DumpV::Atom(a) => if a == "None"@ {
            Some(ConstantV::NoneValue)
        } else {
            Some(ConstantV::Other)
        },
        DumpV::Call(n, args) => if args.len() != 1 {
            Some(ConstantV::Other)
        } else if n == "Bool"@ {
            match args[0] {
                DumpV::Atom(b) => Some(ConstantV::Bool(b == "true"@)),
                _ => None,
            }
        } else if n == "Str"@ {
            match args[0] {
                DumpV::Text(s) => Some(ConstantV::Str(s)),
                _ => None,
            }
        } else if n == "Int"@ {
            match args[0] {
                DumpV::Atom(s) => Some(ConstantV::Int(s)),
                _ => None,
            }
        } else if n == "Float"@ {
            match args[0] {
                DumpV::Atom(s) => Some(ConstantV::Float(float_text(s))),
                _ => None,
            }
        } else {
            Some(ConstantV::Other)
        },
        _ => Some(ConstantV::Other),
    }
}

/// The position of the first `c` at or after `k` in `t`, or `t.len()`.
pub open spec fn first_from(t: Seq<char>, c: char, k: int) -> int
    decreases t.len() - k,
{
    if k < 0 || k >= t.len() || t[k] == c {
        k
    } else {
        first_from(t, c, k + 1)
    }
}

/// `s` without its `.` characters.
pub open spec fn drop_dots(s: Seq<char>) -> Seq<char>
    decreases s.len(),
{
    if s.len() == 0 {
        Seq::empty()
    } else if s.last() == '.' {
        drop_dots(s.drop_last())
    } else {
        drop_dots(s.drop_last()).push(s.last())
    }
}

/// `n` zeros.
pub open spec fn zeros(n: int) -> Seq<char> {
    Seq::new(if n < 0 { 0 } else { n } as nat, |i: int| '0')
}

/// The mantissa of a float rendering: the text before its exponent, after
/// its sign.
pub open spec fn mantissa(t: Seq<char>) -> Seq<char> {
    let e = first_from(t, 'e', 0);
    if e > 0 && t[0] == '-' {
        t.subrange(1, e)
    } else {
        t.subrange(0, e)
    }
}

/// The digits before the mantissa's point.
pub open spec fn int_digits(t: Seq<char>) -> Seq<char> {
    let m = mantissa(t);
    m.subrange(0, first_from(m, '.', 0))
}

/// The digits after the mantissa's point.
pub open spec fn frac_digits(t: Seq<char>) -> Seq<char> {
    let m = mantissa(t);
    let d = first_from(m, '.', 0);
    if d < m.len() {
        drop_dots(m.subrange(d + 1, m.len() as int))
    } else {
        Seq::empty()
    }
}

/// `digits` with a point after the first `point` of them, padded with zeros
/// when there are fewer.
pub open spec fn place_point(digits: Seq<char>, point: int) -> Seq<char> {
    if point <= 0 {
        "0."@ + zeros(-point) + digits
    } else if digits.len() > point {
        digits.subrange(0, point) + "."@ + digits.subrange(point, digits.len() as int)
    } else {
        digits + zeros(point - digits.len())
    }
}

/// The text a float displays as, from its debug rendering `t`: the debug
/// form adds `.0` to integral values and uses an exponent for very large or
/// small magnitudes, where the display form writes all digits. Renderings
/// that do not have this shape, or whose exponent or digits are out of
/// proportion, are kept as they are.
pub open spec fn float_text(t: Seq<char>) -> Seq<char> {
    let e = first_from(t, 'e', 0);
    let sign = if e > 0 && t[0] == '-' {
        "-"@
    } else {
        Seq::empty()
    };
    let ints = int_digits(t);
    let fracs = frac_digits(t);
    if e >= t.len() {
        sign + ints + if fracs.len() == 0 || fracs == "0"@ {
            Seq::empty()
        } else {
            "."@ + fracs
        }
    } else {
        let rest = t.subrange(e + 1, t.len() as int);
        let neg = rest.len() > 0 && rest[0] == '-';
        let exp_text = if neg {
            rest.subrange(1, rest.len() as int)
        } else {
            rest
        };
        match number_spec(exp_text) {
            Some(x) => if x > 1000 || ints.len() > 2000 || fracs.len() > 2000 {
                t
            } else {
                sign + place_point(ints + fracs, if neg {
                    ints.len() - x
                } else {
                    ints.len() + x
                })
            },
            None => t,
        }
    }
}


/// Whether a name equals a literal.
pub(crate) fn is(name: &String, lit: &str) -> (r: bool)
    ensures
        r == (name@ == lit@),
{
    str_eq(name.as_str(), lit)
}

/// Index of the first field called `name`.
pub(crate) fn field_index(fields: &Vec<(String, Dump)>, name: &str) -> (r: Option<usize>)
    ensures
        match field_pos(field_views(fields@), name@) {
            Some(i) => r matches Some(j) && j as int == i && 0 <= i < fields@.len(),
            None => r is None,
        },
{
    let ghost fv = field_views(fields@);
    proof {
        lemma_field_views_index(fields@);
    }
    let mut i: usize = 0;
    while i < fields.len()
        invariant
            i <= fields@.len(),
            fv == field_views(fields@),
            fv.len() == fields@.len(),
            forall|j: int| 0 <= j < fields@.len() ==> #[trigger] fv[j] == (fields@[j].0@, dump_view(fields@[j].1)),
            field_pos(fv, name@) == field_from(fv, name@, i as int),
        decreases fields@.len() - i,
    {
        if str_eq(fields[i].0.as_str(), name) {
            proof {
                assert(fv[i as int].0 == name@);
            }
            return Some(i);
        }
        proof {
            assert(fv[i as int].0 != name@);
        }
        i = i + 1;
    }
    None
}

/// The value of a digit string.
proof fn lemma_digits_prefix(s: Seq<char>, k: int)
    requires
        0 <= k < s.len(),
    ensures
        digits_value(s.subrange(0, k + 1)) == digits_value(s.subrange(0, k)) * 10 + (s[k] as int - '0' as int),
{
    assert(s.subrange(0, k + 1).drop_last() =~= s.subrange(0, k));
}

/// Digit strings only grow in value as digits are appended.
proof fn lemma_digits_monotone(s: Seq<char>, j: int, k: int)
    requires
        0 <= j <= k <= s.len(),
        all_digits(s),
    ensures
        digits_value(s.subrange(0, j)) <= digits_value(s.subrange(0, k)),
    decreases k - j,
{
    if j < k {
        lemma_digits_monotone(s, j, k - 1);
        lemma_digits_prefix(s, k - 1);
        assert('0' <= s[k - 1] <= '9');
        assert(digits_value(s.subrange(0, k - 1)) >= 0) by {
            lemma_digits_nonneg(s.subrange(0, k - 1));
        }
    }
}

/// Digit strings have non-negative values.
proof fn lemma_digits_nonneg(s: Seq<char>)
    requires
        all_digits(s),
    ensures
        digits_value(s) >= 0,
    decreases s.len(),
{
    if s.len() > 0 {
        assert(all_digits(s.drop_last())) by {
            assert forall|j: int| 0 <= j < s.drop_last().len() implies '0' <= #[trigger] s.drop_last()[j]
                && s.drop_last()[j] <= '9' by {
                assert(s.drop_last()[j] == s[j]);
            }
        }
        lemma_digits_nonneg(s.drop_last());
        assert('0' <= s[s.len() - 1] <= '9');
    }
}

/// A decimal number written with ASCII digits, if it fits in `usize`.
pub(crate) fn parse_number(cs: &Vec<char>, from: usize, to: usize) -> (r: Option<usize>)
    requires
        from <= to <= cs@.len(),
    ensures
        r == number_spec(cs@.subrange(from as int, to as int)),
{
    let ghost s = cs@.subrange(from as int, to as int);
    if from == to {
        return None;
    }
    let mut v: usize = 0;
    let mut i = from;
    proof {
        assert(s.subrange(0, 0) =~= Seq::<char>::empty());
    }
    while i < to
        invariant
            from <= i <= to <= cs@.len(),
            s == cs@.subrange(from as int, to as int),
            forall|j: int| 0 <= j < i - from ==> '0' <= #[trigger] s[j] && s[j] <= '9',
            v as int == digits_value(s.subrange(0, i - from)),
        decreases to - i,
    {
        let c = cs[i];
        if !('0' <= c && c <= '9') {
            proof {
                assert(s[i - from] == c);
                assert(!all_digits(s));
            }
            return None;
        }
        let d = ((c as u32) - ('0' as u32)) as usize;
        proof {
            lemma_digits_prefix(s, i - from);
            assert(s[i - from] == c);
        }
        if v > (usize::MAX - d) / 10 {
            proof {
                assert(v * 10 + d > usize::MAX) by (nonlinear_arith)
                    requires
                        v > (usize::MAX - d) / 10,
                        d <= 9,
                ;
                if all_digits(s) {
                    lemma_digits_monotone(s, i - from + 1, s.len() as int);
                    assert(s.subrange(0, s.len() as int) =~= s);
                }
            }
            return None;
        }
        proof {
            assert(v * 10 + d <= usize::MAX) by (nonlinear_arith)
                requires
                    v <= (usize::MAX - d) / 10,
                    d <= 9,
            ;
        }
        v = v * 10 + d;
        i = i + 1;
    }
    proof {
        assert(s.subrange(0, s.len() as int) =~= s);
        assert(all_digits(s));
    }
    Some(v)
}

/// The byte range `start..end` of a node.
pub(crate) fn range_of(fields: &Vec<(String, Dump)>) -> (r: Option<(usize, usize)>)
    ensures
        r == range_spec(field_views(fields@)),
{
    let ghost fv = field_views(fields@);
    let i = field_index(fields, "range")?;
    proof {
        lemma_field_views_index(fields@);
        assert(field_value(fv, "range"@) == Some(dump_view(fields@[i as int].1)));
    }
    match &fields[i].1 {
        Dump::Atom(text) => {
            let cs = crate::text::chars_of(text.as_str());
            let ghost t = text@;
            let mut k: usize = 0;
            while cs.len() > 0 && k < cs.len() - 1
                invariant
                    k <= cs@.len(),
                    cs@ == t,
                    fv == field_views(fields@),
                    field_value(fv, "range"@) == Some(DumpV::Atom(t)),
                    dotdot_from(t, 0) == dotdot_from(t, k as int),
                decreases cs@.len() - k,
            {
                if cs[k] == '.' && cs[k + 1] == '.' {
                    let start = parse_number(&cs, 0, k)?;
                    let end = parse_number(&cs, k + 2, cs.len())?;
                    return Some((start, end));
                }
                k = k + 1;
            }
            None
        },
        _ => None,
    }
}

/// An identifier: `Identifier("name")`.
pub(crate) fn ident_of(d: &Dump) -> (r: Option<String>)
    ensures
        match ident_spec(d@) {
            Some(s) => r matches Some(x) && x@ == s,
            None => r is None,
        },
{
    match d {
        Dump::Call(n, args) => {
            proof {
                lemma_dump_views_index(args@);
            }
            if is(n, "Identifier") && args.len() == 1 {
                match &args[0] {
                    Dump::Text(s) => Some(s.clone()),
                    _ => None,
                }
            } else {
                None
            }
        },
        _ => None,
    }
}

/// An identifier field.
pub(crate) fn ident_field(fields: &Vec<(String, Dump)>, name: &str) -> (r: Option<String>)
    ensures
        match ident_field_spec(field_views(fields@), name@) {
            Some(s) => r matches Some(x) && x@ == s,
            None => r is None,
        },
{
    let i = field_index(fields, name)?;
    proof {
        lemma_field_views_index(fields@);
    }
    ident_of(&fields[i].1)
}

/// An optional identifier field: `None` or `Some(Identifier(..))`.
pub(crate) fn opt_ident_field(fields: &Vec<(String, Dump)>, name: &str) -> (r: Option<Option<String>>)
    ensures
        match opt_ident_field_spec(field_views(fields@), name@) {
            Some(o) => r matches Some(x) && match x {
                Some(s) => o == Some(s@),
                None => o is None,
            },
            None => r is None,
        },
{
    let i = field_index(fields, name)?;
    proof {
        lemma_field_views_index(fields@);
    }
    match &fields[i].1 {
        Dump::Atom(a) => {
            if is(a, "None") {
                Some(None)
            } else {
                None
            }
        },
        Dump::Call(n, args) => {
            proof {
                lemma_dump_views_index(args@);
            }
            if is(n, "Some") && args.len() == 1 {
                match ident_of(&args[0]) {
                    Some(s) => Some(Some(s)),
                    None => None,
                }
            } else {
                None
            }
        },
        _ => None,
    }
}

/// Whether an optional field holds a value (`Some(..)`).
pub(crate) fn field_is_some(fields: &Vec<(String, Dump)>, name: &str) -> (r: Option<bool>)
    ensures
        r == field_is_some_spec(field_views(fields@), name@),
{
    let i = field_index(fields, name)?;
    proof {
        lemma_field_views_index(fields@);
    }
    match &fields[i].1 {
        Dump::Atom(a) => {
            if is(a, "None") {
                Some(false)
            } else {
                None
            }
        },
        Dump::Call(n, _) => {
            if is(n, "Some") {
                Some(true)
            } else {
                None
            }
        },
        _ => None,
    }
}

/// A comparison operator.
pub(crate) fn lower_compare_op(d: &Dump) -> (r: Option<CmpOp>)
    ensures
        r == compare_op_spec(d@),
{
    match d {
        Dump::Atom(a) => {
            if is(a, "Eq") {
                Some(CmpOp::Eq)
            } else if is(a, "NotEq") {
                Some(CmpOp::NotEq)
            } else if is(a, "Lt") {
                Some(CmpOp::Lt)
            } else if is(a, "LtE") {
                Some(CmpOp::LtE)
            } else if is(a, "Gt") {
                Some(CmpOp::Gt)
            } else if is(a, "GtE") {
                Some(CmpOp::GtE)
            } else if is(a, "Is") {
                Some(CmpOp::Is)
            } else if is(a, "IsNot") {
                Some(CmpOp::IsNot)
            } else if is(a, "In") {
                Some(CmpOp::In)
            } else if is(a, "NotIn") {
                Some(CmpOp::NotIn)
            } else {
                None
            }
        },
        _ => None,
    }
}

/// A field holding a list of comparison operators.
#[verifier::loop_isolation(false)]
pub(crate) fn compare_ops_field(fields: &Vec<(String, Dump)>, name: &str) -> (r: Option<Vec<CmpOp>>)
    ensures
        match compare_ops_field_spec(field_views(fields@), name@) {
            Some(v) => r matches Some(x) && x@ == v,
            None => r is None,
        },
{
    let i = field_index(fields, name)?;
    proof {
        lemma_field_views_index(fields@);
    }
    match &fields[i].1 {
        Dump::List(items) => {
            let ghost iv = dump_views(items@);
            proof {
                lemma_dump_views_index(items@);
                assert(iv.subrange(0, iv.len() as int) =~= iv);
            }
            let mut out: Vec<CmpOp> = Vec::new();
            let mut k: usize = 0;
            while k < items.len()
                invariant
                    k <= items@.len(),
                    iv == dump_views(items@),
                    iv.len() == items@.len(),
                    forall|j: int| 0 <= j < items@.len() ==> #[trigger] iv[j] == dump_view(items@[j]),
                    compare_ops_spec(iv) == match compare_ops_spec(iv.subrange(k as int, iv.len() as int)) {
                        Some(rest) => Some(out@ + rest),
                        None => None,
                    },
                decreases items@.len() - k,
            {
                let ghost sub = iv.subrange(k as int, iv.len() as int);
                proof {
                    assert(sub[0] == iv[k as int]);
                    assert(sub.subrange(1, sub.len() as int) =~= iv.subrange(k + 1, iv.len() as int));
                }
                let x = lower_compare_op(&items[k])?;
                let ghost before = out@;
                out.push(x);
                proof {
                    match compare_ops_spec(iv.subrange(k + 1, iv.len() as int)) {
                        Some(rest) => {
                            assert(before + (seq![x] + rest) =~= out@ + rest);
                        },
                        None => {},
                    }
                }
                k = k + 1;
            }
            proof {
                assert(iv.subrange(k as int, iv.len() as int) =~= Seq::<DumpV>::empty());
                assert(out@ + Seq::<CmpOp>::empty() =~= out@);
            }
            Some(out)
        },
        _ => None,
    }
}

/// The position of the first `c` at or after `k`, or the length.
pub(crate) fn first_index(cs: &Vec<char>, c: char, k: usize) -> (r: usize)
    requires
        k <= cs@.len(),
    ensures
        k <= r <= cs@.len(),
        r == first_from(cs@, c, k as int),
{
    let mut i = k;
    while i < cs.len() && cs[i] != c
        invariant
            k <= i <= cs@.len(),
            first_from(cs@, c, k as int) == first_from(cs@, c, i as int),
        decreases cs@.len() - i,
    {
        i = i + 1;
    }
    i
}

/// The characters `cs[from..to]`.
pub(crate) fn copy_range(cs: &Vec<char>, from: usize, to: usize) -> (r: Vec<char>)
    requires
        from <= to <= cs@.len(),
    ensures
        r@ == cs@.subrange(from as int, to as int),
{
    let mut out: Vec<char> = Vec::new();
    let mut i = from;
    while i < to
        invariant
            from <= i <= to <= cs@.len(),
            out@ == cs@.subrange(from as int, i as int),
        decreases to - i,
    {
        out.push(cs[i]);
        proof {
            assert(out@ =~= cs@.subrange(from as int, i + 1));
        }
        i = i + 1;
    }
    out
}

/// The characters `cs[from..to]` without their dots.
pub(crate) fn copy_without_dots(cs: &Vec<char>, from: usize, to: usize) -> (r: Vec<char>)
    requires
        from <= to <= cs@.len(),
    ensures
        r@ == drop_dots(cs@.subrange(from as int, to as int)),
{
    let mut out: Vec<char> = Vec::new();
    let mut i = from;
    proof {
        assert(cs@.subrange(from as int, from as int) =~= Seq::<char>::empty());
    }
    while i < to
        invariant
            from <= i <= to <= cs@.len(),
            out@ == drop_dots(cs@.subrange(from as int, i as int)),
        decreases to - i,
    {
        proof {
            assert(cs@.subrange(from as int, i + 1).drop_last() =~= cs@.subrange(from as int, i as int));
        }
        if cs[i] != '.' {
            out.push(cs[i]);
        }
        i = i + 1;
    }
    out
}

/// Appends the characters of `v`.
pub(crate) fn push_chars(out: &mut String, v: &Vec<char>)
    ensures
        final(out)@ == old(out)@ + v@,
{
    let ghost o = out@;
    let mut i: usize = 0;
    while i < v.len()
        invariant
            i <= v@.len(),
            out@ == o + v@.subrange(0, i as int),
        decreases v@.len() - i,
    {
        push_char(out, v[i]);
        proof {
            assert(out@ =~= o + v@.subrange(0, i + 1));
        }
        i = i + 1;
    }
    proof {
        assert(v@.subrange(0, v@.len() as int) =~= v@);
    }
}

/// Appends `n` zeros.
pub(crate) fn push_zeros(out: &mut String, n: usize)
    ensures
        final(out)@ == old(out)@ + zeros(n as int),
{
    let ghost o = out@;
    let mut i: usize = 0;
    while i < n
        invariant
            i <= n,
            out@ == o + zeros(i as int),
        decreases n - i,
    {
        push_char(out, '0');
        proof {
            assert(out@ =~= o + zeros(i + 1));
        }
        i = i + 1;
    }
}

/// Appends `digits` with a point after the first `point` of them (see
/// [`place_point`]).
fn push_placed(out: &mut String, digits: &Vec<char>, point: i64)
    requires
        -3000 <= point <= 3000,
    ensures
        final(out)@ == old(out)@ + place_point(digits@, point as int),
{
    let ghost before = out@;
    if point <= 0 {
        push_char(out, '0');
        push_char(out, '.');
        push_zeros(out, (-point) as usize);
        push_chars(out, digits);
        proof {
            reveal_strlit("0.");
            assert(out@ =~= before + ("0."@ + zeros(-point) + digits@));
        }
    } else {
        let pt = point as usize;
        if digits.len() > pt {
            let head = copy_range(digits, 0, pt);
            let tail = copy_range(digits, pt, digits.len());
            push_chars(out, &head);
            push_char(out, '.');
            push_chars(out, &tail);
            proof {
                reveal_strlit(".");
                assert(out@ =~= before + (digits@.subrange(0, pt as int) + "."@ + digits@.subrange(
                    pt as int,
                    digits@.len() as int,
                )));
            }
        } else {
            push_chars(out, digits);
            push_zeros(out, pt - digits.len());
            proof {
                assert(out@ =~= before + (digits@ + zeros(point - digits@.len())));
            }
        }
    }
}

/// The mantissa digits of a float rendering: before and after its point.
fn mantissa_digits(cs: &Vec<char>) -> (r: (Vec<char>, Vec<char>))
    ensures
        r.0@ == int_digits(cs@),
        r.1@ == frac_digits(cs@),
{
    let e = first_index(cs, 'e', 0);
    let negm = e > 0 && cs[0] == '-';
    let m = if negm {
        copy_range(cs, 1, e)
    } else {
        copy_range(cs, 0, e)
    };
    proof {
        assert(m@ == mantissa(cs@));
    }
    let d = first_index(&m, '.', 0);
    let ints = copy_range(&m, 0, d);
    let fracs = if d < m.len() {
        copy_without_dots(&m, d + 1, m.len())
    } else {
        Vec::new()
    };
    proof {
        if d >= m@.len() {
            assert(fracs@ =~= Seq::<char>::empty());
        }
    }
    (ints, fracs)
}

/// Appends the digits of a float without exponent: the fraction is dropped
/// when it is `0`.
fn push_plain(out: &mut String, ints: &Vec<char>, fracs: &Vec<char>)
    ensures
        final(out)@ == old(out)@ + ints@ + if fracs@.len() == 0 || fracs@ == "0"@ {
            Seq::<char>::empty()
        } else {
            "."@ + fracs@
        },
{
    let ghost before = out@;
    push_chars(out, ints);
    let just_zero = fracs.len() == 1 && fracs[0] == '0';
    proof {
        reveal_strlit("0");
        assert(just_zero == (fracs@ == "0"@)) by {
            if fracs@ == "0"@ {
                assert(fracs@.len() == 1);
            }
            if just_zero {
                assert(fracs@ =~= "0"@);
            }
        }
    }
    if !just_zero && fracs.len() > 0 {
        push_char(out, '.');
        push_chars(out, fracs);
        proof {
            reveal_strlit(".");
            assert(out@ =~= before + ints@ + ("."@ + fracs@));
        }
    } else {
        proof {
            assert(out@ =~= before + ints@ + Seq::<char>::empty());
        }
    }
}

/// The text a float displays as, from its debug rendering.
pub(crate) fn float_display(debug: &String) -> (r: String)
    ensures
        r@ == float_text(debug@),
{
    let cs = crate::text::chars_of(debug.as_str());
    let ghost t = debug@;
    let n = cs.len();
    let e = first_index(&cs, 'e', 0);
    let (ints, fracs) = mantissa_digits(&cs);
    let mut out = String::new();
    proof {
        assert(out@ =~= Seq::<char>::empty());
    }
    if e > 0 && cs[0] == '-' {
        push_char(&mut out, '-');
    }
    let ghost sign = out@;
    proof {
        reveal_strlit("-");
        assert(sign == if e > 0 && t[0] == '-' {
            "-"@
        } else {
            Seq::<char>::empty()
        });
    }
    if e == n {
        push_plain(&mut out, &ints, &fracs);
        proof {
            assert(out@ =~= float_text(t));
        }
        return out;
    }
    let ghost rest = t.subrange(e + 1, t.len() as int);
    let mut s = e + 1;
    let mut negx = false;
    if s < n && cs[s] == '-' {
        negx = true;
        s = s + 1;
    }
    proof {
        assert(negx == (rest.len() > 0 && rest[0] == '-'));
        if negx {
            assert(cs@.subrange(s as int, n as int) =~= rest.subrange(1, rest.len() as int));
        } else {
            assert(cs@.subrange(s as int, n as int) =~= rest);
        }
    }
    let exp = match parse_number(&cs, s, n) {
        Some(v) => v,
        None => return crate::text::string_of(debug.as_str()),
    };
    if exp > 1000 || ints.len() > 2000 || fracs.len() > 2000 {
        return crate::text::string_of(debug.as_str());
    }
    let mut digits = copy_range(&ints, 0, ints.len());
    let mut fr = copy_range(&fracs, 0, fracs.len());
    proof {
        assert(ints@.subrange(0, ints@.len() as int) =~= ints@);
        assert(fracs@.subrange(0, fracs@.len() as int) =~= fracs@);
    }
    digits.append(&mut fr);
    let il = ints.len() as i64;
    let point: i64 = if negx {
        il - (exp as i64)
    } else {
        il + (exp as i64)
    };
    push_placed(&mut out, &digits, point);
    proof {
        assert(digits@ == ints@ + fracs@);
        assert(out@ =~= float_text(t));
    }
    out
}

/// A literal value.
pub(crate) fn lower_constant(d: &Dump) -> (r: Option<Constant>)
    ensures
        match constant_spec(d@) {
            Some(c) => r matches Some(x) && constant_view(x) == c,
            None => r is None,
        },
{
    match d {
        Dump::Atom(a) => {
            if is(a, "None") {
                Some(Constant::NoneValue)
            } else {
                Some(Constant::Other)
            }
        },
        Dump::Call(n, args) => {
            proof {
                lemma_dump_views_index(args@);
            }
            if args.len() != 1 {
                return Some(Constant::Other);
            }
            if is(n, "Bool") {
                match &args[0] {
                    Dump::Atom(b) => Some(Constant::Bool(is(b, "true"))),
                    _ => None,
                }
            } else if is(n, "Str") {
                match &args[0] {
                    Dump::Text(s) => Some(Constant::Str(s.clone())),
                    _ => None,
                }
            } else if is(n, "Int") {
                match &args[0] {
                    Dump::Atom(s) => Some(Constant::Int(s.clone())),
                    _ => None,
                }
            } else if is(n, "Float") {
                match &args[0] {
                    Dump::Atom(s) => Some(Constant::Float(float_display(s))),
                    _ => None,
                }
            } else {
                Some(Constant::Other)
            }
        },
        _ => Some(Constant::Other),
    }
}

/// The constructor name and record fields of `Variant(Struct { .. })`.
pub(crate) fn node_fields<'a>(d: &'a Dump) -> (r: Option<(&'a String, &'a Vec<(String, Dump)>)>)
    ensures
        r matches Some((v, f)) ==> decreases_to!(*d => *f),
        match node_spec(d@) {
            Some((vn, fs)) => r matches Some((v, f)) && v@ == vn && field_views(f@) == fs,
            None => r is None,
        },
{
    match d {
        Dump::Call(variant, args) => {
            proof {
                lemma_dump_views_index(args@);
            }
            if args.len() == 1 {
                match &args[0] {
                    Dump::Record(_, fields) => {
                        proof {
                            assert(decreases_to!(*d => *args));
                            assert(decreases_to!(*args => args@));
                            assert(decreases_to!(args@ => args@[0]));
                            assert(decreases_to!(args@[0] => *fields));
                        }
                        Some((variant, fields))
                    },
                    _ => None,
                }
            } else {
                None
            }
        },
        _ => None,
    }
}

} // verus!
