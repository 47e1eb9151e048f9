//! Reading the textual tree rendering that the Python parser hands over.
//!
//! The rendering is nested values: string literals, bare tokens (names,
//! numbers, ranges such as `3..17`), lists `[a, b]`, tuples `(a, b)`,
//! constructor applications `Name(a, b)` and records `Name { field: value }`.
//! [`read_spec`] states what a text reads as; [`read_dump`] computes it.
use vstd::prelude::*;
use crate::text::push_char;

verus! {

/// A value of the rendered tree.
pub enum Dump {
    /// A string literal, with its escapes decoded.
    Text(String),
    /// A bare token: a name, a number, `true`/`false` or a range `a..b`.
    Atom(String),
    List(Vec<Dump>),
    Tuple(Vec<Dump>),
    Call(String, Vec<Dump>),
    Record(String, Vec<(String, Dump)>),
}

/// Mathematical model of a [`Dump`].
pub ghost enum DumpV {
    Text(Seq<char>),
    Atom(Seq<char>),
    List(Seq<DumpV>),
    Tuple(Seq<DumpV>),
    Call(Seq<char>, Seq<DumpV>),
    Record(Seq<char>, Seq<(Seq<char>, DumpV)>),
}

/// The model of a value.
pub open spec fn dump_view(d: Dump) -> DumpV
    decreases d,
{
    match d {
        Dump::Text(s) => DumpV::Text(s@),
        Dump::Atom(s) => DumpV::Atom(s@),
        Dump::List(v) => DumpV::List(dump_views(v@)),
        Dump::Tuple(v) => DumpV::Tuple(dump_views(v@)),
        Dump::Call(n, v) => DumpV::Call(n@, dump_views(v@)),
        Dump::Record(n, fs) => DumpV::Record(n@, field_views(fs@)),
    }
}

/// The models of a sequence of values.
pub open spec fn dump_views(s: Seq<Dump>) -> Seq<DumpV>
    decreases s,
{
    if s.len() == 0 {
        Seq::empty()
    } else {
        dump_views(s.subrange(0, s.len() - 1)).push(dump_view(s[s.len() - 1]))
    }
}

/// The models of a sequence of record fields.
pub open spec fn field_views(s: Seq<(String, Dump)>) -> Seq<(Seq<char>, DumpV)>
    decreases s,
{
    if s.len() == 0 {
        Seq::empty()
    } else {
        field_views(s.subrange(0, s.len() - 1)).push((s[s.len() - 1].0@, dump_view(s[s.len() - 1].1)))
    }
}

impl View for Dump {
    type V = DumpV;

    open spec fn view(&self) -> DumpV {
        dump_view(*self)
    }
}

/// The models keep the length, and each entry is the model of the value.
pub proof fn lemma_dump_views_index(s: Seq<Dump>)
    ensures
        dump_views(s).len() == s.len(),
        forall|i: int| 0 <= i < s.len() ==> #[trigger] dump_views(s)[i] == dump_view(s[i]),
    decreases s.len(),
{
    if s.len() > 0 {
        let p = s.subrange(0, s.len() - 1);
        lemma_dump_views_index(p);
        assert forall|i: int| 0 <= i < s.len() implies #[trigger] dump_views(s)[i] == dump_view(s[i]) by {
            if i < s.len() - 1 {
                assert(p[i] == s[i]);
            }
        }
    }
}

/// The field models keep the length, and each entry is the model of the field.
pub proof fn lemma_field_views_index(s: Seq<(String, Dump)>)
    ensures
        field_views(s).len() == s.len(),
        forall|i: int| 0 <= i < s.len() ==> #[trigger] field_views(s)[i] == (s[i].0@, dump_view(s[i].1)),
    decreases s.len(),
{
    if s.len() > 0 {
        let p = s.subrange(0, s.len() - 1);
        lemma_field_views_index(p);
        assert forall|i: int| 0 <= i < s.len() implies #[trigger] field_views(s)[i] == (s[i].0@, dump_view(s[i].1)) by {
            if i < s.len() - 1 {
                assert(p[i] == s[i]);
            }
        }
    }
}

/// Appending a value appends its model.
pub proof fn lemma_dump_views_push(s: Seq<Dump>, d: Dump)
    ensures
        dump_views(s.push(d)) == dump_views(s).push(dump_view(d)),
{
    assert(s.push(d).subrange(0, s.len() as int) =~= s);
}

/// Appending a field appends its model.
pub proof fn lemma_field_views_push(s: Seq<(String, Dump)>, f: (String, Dump))
    ensures
        field_views(s.push(f)) == field_views(s).push((f.0@, dump_view(f.1))),
{
    assert(s.push(f).subrange(0, s.len() as int) =~= s);
}

// ---------------------------------------------------------------------------
// What a text reads as
// ---------------------------------------------------------------------------

/// Blanks between tokens.
pub open spec fn is_blank(c: char) -> bool {
    c == ' ' || c == '\n' || c == '\t'
}

/// Characters that end a bare token.
pub open spec fn is_delimiter(c: char) -> bool {
    c == ' ' || c == '\n' || c == '\t' || c == '(' || c == ')' || c == '[' || c == ']' || c == '{' || c == '}'
        || c == ',' || c == ':' || c == '"'
}

/// The first position at or after `p` that is not a blank.
pub open spec fn skip_spec(cs: Seq<char>, p: int) -> int
    decreases cs.len() - p,
{
    if p < 0 || p >= cs.len() || !is_blank(cs[p]) {
        p
    } else {
        skip_spec(cs, p + 1)
    }
}

/// Skipping blanks never moves back and stays within the text.
pub proof fn lemma_skip_bounds(cs: Seq<char>, p: int)
    requires
        0 <= p <= cs.len(),
    ensures
        p <= skip_spec(cs, p) <= cs.len(),
    decreases cs.len() - p,
{
    if p < cs.len() && is_blank(cs[p]) {
        lemma_skip_bounds(cs, p + 1);
    }
}

/// The first position at or after `p` that ends a bare token.
pub open spec fn atom_end_spec(cs: Seq<char>, p: int) -> int
    decreases cs.len() - p,
{
    if p < 0 || p >= cs.len() || is_delimiter(cs[p]) {
        p
    } else {
        atom_end_spec(cs, p + 1)
    }
}

/// The value of a hexadecimal digit.
pub open spec fn hex_spec(c: char) -> Option<int> {
    if '0' <= c && c <= '9' {
        Some(c as int - '0' as int)
    } else if 'a' <= c && c <= 'f' {
        Some(c as int - 'a' as int + 10)
    } else if 'A' <= c && c <= 'F' {
        Some(c as int - 'A' as int + 10)
    } else {
        None
    }
}

/// The character of a Unicode scalar value.
pub open spec fn scalar_char(v: int) -> Option<char> {
    if (0 <= v < 0xD800) || (0xE000 <= v && v <= 0x10FFFF) {
        Some(v as char)
    } else {
        None
    }
}

/// The hex digits of a `\u{...}` escape from `q` up to the closing brace:
/// the value and the brace's position; at most six digits, at least one.
pub open spec fn hex_run_spec(cs: Seq<char>, q: int, v: int, digits: int) -> Option<(int, int)>
    decreases cs.len() - q,
{
    if q < 0 || q >= cs.len() {
        None
    } else if cs[q] == '}' {
        if digits == 0 {
            None
        } else {
            Some((v, q))
        }
    } else if digits >= 6 {
        None
    } else {
        match hex_spec(cs[q]) {
            Some(d) => hex_run_spec(cs, q + 1, v * 16 + d, digits + 1),
            None => None,
        }
    }
}

/// The character a one-letter escape `\e` stands for.
pub open spec fn escaped(e: char) -> char {
    if e == 'n' {
        '\n'
    } else if e == 't' {
        '\t'
    } else if e == 'r' {
        '\r'
    } else if e == '0' {
        '\0'
    } else {
        e
    }
}

/// A string literal from `p` (after the opening quote), with `acc` decoded
/// so far: the text and the position after the closing quote.
pub open spec fn text_spec(cs: Seq<char>, p: int, acc: Seq<char>) -> Option<(Seq<char>, int)>
    decreases cs.len() - p,
{
    if p < 0 || p >= cs.len() {
        None
    } else if cs[p] == '"' {
        Some((acc, p + 1))
    } else if cs[p] == '\\' {
        if p + 1 >= cs.len() {
            None
        } else if cs[p + 1] == 'u' {
            if p + 2 >= cs.len() || cs[p + 2] != '{' {
                None
            } else {
                match hex_run_spec(cs, p + 3, 0, 0) {
                    Some((v, q)) => match scalar_char(v) {
                        Some(ch) => if q + 1 > p && q < cs.len() {
                            text_spec(cs, q + 1, acc.push(ch))
                        } else {
                            None
                        },
                        None => None,
                    },
                    None => None,
                }
            }
        } else {
            text_spec(cs, p + 2, acc.push(escaped(cs[p + 1])))
        }
    } else {
        text_spec(cs, p + 1, acc.push(cs[p]))
    }
}

/// One value from `pos` (after blanks): the value and the position after it.
pub open spec fn value_spec(cs: Seq<char>, pos: int) -> Option<(DumpV, int)>
    decreases cs.len() - pos, 0int,
{
    let p = skip_spec(cs, pos);
    if pos < 0 || p < pos || p >= cs.len() {
        None
    } else if cs[p] == '"' {
        match text_spec(cs, p + 1, Seq::empty()) {
            Some((s, q)) => Some((DumpV::Text(s), q)),
            None => None,
        }
    } else if cs[p] == '[' || cs[p] == '(' {
        let s = skip_spec(cs, p + 1);
        if s <= pos || s > cs.len() {
            None
        } else if cs[p] == '[' {
            match items_spec(cs, s, ']', Seq::empty()) {
                Some((items, q)) => Some((DumpV::List(items), q)),
                None => None,
            }
        } else {
            match items_spec(cs, s, ')', Seq::empty()) {
                Some((items, q)) => Some((DumpV::Tuple(items), q)),
                None => None,
            }
        }
    } else {
        let q = atom_end_spec(cs, p);
        let name = cs.subrange(p, q);
        if q <= p {
            None
        } else if q < cs.len() && cs[q] == '(' {
            let s = skip_spec(cs, q + 1);
            if s <= pos || s > cs.len() {
                None
            } else {
                match items_spec(cs, s, ')', Seq::empty()) {
                    Some((items, q2)) => Some((DumpV::Call(name, items), q2)),
                    None => None,
                }
            }
        } else {
            let q1 = skip_spec(cs, q);
            if q1 >= q && q1 < cs.len() && cs[q1] == '{' {
                let s = skip_spec(cs, q1 + 1);
                if s <= pos || s > cs.len() {
                    None
                } else {
                    match fields_spec(cs, s, Seq::empty()) {
                        Some((fields, q2)) => Some((DumpV::Record(name, fields), q2)),
                        None => None,
                    }
                }
            } else {
                Some((DumpV::Atom(name), q))
            }
        }
    }
}

/// The rest of a list from `q` up to `close`, with `acc` read so far: the
/// items and the position after `close`. Items are separated by blanks and
/// at most one comma.
pub open spec fn items_spec(cs: Seq<char>, q: int, close: char, acc: Seq<DumpV>) -> Option<(Seq<DumpV>, int)>
    decreases cs.len() - q, 1int,
{
    if q < 0 || q >= cs.len() {
        None
    } else if cs[q] == close {
        Some((acc, q + 1))
    } else {
        match value_spec(cs, q) {
            Some((v, q2)) => {
                let q3 = skip_spec(cs, q2);
                let q4 = if q3 < cs.len() && cs[q3] == ',' {
                    skip_spec(cs, q3 + 1)
                } else {
                    q3
                };
                if q4 > q && q4 <= cs.len() {
                    items_spec(cs, q4, close, acc.push(v))
                } else {
                    None
                }
            },
            None => None,
        }
    }
}

/// The rest of a record from `q` up to `}`, with `acc` read so far: the
/// fields `name: value` and the position after `}`.
pub open spec fn fields_spec(cs: Seq<char>, q: int, acc: Seq<(Seq<char>, DumpV)>) -> Option<
    (Seq<(Seq<char>, DumpV)>, int),
>
    decreases cs.len() - q, 1int,
{
    if q < 0 || q >= cs.len() {
        None
    } else if cs[q] == '}' {
        Some((acc, q + 1))
    } else {
        let q1 = atom_end_spec(cs, q);
        if q1 <= q || q1 >= cs.len() || cs[q1] != ':' {
            None
        } else {
            let q2 = skip_spec(cs, q1 + 1);
            if q2 <= q || q2 >= cs.len() {
                None
            } else {
                match value_spec(cs, q2) {
                    Some((v, q3)) => {
                        let q4 = skip_spec(cs, q3);
                        let q5 = if q4 < cs.len() && cs[q4] == ',' {
                            skip_spec(cs, q4 + 1)
                        } else {
                            q4
                        };
                        if q5 > q && q5 <= cs.len() {
                            fields_spec(cs, q5, acc.push((cs.subrange(q, q1), v)))
                        } else {
                            None
                        }
                    },
                    None => None,
                }
            }
        }
    }
}

/// What a whole rendering reads as: one value followed only by blanks.
pub open spec fn read_spec(cs: Seq<char>) -> Option<DumpV> {
    match value_spec(cs, 0) {
        Some((d, p)) => if skip_spec(cs, p) == cs.len() {
            Some(d)
        } else {
            None
        },
        None => None,
    }
}

// ---------------------------------------------------------------------------
// Reading
// ---------------------------------------------------------------------------

/// `char::from_u32`: the character with this scalar value, if it is one.
#[verifier::external_body]
fn char_from_u32(u: u32) -> (r: Option<char>)
    ensures
        r == scalar_char(u as int),
{
    char::from_u32(u)
}

/// Whether `c` ends a bare token.
fn delimiter(c: char) -> (r: bool)
    ensures
        r == is_delimiter(c),
{
    c == ' ' || c == '\n' || c == '\t' || c == '(' || c == ')' || c == '[' || c == ']' || c == '{' || c == '}'
        || c == ',' || c == ':' || c == '"'
}

/// The first position at or after `pos` that is not a blank.
fn skip_blanks(cs: &Vec<char>, pos: usize) -> (r: usize)
    requires
        pos <= cs@.len(),
    ensures
        pos <= r <= cs@.len(),
        r == skip_spec(cs@, pos as int),
{
    let mut p = pos;
    while p < cs.len() && (cs[p] == ' ' || cs[p] == '\n' || cs[p] == '\t')
        invariant
            pos <= p <= cs@.len(),
            skip_spec(cs@, pos as int) == skip_spec(cs@, p as int),
        decreases cs@.len() - p,
    {
        p = p + 1;
    }
    p
}

/// The value of a hexadecimal digit.
fn hex_value(c: char) -> (r: Option<u32>)
    ensures
        r matches Some(v) ==> v < 16 && hex_spec(c) == Some(v as int),
        r is None ==> hex_spec(c) is None,
{
    if '0' <= c && c <= '9' {
        Some((c as u32) - ('0' as u32))
    } else if 'a' <= c && c <= 'f' {
        Some((c as u32) - ('a' as u32) + 10)
    } else if 'A' <= c && c <= 'F' {
        Some((c as u32) - ('A' as u32) + 10)
    } else {
        None
    }
}

/// `16^n`.
pub open spec fn pow16(n: nat) -> nat
    decreases n,
{
    if n == 0 {
        1
    } else {
        16 * pow16((n - 1) as nat)
    }
}

/// One more hex digit multiplies the bound by 16, up to six digits.
proof fn lemma_pow16_step(n: nat)
    requires
        n < 6,
    ensures
        pow16(n + 1) == 16 * pow16(n),
        pow16(n + 1) <= 0x1000000,
{
    reveal_with_fuel(pow16, 7);
    assert(pow16(6) == 0x1000000);
    if n == 0 {
    } else if n == 1 {
    } else if n == 2 {
    } else if n == 3 {
    } else if n == 4 {
    } else {
    }
}

/// Reads a string literal whose opening quote is just before `pos`; returns
/// the decoded text and the position after the closing quote.
fn read_text(cs: &Vec<char>, pos: usize) -> (r: Option<(String, usize)>)
    requires
        pos <= cs@.len(),
    ensures
        r matches Some((_, p)) ==> pos < p <= cs@.len(),
        match text_spec(cs@, pos as int, Seq::empty()) {
            Some((t, q)) => r matches Some((s, p)) && s@ == t && p == q,
            None => r is None,
        },
{
    let mut s = String::new();
    let mut p = pos;
    proof {
        assert(s@ =~= Seq::<char>::empty());
    }
    while p < cs.len()
        invariant
            pos <= p <= cs@.len(),
            text_spec(cs@, pos as int, Seq::empty()) == text_spec(cs@, p as int, s@),
        decreases cs@.len() - p,
    {
        let c = cs[p];
        if c == '"' {
            return Some((s, p + 1));
        }
        if c == '\\' {
            if p + 1 >= cs.len() {
                return None;
            }
            let e = cs[p + 1];
            if e == 'u' {
                if p + 2 >= cs.len() || cs[p + 2] != '{' {
                    return None;
                }
                let mut q = p + 3;
                let mut v: u32 = 0;
                let mut digits: usize = 0;
                while q < cs.len() && cs[q] != '}'
                    invariant
                        p + 3 <= q <= cs@.len(),
                        digits <= 6,
                        v < 0x1000000,
                        digits == 0 ==> v == 0,
                        v < pow16(digits as nat),
                        hex_run_spec(cs@, p + 3, 0, 0) == hex_run_spec(cs@, q as int, v as int, digits as int),
                        pos <= p,
                        p + 2 < cs@.len(),
                        cs@[p as int] == '\\',
                        cs@[p + 1] == 'u',
                        cs@[p + 2] == '{',
                        text_spec(cs@, pos as int, Seq::empty()) == text_spec(cs@, p as int, s@),
                    decreases cs@.len() - q,
                {
                    if digits >= 6 {
                        return None;
                    }
                    match hex_value(cs[q]) {
                        Some(d) => {
                            proof {
                                lemma_pow16_step(digits as nat);
                            }
                            v = v * 16 + d;
                        },
                        None => return None,
                    }
                    digits = digits + 1;
                    q = q + 1;
                }
                if q >= cs.len() || digits == 0 {
                    return None;
                }
                match char_from_u32(v) {
                    Some(ch) => push_char(&mut s, ch),
                    None => return None,
                }
                p = q + 1;
            } else {
                let decoded = if e == 'n' {
                    '\n'
                } else if e == 't' {
                    '\t'
                } else if e == 'r' {
                    '\r'
                } else if e == '0' {
                    '\0'
                } else {
                    e
                };
                push_char(&mut s, decoded);
                p = p + 2;
            }
        } else {
            push_char(&mut s, c);
            p = p + 1;
        }
    }
    None
}

/// Reads a bare token starting at `pos`; returns it and the position after it.
fn read_atom(cs: &Vec<char>, pos: usize) -> (r: (String, usize))
    requires
        pos <= cs@.len(),
    ensures
        pos <= r.1 <= cs@.len(),
        r.1 == atom_end_spec(cs@, pos as int),
        r.0@ == cs@.subrange(pos as int, r.1 as int),
{
    let mut s = String::new();
    let mut p = pos;
    proof {
        assert(s@ =~= cs@.subrange(pos as int, pos as int));
    }
    while p < cs.len() && !delimiter(cs[p])
        invariant
            pos <= p <= cs@.len(),
            atom_end_spec(cs@, pos as int) == atom_end_spec(cs@, p as int),
            s@ == cs@.subrange(pos as int, p as int),
        decreases cs@.len() - p,
    {
        push_char(&mut s, cs[p]);
        proof {
            assert(s@ =~= cs@.subrange(pos as int, p + 1));
        }
        p = p + 1;
    }
    (s, p)
}

/// Reads a sequence of values up to the closing character `close`, starting
/// just after the opening one; returns the items and the position after `close`.
fn read_items(cs: &Vec<char>, pos: usize, close: char) -> (r: Option<(Vec<Dump>, usize)>)
    requires
        0 < pos <= cs@.len(),
    ensures
        r matches Some((_, p)) ==> pos < p <= cs@.len(),
        match items_spec(cs@, skip_spec(cs@, pos as int), close, Seq::empty()) {
            Some((vs, q)) => r matches Some((items, p)) && dump_views(items@) == vs && p == q,
            None => r is None,
        },
    decreases cs@.len() - pos, 1nat,
{
    let mut items: Vec<Dump> = Vec::new();
    let mut q = skip_blanks(cs, pos);
    proof {
        assert(dump_views(items@) =~= Seq::<DumpV>::empty());
    }
    while q < cs.len()
        invariant
            0 < pos <= q <= cs@.len(),
            items_spec(cs@, skip_spec(cs@, pos as int), close, Seq::empty()) == items_spec(
                cs@,
                q as int,
                close,
                dump_views(items@),
            ),
        decreases cs@.len() - q,
    {
        if cs[q] == close {
            return Some((items, q + 1));
        }
        match read_value(cs, q) {
            Some((v, q2)) => {
                proof {
                    lemma_dump_views_push(items@, v);
                }
                items.push(v);
                let q3 = skip_blanks(cs, q2);
                q = if q3 < cs.len() && cs[q3] == ',' {
                    skip_blanks(cs, q3 + 1)
                } else {
                    q3
                };
            },
            None => return None,
        }
    }
    None
}

/// Reads the fields of a record, starting just after `{`; returns them and
/// the position after `}`.
fn read_fields(cs: &Vec<char>, pos: usize) -> (r: Option<(Vec<(String, Dump)>, usize)>)
    requires
        0 < pos <= cs@.len(),
    ensures
        r matches Some((_, p)) ==> pos < p <= cs@.len(),
        match fields_spec(cs@, skip_spec(cs@, pos as int), Seq::empty()) {
            Some((fs, q)) => r matches Some((fields, p)) && field_views(fields@) == fs && p == q,
            None => r is None,
        },
    decreases cs@.len() - pos, 1nat,
{
    let mut fields: Vec<(String, Dump)> = Vec::new();
    let mut q = skip_blanks(cs, pos);
    proof {
        assert(field_views(fields@) =~= Seq::<(Seq<char>, DumpV)>::empty());
    }
    while q < cs.len()
        invariant
            0 < pos <= q <= cs@.len(),
            fields_spec(cs@, skip_spec(cs@, pos as int), Seq::empty()) == fields_spec(
                cs@,
                q as int,
                field_views(fields@),
            ),
        decreases cs@.len() - q,
    {
        if cs[q] == '}' {
            return Some((fields, q + 1));
        }
        let (name, q1) = read_atom(cs, q);
        if q1 == q || q1 >= cs.len() || cs[q1] != ':' {
            return None;
        }
        let q2 = skip_blanks(cs, q1 + 1);
        if q2 >= cs.len() {
            return None;
        }
        match read_value(cs, q2) {
            Some((v, q3)) => {
                proof {
                    lemma_field_views_push(fields@, (name, v));
                }
                fields.push((name, v));
                let q4 = skip_blanks(cs, q3);
                q = if q4 < cs.len() && cs[q4] == ',' {
                    skip_blanks(cs, q4 + 1)
                } else {
                    q4
                };
            },
            None => return None,
        }
    }
    None
}

/// Reads one value starting at `pos` (after blanks); returns it and the
/// position after it.
pub fn read_value(cs: &Vec<char>, pos: usize) -> (r: Option<(Dump, usize)>)
    requires
        pos <= cs@.len(),
    ensures
        r matches Some((_, p)) ==> pos < p <= cs@.len(),
        match value_spec(cs@, pos as int) {
            Some((dv, q)) => r matches Some((d, p)) && d@ == dv && p == q,
            None => r is None,
        },
    decreases cs@.len() - pos, 0nat,
{
    let p = skip_blanks(cs, pos);
    if p >= cs.len() {
        return None;
    }
    proof {
        lemma_skip_bounds(cs@, p + 1);
    }
    let c = cs[p];
    if c == '"' {
        match read_text(cs, p + 1) {
            Some((s, q)) => Some((Dump::Text(s), q)),
            None => None,
        }
    } else if c == '[' {
        match read_items(cs, p + 1, ']') {
            Some((items, q)) => Some((Dump::List(items), q)),
            None => None,
        }
    } else if c == '(' {
        match read_items(cs, p + 1, ')') {
            Some((items, q)) => Some((Dump::Tuple(items), q)),
            None => None,
        }
    } else {
        let (name, q) = read_atom(cs, p);
        if q == p {
            return None;
        }
        if q < cs.len() && cs[q] == '(' {
            proof {
                lemma_skip_bounds(cs@, q + 1);
            }
            match read_items(cs, q + 1, ')') {
                Some((items, q2)) => Some((Dump::Call(name, items), q2)),
                None => None,
            }
        } else {
            let q1 = skip_blanks(cs, q);
            if q1 < cs.len() && cs[q1] == '{' {
                proof {
                    lemma_skip_bounds(cs@, q1 + 1);
                }
                match read_fields(cs, q1 + 1) {
                    Some((fields, q2)) => Some((Dump::Record(name, fields), q2)),
                    None => None,
                }
            } else {
                Some((Dump::Atom(name), q))
            }
        }
    }
}

/// Reads a whole rendering: one value followed only by blanks.
pub fn read_dump(text: &str) -> (r: Option<Dump>)
    ensures
        match read_spec(text@) {
            Some(dv) => r matches Some(d) && d@ == dv,
            None => r is None,
        },
{
    let cs = crate::text::chars_of(text);
    match read_value(&cs, 0) {
        Some((d, p)) => {
            let q = skip_blanks(&cs, p);
            if q == cs.len() {
                Some(d)
            } else {
                None
            }
        },
        None => None,
    }
}

} // verus!
