//! Architecture layering: imports that a layer must not make.
use vstd::prelude::*;
use super::hit::{concat3, hit_views, hv, push_hit, Anchor, Hit, HitView};
use crate::analysis::fold::lemma_take_ends;
use crate::analysis::model::{import_views, ImportFacts, ImportView};
use crate::config::{rules_view, ForbiddenImportRule, RuleView};
use crate::text::{chars_of, has_prefix, push_str, str_eq, starts_with};

verus! {

/// The pieces of `s` read so far and the piece under way, splitting at `sep`.
pub open spec fn split_scan(s: Seq<char>, sep: char) -> (Seq<Seq<char>>, Seq<char>)
    decreases s.len(),
{
    if s.len() == 0 {
        (Seq::empty(), Seq::empty())
    } else {
        let (done, cur) = split_scan(s.drop_last(), sep);
        if s.last() == sep {
            (done.push(cur), Seq::empty())
        } else {
            (done, cur.push(s.last()))
        }
    }
}

/// The pieces of `s` between occurrences of `sep`, empty ones included
/// (what `str::split` yields).
pub open spec fn split_on(s: Seq<char>, sep: char) -> Seq<Seq<char>> {
    let (done, cur) = split_scan(s, sep);
    done.push(cur)
}

/// The char views of a sequence of char vectors.
pub open spec fn rows(v: Seq<Vec<char>>) -> Seq<Seq<char>> {
    v.map_values(|r: Vec<char>| r@)
}

/// Splits `s` at every `sep`.
pub fn split_chars(s: &Vec<char>, sep: char) -> (r: Vec<Vec<char>>)
    ensures
        rows(r@) == split_on(s@, sep),
{
    let mut done: Vec<Vec<char>> = Vec::new();
    let mut cur: Vec<char> = Vec::new();
    let mut i: usize = 0;
    proof {
        lemma_take_ends(s@);
        assert(rows(done@) =~= Seq::<Seq<char>>::empty());
    }
    while i < s.len()
        invariant
            i <= s@.len(),
            split_scan(s@.take(i as int), sep) == (rows(done@), cur@),
        decreases s@.len() - i,
    {
        proof {
            assert(s@.take(i + 1).drop_last() =~= s@.take(i as int));
            assert(s@.take(i + 1).last() == s@[i as int]);
        }
        if s[i] == sep {
            let ghost before = done@;
            let piece = cur;
            done.push(piece);
            cur = Vec::new();
            proof {
                assert(rows(done@) =~= rows(before).push(piece@));
                assert(cur@ =~= Seq::<char>::empty());
            }
        } else {
            cur.push(s[i]);
        }
        i = i + 1;
    }
    proof {
        lemma_take_ends(s@);
    }
    let ghost before = done@;
    done.push(cur);
    proof {
        assert(rows(done@) =~= rows(before).push(cur@));
    }
    done
}

/// The path components kept from `/`-separated pieces: empty pieces are
/// dropped, and so is `.` except as the first piece of a relative path.
pub open spec fn kept_pieces(ps: Seq<Seq<char>>, absolute: bool) -> Seq<Seq<char>>
    decreases ps.len(),
{
    if ps.len() == 0 {
        Seq::empty()
    } else {
        let k = ps.len() - 1;
        let p = ps.last();
        kept_pieces(ps.drop_last(), absolute) + if p.len() == 0 || (p == seq!['.'] && (absolute || k > 0)) {
            Seq::<Seq<char>>::empty()
        } else {
            seq![p]
        }
    }
}

/// The components of a `/`-separated path, as `Path::components` reads them
/// on Unix: a leading `/` as its own component, then the names.
pub open spec fn path_components(p: Seq<char>) -> Seq<Seq<char>> {
    let absolute = p.len() > 0 && p[0] == '/';
    (if absolute {
        seq![seq!['/']]
    } else {
        Seq::empty()
    }) + kept_pieces(split_on(p, '/'), absolute)
}

/// The dotted layer `layer` appears as consecutive components of `path`.
pub open spec fn path_contains_layer(path: Seq<char>, layer: Seq<char>) -> bool {
    let parts = split_on(layer, '.');
    let cs = path_components(path);
    exists|i: int| 0 <= i && i + parts.len() <= cs.len() && #[trigger] cs.subrange(i, i + parts.len()) == parts
}

/// The components of a path.
pub fn components_of(path: &str) -> (r: Vec<Vec<char>>)
    ensures
        rows(r@) == path_components(path@),
{
    let cs = chars_of(path);
    let absolute = cs.len() > 0 && cs[0] == '/';
    let pieces = split_chars(&cs, '/');
    let mut out: Vec<Vec<char>> = Vec::new();
    if absolute {
        let mut root: Vec<char> = Vec::new();
        root.push('/');
        out.push(root);
    }
    let ghost start = rows(out@);
    proof {
        assert(start =~= if absolute {
            seq![seq!['/']]
        } else {
            Seq::<Seq<char>>::empty()
        });
        lemma_take_ends(rows(pieces@));
    }
    let mut k: usize = 0;
    while k < pieces.len()
        invariant
            k <= pieces@.len(),
            rows(out@) == start + kept_pieces(rows(pieces@).take(k as int), absolute),
        decreases pieces@.len() - k,
    {
        proof {
            let ps = rows(pieces@);
            assert(ps.take(k + 1).drop_last() =~= ps.take(k as int));
            assert(ps.take(k + 1).last() == pieces@[k as int]@);
        }
        let p = &pieces[k];
        let dot = p.len() == 1 && p[0] == '.';
        proof {
            if p@.len() == 1 {
                assert(dot == (p@ =~= seq!['.']));
            } else {
                assert(p@ != seq!['.']);
            }
        }
        if !(p.len() == 0 || (dot && (absolute || k > 0))) {
            let ghost before = rows(out@);
            out.push(p.clone());
            proof {
                assert(rows(out@) =~= before + seq![p@]);
            }
        }
        proof {
            assert(rows(out@) =~= start + kept_pieces(rows(pieces@).take(k + 1), absolute));
        }
        k = k + 1;
    }
    proof {
        lemma_take_ends(rows(pieces@));
    }
    out
}

/// Whether two character vectors hold the same characters.
fn same_chars(a: &Vec<char>, b: &Vec<char>) -> (r: bool)
    ensures
        r == (a@ == b@),
{
    if a.len() != b.len() {
        return false;
    }
    let mut q: usize = 0;
    while q < a.len()
        invariant
            a@.len() == b@.len(),
            q <= a@.len(),
            forall|z: int| 0 <= z < q ==> a@[z] == #[trigger] b@[z],
        decreases a@.len() - q,
    {
        if a[q] != b[q] {
            return false;
        }
        q = q + 1;
    }
    proof {
        assert(a@ =~= b@);
    }
    true
}

/// Whether `parts` appears in `cs` starting at `i`.
fn window_at(cs: &Vec<Vec<char>>, parts: &Vec<Vec<char>>, i: usize) -> (r: bool)
    requires
        i + parts@.len() <= cs@.len(),
    ensures
        r == (rows(cs@).subrange(i as int, i + parts@.len()) == rows(parts@)),
{
    let m = parts.len();
    let cl = cs.len();
    let mut k: usize = 0;
    while k < m
        invariant
            m == parts@.len(),
            cl == cs@.len(),
            i + m <= cs@.len(),
            k <= m,
            forall|q: int| 0 <= q < k ==> rows(cs@)[i + q] == #[trigger] rows(parts@)[q],
        decreases m - k,
    {
        if !same_chars(&cs[i + k], &parts[k]) {
            proof {
                assert(rows(cs@).subrange(i as int, i + m)[k as int] != rows(parts@)[k as int]);
            }
            return false;
        }
        k = k + 1;
    }
    proof {
        assert(rows(cs@).subrange(i as int, i + m) =~= rows(parts@));
    }
    true
}

/// Whether `parts` appears as consecutive elements of `cs`.
fn has_window(cs: &Vec<Vec<char>>, parts: &Vec<Vec<char>>) -> (r: bool)
    ensures
        r == (exists|i: int| 0 <= i && i + parts@.len() <= cs@.len() && #[trigger] rows(cs@).subrange(i, i + parts@.len()) == rows(parts@)),
{
    if parts.len() > cs.len() {
        return false;
    }
    let m = parts.len();
    let last = cs.len() - m;
    let mut i: usize = 0;
    while i <= last
        invariant
            m == parts@.len(),
            m <= cs@.len(),
            cs@.len() == cs.len(),
            last == cs@.len() - m,
            i <= last + 1,
            forall|j: int| 0 <= j < i ==> #[trigger] rows(cs@).subrange(j, j + m) != rows(parts@),
        decreases last + 1 - i,
    {
        if window_at(cs, parts, i) {
            return true;
        }
        if i == last {
            proof {
                assert forall|j: int| 0 <= j && j + m <= cs@.len() implies #[trigger] rows(cs@).subrange(j, j + m) != rows(parts@) by {
                    assert(j <= last);
                }
            }
            return false;
        }
        i = i + 1;
    }
    false
}

/// Whether the file at `path` lies in the dotted layer `layer`.
pub fn in_layer(path: &str, layer: &str) -> (r: bool)
    ensures
        r == path_contains_layer(path@, layer@),
{
    let cs = components_of(path);
    let parts = split_chars(&chars_of(layer), '.');
    proof {
        assert(rows(parts@).len() == parts@.len());
        assert(rows(cs@).len() == cs@.len());
    }
    has_window(&cs, &parts)
}

/// The import is the module `forbidden` or one of its submodules.
pub open spec fn imports_module(module: Seq<char>, forbidden: Seq<char>) -> bool {
    module == forbidden || has_prefix(module, forbidden + seq!['.'])
}

/// The findings for one import against every rule, in rule order.
pub open spec fn import_rule_hits(path: Seq<char>, rules: Seq<RuleView>, imp: ImportFacts) -> Seq<HitView>
    decreases rules.len(),
{
    if rules.len() == 0 {
        Seq::empty()
    } else {
        let r = rules.last();
        import_rule_hits(path, rules.drop_last(), imp) + if path_contains_layer(path, r.from) && imports_module(
            imp.module,
            r.forbidden,
        ) {
            seq![
                hv(
                    Anchor::At(imp.line as usize, imp.column as usize),
                    "module `"@ + imp.module + "` must not be imported from `"@ + r.from + "` layer"@,
                ),
            ]
        } else {
            Seq::empty()
        }
    }
}

/// The findings for every import of a file located at `path`.
pub open spec fn forbidden_import_hits(path: Seq<char>, rules: Seq<RuleView>, imps: Seq<ImportFacts>) -> Seq<HitView>
    decreases imps.len(),
{
    if imps.len() == 0 {
        Seq::empty()
    } else {
        forbidden_import_hits(path, rules, imps.drop_last()) + import_rule_hits(path, rules, imps.last())
    }
}

/// Whether `module` is `forbidden` or one of its submodules
/// (`app.infrastructure_extra` is not a submodule of `app.infrastructure`).
pub fn module_matches_forbidden(module: &str, forbidden: &str) -> (r: bool)
    ensures
        r == imports_module(module@, forbidden@),
{
    if str_eq(module, forbidden) {
        return true;
    }
    let mut prefix = crate::text::string_of(forbidden);
    crate::text::push_char(&mut prefix, '.');
    proof {
        assert(prefix@ =~= forbidden@ + seq!['.']);
    }
    starts_with(module, prefix.as_str())
}

/// Imports that a file's layer forbids, by the given rules.
pub fn detect_forbidden_imports(path: &str, rules: &Vec<ForbiddenImportRule>, imps: &Vec<ImportView>) -> (r: Vec<Hit>)
    ensures
        hit_views(r@) == forbidden_import_hits(path@, rules_view(rules@), import_views(imps@)),
{
    let ghost rv = rules_view(rules@);
    let ghost iv = import_views(imps@);
    let mut out: Vec<Hit> = Vec::new();
    let mut i: usize = 0;
    proof {
        lemma_take_ends(iv);
        assert(hit_views(out@) =~= Seq::<HitView>::empty());
    }
    while i < imps.len()
        invariant
            i <= imps@.len(),
            rv == rules_view(rules@),
            iv == import_views(imps@),
            hit_views(out@) == forbidden_import_hits(path@, rv, iv.take(i as int)),
        decreases imps@.len() - i,
    {
        proof {
            assert(iv.take(i + 1).drop_last() =~= iv.take(i as int));
            assert(iv.take(i + 1).last() == imps@[i as int]@);
        }
        let imp = &imps[i];
        let ghost mid = hit_views(out@);
        let mut k: usize = 0;
        proof {
            lemma_take_ends(rv);
            assert(mid + Seq::<HitView>::empty() =~= mid);
        }
        while k < rules.len()
            invariant
                i < imps@.len(),
                k <= rules@.len(),
                rv == rules_view(rules@),
                imp@ == imps@[i as int]@,
                hit_views(out@) == mid + import_rule_hits(path@, rv.take(k as int), imp@),
            decreases rules@.len() - k,
        {
            proof {
                assert(rv.take(k + 1).drop_last() =~= rv.take(k as int));
                assert(rv.take(k + 1).last() == rules@[k as int]@);
            }
            let rule = &rules[k];
            if in_layer(path, rule.from.as_str()) && module_matches_forbidden(imp.module.as_str(), rule.forbidden.as_str()) {
                let mut m = concat3("module `", imp.module.as_str(), "` must not be imported from `");
                push_str(&mut m, rule.from.as_str());
                push_str(&mut m, "` layer");
                proof {
                    assert(m@ =~= "module `"@ + imp@.module + "` must not be imported from `"@ + rule@.from + "` layer"@);
                }
                push_hit(&mut out, Hit { anchor: Anchor::At(imp.line, imp.column), message: m });
            }
            proof {
                assert(hit_views(out@) =~= mid + import_rule_hits(path@, rv.take(k + 1), imp@));
            }
            k = k + 1;
        }
        proof {
            lemma_take_ends(rv);
            assert(hit_views(out@) =~= forbidden_import_hits(path@, rv, iv.take(i + 1)));
        }
        i = i + 1;
    }
    proof {
        lemma_take_ends(iv);
    }
    out
}

} // verus!
