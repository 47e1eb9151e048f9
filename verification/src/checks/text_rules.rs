//! Detectors over the source text: comments and lines, matched ignoring
//! ASCII case.
use vstd::prelude::*;
use super::hit::{concat3, hit, hit_views, hv, push_hit, Anchor, Hit, HitView};
use crate::analysis::fold::lemma_take_ends;
use crate::analysis::lines::{byte_len, char_rows, comment_views, prefix_bytes, CommentFacts, CommentView};
use crate::analysis::metrics::sat;
use crate::text::chars_of;

verus! {

// ---------------------------------------------------------------------------
// Case-insensitive search
// ---------------------------------------------------------------------------

/// The code of a character with ASCII lowercase letters raised.
pub open spec fn upper_code(c: char) -> u32 {
    if 'a' <= c && c <= 'z' {
        (c as u32 - 32) as u32
    } else {
        c as u32
    }
}

fn upper_of(c: char) -> (r: u32)
    ensures
        r == upper_code(c),
{
    if 'a' <= c && c <= 'z' {
        c as u32 - 32
    } else {
        c as u32
    }
}

/// `n` occurs in `h` at `i`, ignoring ASCII case.
pub open spec fn matches_ci_at(h: Seq<char>, n: Seq<char>, i: int) -> bool {
    0 <= i && i + n.len() <= h.len() && forall|k: int| 0 <= k < n.len() ==> upper_code(h[i + k]) == upper_code(#[trigger] n[k])
}

/// `n` occurs in `h`, ignoring ASCII case.
pub open spec fn contains_ci(h: Seq<char>, n: Seq<char>) -> bool {
    exists|i: int| matches_ci_at(h, n, i)
}

fn matches_at(h: &Vec<char>, n: &Vec<char>, i: usize) -> (r: bool)
    requires
        i + n@.len() <= h@.len(),
    ensures
        r == matches_ci_at(h@, n@, i as int),
{
    let hl = h.len();
    let mut k: usize = 0;
    while k < n.len()
        invariant
            hl == h@.len(),
            i + n@.len() <= h@.len(),
            k <= n@.len(),
            forall|q: int| 0 <= q < k ==> upper_code(h@[i + q]) == upper_code(#[trigger] n@[q]),
        decreases n@.len() - k,
    {
        if upper_of(h[i + k]) != upper_of(n[k]) {
            return false;
        }
        k = k + 1;
    }
    true
}

/// The first position where `n` occurs in `h`, ignoring ASCII case.
pub fn find_ci(h: &Vec<char>, n: &Vec<char>) -> (r: Option<usize>)
    ensures
        match r {
            Some(i) => matches_ci_at(h@, n@, i as int) && forall|j: int| 0 <= j < i ==> !matches_ci_at(h@, n@, j),
            None => !contains_ci(h@, n@),
        },
{
    if n.len() > h.len() {
        return None;
    }
    if n.len() == 0 {
        return Some(0);
    }
    let last = h.len() - n.len();
    let mut i: usize = 0;
    while i <= last
        invariant
            0 < n@.len() <= h@.len(),
            h@.len() == h.len(),
            last == h@.len() - n@.len(),
            i <= last + 1,
            forall|j: int| 0 <= j < i ==> !matches_ci_at(h@, n@, j),
        decreases last + 1 - i,
    {
        if matches_at(h, n, i) {
            return Some(i);
        }
        i = i + 1;
    }
    proof {
        assert forall|j: int| !matches_ci_at(h@, n@, j) by {
            if matches_ci_at(h@, n@, j) {
                assert(j < i);
            }
        }
    }
    None
}

/// Whether `n` occurs in `h`, ignoring ASCII case.
pub fn contains_ignoring_case(h: &Vec<char>, n: &str) -> (r: bool)
    ensures
        r == contains_ci(h@, n@),
{
    let nv = chars_of(n);
    find_ci(h, &nv).is_some()
}

/// The first pattern, in order, that occurs in `t` ignoring ASCII case.
pub open spec fn first_match(t: Seq<char>, ps: Seq<Seq<char>>) -> Option<Seq<char>>
    decreases ps.len(),
{
    if ps.len() == 0 {
        None
    } else if contains_ci(t, ps[0]) {
        Some(ps[0])
    } else {
        first_match(t, ps.subrange(1, ps.len() as int))
    }
}

/// The character views of a list of patterns.
pub open spec fn pattern_views(ps: Seq<&str>) -> Seq<Seq<char>> {
    ps.map_values(|p: &str| p@)
}

/// The index of the first pattern that occurs in `t`, ignoring ASCII case.
pub fn first_matching_pattern(t: &Vec<char>, ps: &Vec<&str>) -> (r: Option<usize>)
    ensures
        match r {
            Some(k) => k < ps@.len() && first_match(t@, pattern_views(ps@)) == Some(ps@[k as int]@),
            None => first_match(t@, pattern_views(ps@)) is None,
        },
{
    let ghost pv = pattern_views(ps@);
    let mut k: usize = 0;
    proof {
        assert(pv.subrange(0, pv.len() as int) =~= pv);
    }
    while k < ps.len()
        invariant
            k <= ps@.len(),
            pv == pattern_views(ps@),
            first_match(t@, pv) == first_match(t@, pv.subrange(k as int, pv.len() as int)),
        decreases ps@.len() - k,
    {
        let ghost rest = pv.subrange(k as int, pv.len() as int);
        proof {
            assert(rest[0] == ps@[k as int]@);
            assert(rest.subrange(1, rest.len() as int) =~= pv.subrange(k + 1, pv.len() as int));
        }
        if contains_ignoring_case(t, ps[k]) {
            return Some(k);
        }
        k = k + 1;
    }
    proof {
        assert(pv.subrange(k as int, pv.len() as int) =~= Seq::<Seq<char>>::empty());
    }
    None
}

// ---------------------------------------------------------------------------
// Comment detectors
// ---------------------------------------------------------------------------

/// A `TODO` without an owner or context (`TODO(`, `TODO:` or `TODO[`).
pub open spec fn is_bare_todo(t: Seq<char>) -> bool {
    contains_ci(t, "TODO"@) && !contains_ci(t, "TODO("@) && !contains_ci(t, "TODO:"@) && !contains_ci(t, "TODO["@)
}

/// Characters `str::trim` removes (Unicode `White_Space`).
pub open spec fn is_unicode_ws(c: char) -> bool {
    ('\t' <= c && c <= '\r') || c == ' ' || c == '\u{85}' || c == '\u{A0}' || c == '\u{1680}' || ('\u{2000}' <= c
        && c <= '\u{200A}') || c == '\u{2028}' || c == '\u{2029}' || c == '\u{202F}' || c == '\u{205F}' || c
        == '\u{3000}'
}

/// `t` without surrounding whitespace (`str::trim`).
pub open spec fn trim_unicode(t: Seq<char>) -> Seq<char>
    decreases t.len(),
{
    if t.len() > 0 && is_unicode_ws(t[0]) {
        trim_unicode(t.subrange(1, t.len() as int))
    } else if t.len() > 0 && is_unicode_ws(t.last()) {
        trim_unicode(t.drop_last())
    } else {
        t
    }
}

/// `t` without its leading `#` characters.
pub open spec fn strip_hashes(t: Seq<char>) -> Seq<char>
    decreases t.len(),
{
    if t.len() > 0 && t[0] == '#' {
        strip_hashes(t.subrange(1, t.len() as int))
    } else {
        t
    }
}

/// Keywords that open commented-out code.
pub open spec fn code_markers() -> Seq<Seq<char>> {
    seq!["def "@, "class "@, "return "@, "import "@, "raise "@]
}

/// A comment whose text, without `#` marks and surrounding whitespace,
/// starts with a code keyword (ignoring ASCII case).
pub open spec fn looks_like_code(t: Seq<char>) -> bool {
    exists|k: int| 0 <= k < 5 && matches_ci_at(trim_unicode(strip_hashes(t)), #[trigger] code_markers()[k], 0)
}

/// Markers of AI-generated placeholders.
pub open spec fn ai_markers() -> Seq<Seq<char>> {
    seq!["TODO: AI"@, "FIXME: AI"@, "GENERATED BY AI"@]
}

/// Markers of generated code.
pub open spec fn generated_markers() -> Seq<Seq<char>> {
    seq!["GENERATED BY"@, "AUTO-GENERATED"@]
}

/// Comment-level detectors.
#[derive(Clone, Copy, PartialEq, Eq, Structural)]
pub enum CommentRule {
    TodoWithoutContext,
    CommentedOutCode,
    AiPlaceholder,
    GeneratedCommentPattern,
}

/// Whether a comment text triggers the rule, and the message.
pub open spec fn comment_rule_flag(rule: CommentRule, t: Seq<char>) -> bool {
    match rule {
        CommentRule::TodoWithoutContext => is_bare_todo(t),
        CommentRule::CommentedOutCode => looks_like_code(t),
        CommentRule::AiPlaceholder => exists|k: int| 0 <= k < 3 && contains_ci(t, #[trigger] ai_markers()[k]),
        CommentRule::GeneratedCommentPattern => exists|k: int| 0 <= k < 2 && contains_ci(t, #[trigger] generated_markers()[k]),
    }
}

/// The message of a comment-level detector.
pub open spec fn comment_rule_message(rule: CommentRule) -> Seq<char> {
    match rule {
        CommentRule::TodoWithoutContext => "TODO comment without owner/context (use TODO(owner): ...)"@,
        CommentRule::CommentedOutCode => "comment appears to contain commented-out executable code"@,
        CommentRule::AiPlaceholder => "AI placeholder marker found in comment"@,
        CommentRule::GeneratedCommentPattern => "generated-code marker in comment"@,
    }
}

/// One finding per comment that triggers the rule, at the comment.
pub open spec fn comment_hits(rule: CommentRule, cs: Seq<CommentFacts>) -> Seq<HitView>
    decreases cs.len(),
{
    if cs.len() == 0 {
        Seq::empty()
    } else {
        let c = cs.last();
        comment_hits(rule, cs.drop_last()) + if comment_rule_flag(rule, c.text) {
            seq![hv(Anchor::At(c.line as usize, c.column as usize), comment_rule_message(rule))]
        } else {
            Seq::empty()
        }
    }
}

fn unicode_ws(c: char) -> (r: bool)
    ensures
        r == is_unicode_ws(c),
{
    ('\t' <= c && c <= '\r') || c == ' ' || c == '\u{85}' || c == '\u{A0}' || c == '\u{1680}' || ('\u{2000}' <= c
        && c <= '\u{200A}') || c == '\u{2028}' || c == '\u{2029}' || c == '\u{202F}' || c == '\u{205F}' || c
        == '\u{3000}'
}

/// The bounds of the comment body: `#` marks and surrounding whitespace removed.
fn comment_body(t: &Vec<char>) -> (r: (usize, usize))
    ensures
        r.0 <= r.1 <= t@.len(),
        t@.subrange(r.0 as int, r.1 as int) == trim_unicode(strip_hashes(t@)),
{
    let n = t.len();
    let mut lo: usize = 0;
    proof {
        assert(t@.subrange(0, n as int) =~= t@);
    }
    while lo < n && t[lo] == '#'
        invariant
            lo <= n == t@.len(),
            strip_hashes(t@) == strip_hashes(t@.subrange(lo as int, n as int)),
        decreases n - lo,
    {
        proof {
            let s = t@.subrange(lo as int, n as int);
            assert(s.subrange(1, s.len() as int) =~= t@.subrange(lo + 1, n as int));
        }
        lo = lo + 1;
    }
    proof {
        let s = t@.subrange(lo as int, n as int);
        if s.len() > 0 {
            assert(s[0] == t@[lo as int]);
        }
        assert(strip_hashes(s) == s);
    }
    while lo < n && unicode_ws(t[lo])
        invariant
            lo <= n == t@.len(),
            trim_unicode(strip_hashes(t@)) == trim_unicode(t@.subrange(lo as int, n as int)),
        decreases n - lo,
    {
        proof {
            let s = t@.subrange(lo as int, n as int);
            assert(s.subrange(1, s.len() as int) =~= t@.subrange(lo + 1, n as int));
        }
        lo = lo + 1;
    }
    let mut hi: usize = n;
    while hi > lo && unicode_ws(t[hi - 1])
        invariant
            lo <= hi <= n == t@.len(),
            lo < hi ==> !is_unicode_ws(t@[lo as int]),
            trim_unicode(strip_hashes(t@)) == trim_unicode(t@.subrange(lo as int, hi as int)),
        decreases hi - lo,
    {
        proof {
            let s = t@.subrange(lo as int, hi as int);
            assert(s.drop_last() =~= t@.subrange(lo as int, hi - 1));
            assert(s[0] == t@[lo as int]);
        }
        hi = hi - 1;
    }
    proof {
        let s = t@.subrange(lo as int, hi as int);
        if s.len() > 0 {
            assert(s[0] == t@[lo as int]);
            assert(s.last() == t@[hi - 1]);
        }
        assert(trim_unicode(s) == s);
    }
    (lo, hi)
}

/// Whether a marker opens `t[lo..hi]`, ignoring ASCII case.
fn opens_with_ci(t: &Vec<char>, lo: usize, hi: usize, m: &str) -> (r: bool)
    requires
        lo <= hi <= t@.len(),
    ensures
        r == matches_ci_at(t@.subrange(lo as int, hi as int), m@, 0),
{
    let mv = chars_of(m);
    if mv.len() > hi - lo {
        return false;
    }
    let mut k: usize = 0;
    while k < mv.len()
        invariant
            lo <= hi <= t@.len(),
            mv@ == m@,
            mv@.len() <= hi - lo,
            k <= mv@.len(),
            forall|q: int| 0 <= q < k ==> upper_code(t@.subrange(lo as int, hi as int)[0 + q]) == upper_code(#[trigger] mv@[q]),
        decreases mv@.len() - k,
    {
        if upper_of(t[lo + k]) != upper_of(mv[k]) {
            proof {
                assert(t@.subrange(lo as int, hi as int)[0 + k] == t@[lo + k]);
            }
            return false;
        }
        proof {
            assert(t@.subrange(lo as int, hi as int)[0 + k] == t@[lo + k]);
        }
        k = k + 1;
    }
    true
}

fn comment_flag(rule: CommentRule, text: &String) -> (r: bool)
    ensures
        r == comment_rule_flag(rule, text@),
{
    let t = chars_of(text.as_str());
    match rule {
        CommentRule::TodoWithoutContext => contains_ignoring_case(&t, "TODO") && !contains_ignoring_case(&t, "TODO(")
            && !contains_ignoring_case(&t, "TODO:") && !contains_ignoring_case(&t, "TODO["),
        CommentRule::CommentedOutCode => {
            let (lo, hi) = comment_body(&t);
            let r = opens_with_ci(&t, lo, hi, "def ") || opens_with_ci(&t, lo, hi, "class ") || opens_with_ci(
                &t,
                lo,
                hi,
                "return ",
            ) || opens_with_ci(&t, lo, hi, "import ") || opens_with_ci(&t, lo, hi, "raise ");
            proof {
                let ms = code_markers();
                assert(ms[0] == "def "@ && ms[1] == "class "@ && ms[2] == "return "@ && ms[3] == "import "@ && ms[4]
                    == "raise "@);
                if !r {
                    assert forall|k: int| 0 <= k < 5 implies !matches_ci_at(trim_unicode(strip_hashes(text@)), #[trigger] ms[k], 0) by {
                        if k == 0 {} else if k == 1 {} else if k == 2 {} else if k == 3 {} else {}
                    }
                }
            }
            r
        },
        CommentRule::AiPlaceholder => {
            let r = contains_ignoring_case(&t, "TODO: AI") || contains_ignoring_case(&t, "FIXME: AI")
                || contains_ignoring_case(&t, "GENERATED BY AI");
            proof {
                let ms = ai_markers();
                assert(ms[0] == "TODO: AI"@ && ms[1] == "FIXME: AI"@ && ms[2] == "GENERATED BY AI"@);
                if !r {
                    assert forall|k: int| 0 <= k < 3 implies !contains_ci(text@, #[trigger] ms[k]) by {
                        if k == 0 {} else if k == 1 {} else {}
                    }
                }
            }
            r
        },
        CommentRule::GeneratedCommentPattern => {
            let r = contains_ignoring_case(&t, "GENERATED BY") || contains_ignoring_case(&t, "AUTO-GENERATED");
            proof {
                let ms = generated_markers();
                assert(ms[0] == "GENERATED BY"@ && ms[1] == "AUTO-GENERATED"@);
                if !r {
                    assert forall|k: int| 0 <= k < 2 implies !contains_ci(text@, #[trigger] ms[k]) by {
                        if k == 0 {} else {}
                    }
                }
            }
            r
        },
    }
}

fn comment_message(rule: CommentRule) -> (r: &'static str)
    ensures
        r@ == comment_rule_message(rule),
{
    match rule {
        CommentRule::TodoWithoutContext => "TODO comment without owner/context (use TODO(owner): ...)",
        CommentRule::CommentedOutCode => "comment appears to contain commented-out executable code",
        CommentRule::AiPlaceholder => "AI placeholder marker found in comment",
        CommentRule::GeneratedCommentPattern => "generated-code marker in comment",
    }
}

/// Runs a comment-level detector over the comments of a file.
pub fn scan_comments(rule: CommentRule, cs: &Vec<CommentView>) -> (r: Vec<Hit>)
    ensures
        hit_views(r@) == comment_hits(rule, comment_views(cs@)),
{
    let ghost facts = comment_views(cs@);
    let mut out: Vec<Hit> = Vec::new();
    let mut i: usize = 0;
    proof {
        lemma_take_ends(facts);
        assert(hit_views(out@) =~= Seq::<HitView>::empty());
    }
    while i < cs.len()
        invariant
            i <= cs@.len(),
            facts == comment_views(cs@),
            hit_views(out@) == comment_hits(rule, facts.take(i as int)),
        decreases cs@.len() - i,
    {
        proof {
            assert(facts.take(i + 1).drop_last() =~= facts.take(i as int));
            assert(facts.take(i + 1).last() == cs@[i as int]@);
        }
        let c = &cs[i];
        if comment_flag(rule, &c.text) {
            push_hit(&mut out, hit(Anchor::At(c.line, c.column), comment_message(rule)));
        }
        proof {
            assert(hit_views(out@) =~= comment_hits(rule, facts.take(i + 1)));
        }
        i = i + 1;
    }
    proof {
        lemma_take_ends(facts);
    }
    out
}

/// One finding per comment containing one of `ps` (the first that matches,
/// in order), ignoring ASCII case.
pub open spec fn pattern_comment_hits(ps: Seq<Seq<char>>, cs: Seq<CommentFacts>) -> Seq<HitView>
    decreases cs.len(),
{
    if cs.len() == 0 {
        Seq::empty()
    } else {
        let c = cs.last();
        pattern_comment_hits(ps, cs.drop_last()) + match first_match(c.text, ps) {
            Some(p) => seq![hv(Anchor::At(c.line as usize, c.column as usize), "matches pattern `"@ + p + "`"@)],
            None => Seq::empty(),
        }
    }
}

/// Comments that contain one of the patterns.
pub fn scan_comment_patterns(ps: &Vec<&str>, cs: &Vec<CommentView>) -> (r: Vec<Hit>)
    ensures
        hit_views(r@) == pattern_comment_hits(pattern_views(ps@), comment_views(cs@)),
{
    let ghost facts = comment_views(cs@);
    let mut out: Vec<Hit> = Vec::new();
    let mut i: usize = 0;
    proof {
        lemma_take_ends(facts);
        assert(hit_views(out@) =~= Seq::<HitView>::empty());
    }
    while i < cs.len()
        invariant
            i <= cs@.len(),
            facts == comment_views(cs@),
            hit_views(out@) == pattern_comment_hits(pattern_views(ps@), facts.take(i as int)),
        decreases cs@.len() - i,
    {
        proof {
            assert(facts.take(i + 1).drop_last() =~= facts.take(i as int));
            assert(facts.take(i + 1).last() == cs@[i as int]@);
        }
        let c = &cs[i];
        let t = chars_of(c.text.as_str());
        match first_matching_pattern(&t, ps) {
            Some(k) => {
                let m = concat3("matches pattern `", ps[k], "`");
                push_hit(&mut out, Hit { anchor: Anchor::At(c.line, c.column), message: m });
            },
            None => {},
        }
        proof {
            assert(hit_views(out@) =~= pattern_comment_hits(pattern_views(ps@), facts.take(i + 1)));
        }
        i = i + 1;
    }
    proof {
        lemma_take_ends(facts);
    }
    out
}

// ---------------------------------------------------------------------------
// Line detectors
// ---------------------------------------------------------------------------

/// The first position where `n` occurs in `h` ignoring ASCII case (when it does).
pub open spec fn first_ci_index(h: Seq<char>, n: Seq<char>) -> int {
    choose|i: int| matches_ci_at(h, n, i) && forall|j: int| 0 <= j < i ==> !matches_ci_at(h, n, j)
}

/// The findings of a line-pattern detector on the first `k` lines: on each
/// line holding a pattern (the first that matches), one finding at the
/// pattern's first occurrence (1-based line, byte column).
pub open spec fn pattern_line_hits(ps: Seq<Seq<char>>, ls: Seq<Seq<char>>) -> Seq<HitView>
    decreases ls.len(),
{
    if ls.len() == 0 {
        Seq::empty()
    } else {
        let l = ls.last();
        let idx = ls.len() - 1;
        pattern_line_hits(ps, ls.drop_last()) + match first_match(l, ps) {
            Some(p) => seq![
                hv(
                    Anchor::At((idx + 1) as usize, sat(byte_len(l.take(first_ci_index(l, p))) + 1) as usize),
                    "matches pattern `"@ + p + "`"@,
                ),
            ],
            None => Seq::empty(),
        }
    }
}

/// Lines that contain one of the patterns.
pub fn scan_line_patterns(ps: &Vec<&str>, lines: &Vec<Vec<char>>) -> (r: Vec<Hit>)
    ensures
        hit_views(r@) == pattern_line_hits(pattern_views(ps@), char_rows(lines@)),
{
    let ghost ls = char_rows(lines@);
    let mut out: Vec<Hit> = Vec::new();
    let mut i: usize = 0;
    proof {
        lemma_take_ends(ls);
        assert(hit_views(out@) =~= Seq::<HitView>::empty());
    }
    while i < lines.len()
        invariant
            i <= lines@.len(),
            ls == char_rows(lines@),
            hit_views(out@) == pattern_line_hits(pattern_views(ps@), ls.take(i as int)),
        decreases lines@.len() - i,
    {
        proof {
            assert(ls.take(i + 1).drop_last() =~= ls.take(i as int));
            assert(ls.take(i + 1).last() == lines@[i as int]@);
        }
        let l = &lines[i];
        match first_matching_pattern(l, ps) {
            Some(k) => {
                let pv = chars_of(ps[k]);
                let col = match find_ci(l, &pv) {
                    Some(j) => {
                        proof {
                            let p = ps@[k as int]@;
                            let c = first_ci_index(l@, p);
                            assert(matches_ci_at(l@, p, j as int));
                            if c != j as int {
                                assert(matches_ci_at(l@, p, c) && forall|q: int| 0 <= q < c ==> !matches_ci_at(l@, p, q));
                                assert(false);
                            }
                        }
                        prefix_bytes(l, j).saturating_add(1)
                    },
                    None => 1,
                };
                proof {
                    let p = ps@[k as int]@;
                    assert(contains_ci(l@, p)) by {
                        let fm = first_match(l@, pattern_views(ps@));
                        lemma_first_match_contains(l@, pattern_views(ps@));
                    }
                }
                let m = concat3("matches pattern `", ps[k], "`");
                push_hit(&mut out, Hit { anchor: Anchor::At(i + 1, col), message: m });
            },
            None => {},
        }
        proof {
            assert(hit_views(out@) =~= pattern_line_hits(pattern_views(ps@), ls.take(i + 1)));
        }
        i = i + 1;
    }
    proof {
        lemma_take_ends(ls);
    }
    out
}

/// The pattern [`first_match`] returns does occur.
pub proof fn lemma_first_match_contains(t: Seq<char>, ps: Seq<Seq<char>>)
    ensures
        first_match(t, ps) matches Some(p) ==> contains_ci(t, p),
    decreases ps.len(),
{
    if ps.len() > 0 && !contains_ci(t, ps[0]) {
        lemma_first_match_contains(t, ps.subrange(1, ps.len() as int));
    }
}

/// Whether the first line that is neither blank nor a comment opens a
/// triple-quoted string (a module docstring).
pub open spec fn module_docstring_from(ls: Seq<Seq<char>>) -> bool
    decreases ls.len(),
{
    if ls.len() == 0 {
        false
    } else {
        let t = trim_unicode(ls[0]);
        if t.len() == 0 || t[0] == '#' {
            module_docstring_from(ls.subrange(1, ls.len() as int))
        } else {
            crate::text::has_prefix(t, seq!['"', '"', '"']) || crate::text::has_prefix(t, seq!['\'', '\'', '\''])
        }
    }
}

/// One finding at line 1, column 1 when the module has no docstring.
pub open spec fn missing_module_docstring_hits(ls: Seq<Seq<char>>) -> Seq<HitView> {
    if module_docstring_from(ls) {
        Seq::empty()
    } else {
        seq![hv(Anchor::At(1, 1), "module is missing a top-level docstring"@)]
    }
}

/// The bounds of a line without surrounding whitespace.
fn trimmed_bounds(t: &Vec<char>) -> (r: (usize, usize))
    ensures
        r.0 <= r.1 <= t@.len(),
        t@.subrange(r.0 as int, r.1 as int) == trim_unicode(t@),
{
    let n = t.len();
    let mut lo: usize = 0;
    proof {
        assert(t@.subrange(0, n as int) =~= t@);
    }
    while lo < n && unicode_ws(t[lo])
        invariant
            lo <= n == t@.len(),
            trim_unicode(t@) == trim_unicode(t@.subrange(lo as int, n as int)),
        decreases n - lo,
    {
        proof {
            let s = t@.subrange(lo as int, n as int);
            assert(s.subrange(1, s.len() as int) =~= t@.subrange(lo + 1, n as int));
        }
        lo = lo + 1;
    }
    let mut hi: usize = n;
    while hi > lo && unicode_ws(t[hi - 1])
        invariant
            lo <= hi <= n == t@.len(),
            lo < hi ==> !is_unicode_ws(t@[lo as int]),
            trim_unicode(t@) == trim_unicode(t@.subrange(lo as int, hi as int)),
        decreases hi - lo,
    {
        proof {
            let s = t@.subrange(lo as int, hi as int);
            assert(s.drop_last() =~= t@.subrange(lo as int, hi - 1));
            assert(s[0] == t@[lo as int]);
        }
        hi = hi - 1;
    }
    proof {
        let s = t@.subrange(lo as int, hi as int);
        if s.len() > 0 {
            assert(s[0] == t@[lo as int]);
            assert(s.last() == t@[hi - 1]);
        }
        assert(trim_unicode(s) == s);
    }
    (lo, hi)
}

/// Whether the module opens with a docstring.
pub fn has_module_docstring(lines: &Vec<Vec<char>>) -> (r: bool)
    ensures
        r == module_docstring_from(char_rows(lines@)),
{
    let ghost ls = char_rows(lines@);
    let mut i: usize = 0;
    proof {
        assert(ls.subrange(0, ls.len() as int) =~= ls);
    }
    while i < lines.len()
        invariant
            i <= lines@.len(),
            ls == char_rows(lines@),
            module_docstring_from(ls) == module_docstring_from(ls.subrange(i as int, ls.len() as int)),
        decreases lines@.len() - i,
    {
        let l = &lines[i];
        let (lo, hi) = trimmed_bounds(l);
        proof {
            let rest = ls.subrange(i as int, ls.len() as int);
            assert(rest[0] == l@);
            assert(rest.subrange(1, rest.len() as int) =~= ls.subrange(i + 1, ls.len() as int));
        }
        if lo < hi && l[lo] != '#' {
            let triple_double = hi - lo >= 3 && l[lo] == '"' && l[lo + 1] == '"' && l[lo + 2] == '"';
            let triple_single = hi - lo >= 3 && l[lo] == '\'' && l[lo + 1] == '\'' && l[lo + 2] == '\'';
            proof {
                let t = l@.subrange(lo as int, hi as int);
                assert(t[0] == l@[lo as int]);
                if hi - lo >= 3 {
                    assert(t[1] == l@[lo + 1]);
                    assert(t[2] == l@[lo + 2]);
                    assert(t.subrange(0, 3) =~= seq![t[0], t[1], t[2]]);
                }
                assert(triple_double == crate::text::has_prefix(t, seq!['"', '"', '"']));
                assert(triple_single == crate::text::has_prefix(t, seq!['\'', '\'', '\'']));
            }
            return triple_double || triple_single;
        }
        proof {
            let t = l@.subrange(lo as int, hi as int);
            if lo < hi {
                assert(t[0] == l@[lo as int]);
            }
        }
        i = i + 1;
    }
    false
}

/// Whether the module lacks a docstring.
pub fn detect_missing_module_docstring(lines: &Vec<Vec<char>>) -> (r: Vec<Hit>)
    ensures
        hit_views(r@) == missing_module_docstring_hits(char_rows(lines@)),
{
    let mut out: Vec<Hit> = Vec::new();
    if !has_module_docstring(lines) {
        push_hit(&mut out, hit(Anchor::At(1, 1), "module is missing a top-level docstring"));
    }
    proof {
        assert(hit_views(out@) =~= missing_module_docstring_hits(char_rows(lines@)));
    }
    out
}

} // verus!
