//! The source text line by line (as `str::lines` splits it), byte columns
//! of characters, and the comments found on each line.
use vstd::prelude::*;
use super::fold::lemma_take_ends;
use super::metrics::sat;
use crate::text::push_char;

verus! {

/// A line without the `'\r'` that ended it before its `'\n'`.
pub open spec fn strip_cr(l: Seq<char>) -> Seq<char> {
    if l.len() > 0 && l.last() == '\r' {
        l.drop_last()
    } else {
        l
    }
}

/// The lines completed so far and the line under way after reading `cs`.
pub open spec fn scan_lines(cs: Seq<char>) -> (Seq<Seq<char>>, Seq<char>)
    decreases cs.len(),
{
    if cs.len() == 0 {
        (Seq::empty(), Seq::empty())
    } else {
        let (done, cur) = scan_lines(cs.drop_last());
        if cs.last() == '\n' {
            (done.push(strip_cr(cur)), Seq::empty())
        } else {
            (done, cur.push(cs.last()))
        }
    }
}

/// The lines of a text: split at each `'\n'`, a `'\r'` before it dropped,
/// and no empty line after a final `'\n'` (what `str::lines` yields).
pub open spec fn source_lines(cs: Seq<char>) -> Seq<Seq<char>> {
    let (done, cur) = scan_lines(cs);
    if cur.len() > 0 {
        done.push(cur)
    } else {
        done
    }
}

/// The character views of a sequence of character vectors.
pub open spec fn char_rows(v: Seq<Vec<char>>) -> Seq<Seq<char>> {
    v.map_values(|r: Vec<char>| r@)
}

/// Splits a text into its lines.
pub fn split_lines(cs: &Vec<char>) -> (r: Vec<Vec<char>>)
    ensures
        char_rows(r@) == source_lines(cs@),
{
    let mut done: Vec<Vec<char>> = Vec::new();
    let mut cur: Vec<char> = Vec::new();
    let mut i: usize = 0;
    proof {
        lemma_take_ends(cs@);
        assert(char_rows(done@) =~= Seq::<Seq<char>>::empty());
    }
    while i < cs.len()
        invariant
            i <= cs@.len(),
            scan_lines(cs@.take(i as int)) == (char_rows(done@), cur@),
        decreases cs@.len() - i,
    {
        proof {
            assert(cs@.take(i + 1).drop_last() =~= cs@.take(i as int));
            assert(cs@.take(i + 1).last() == cs@[i as int]);
        }
        let c = cs[i];
        if c == '\n' {
            let ghost before = done@;
            let ghost cur_v = cur@;
            let mut line = cur;
            if line.len() > 0 && line[line.len() - 1] == '\r' {
                line.pop();
                proof {
                    assert(line@ =~= cur_v.drop_last());
                }
            }
            done.push(line);
            cur = Vec::new();
            proof {
                assert(char_rows(done@) =~= char_rows(before).push(strip_cr(cur_v)));
                assert(cur@ =~= Seq::<char>::empty());
            }
        } else {
            cur.push(c);
        }
        i = i + 1;
    }
    proof {
        lemma_take_ends(cs@);
    }
    if cur.len() > 0 {
        let ghost before = done@;
        done.push(cur);
        proof {
            assert(char_rows(done@) =~= char_rows(before).push(cur@));
        }
    }
    done
}

// ---------------------------------------------------------------------------
// Byte columns
// ---------------------------------------------------------------------------

/// Bytes of a character in UTF-8.
pub open spec fn utf8_width(c: char) -> int {
    if (c as u32) < 0x80 {
        1
    } else if (c as u32) < 0x800 {
        2
    } else if (c as u32) < 0x10000 {
        3
    } else {
        4
    }
}

/// Bytes of a character sequence in UTF-8.
pub open spec fn byte_len(cs: Seq<char>) -> int
    decreases cs.len(),
{
    if cs.len() == 0 {
        0
    } else {
        byte_len(cs.drop_last()) + utf8_width(cs.last())
    }
}

/// Bytes of a character in UTF-8.
pub fn width_of(c: char) -> (r: usize)
    ensures
        r == utf8_width(c),
{
    let u = c as u32;
    if u < 0x80 {
        1
    } else if u < 0x800 {
        2
    } else if u < 0x10000 {
        3
    } else {
        4
    }
}

/// Bytes taken by the first `n` characters of `cs` (saturating).
pub fn prefix_bytes(cs: &Vec<char>, n: usize) -> (r: usize)
    requires
        n <= cs@.len(),
    ensures
        r == sat(byte_len(cs@.take(n as int))),
{
    let mut b: usize = 0;
    let mut i: usize = 0;
    proof {
        assert(cs@.take(0) =~= Seq::<char>::empty());
    }
    while i < n
        invariant
            i <= n <= cs@.len(),
            b == sat(byte_len(cs@.take(i as int))),
        decreases n - i,
    {
        proof {
            assert(cs@.take(i + 1).drop_last() =~= cs@.take(i as int));
            assert(cs@.take(i + 1).last() == cs@[i as int]);
        }
        b = b.saturating_add(width_of(cs[i]));
        i = i + 1;
    }
    b
}

// ---------------------------------------------------------------------------
// Comments
// ---------------------------------------------------------------------------

/// The first index of `c` in `s`, if it occurs.
pub open spec fn first_index(s: Seq<char>, c: char) -> Option<int>
    decreases s.len(),
{
    if s.len() == 0 {
        None
    } else {
        match first_index(s.drop_last(), c) {
            Some(k) => Some(k),
            None => if s.last() == c {
                Some(s.len() - 1)
            } else {
                None
            },
        }
    }
}

/// Where `c` first occurs in `s`, if anywhere.
pub fn find_char(s: &Vec<char>, c: char) -> (r: Option<usize>)
    ensures
        r matches Some(k) ==> k < s@.len(),
        match r {
            Some(k) => first_index(s@, c) == Some(k as int),
            None => first_index(s@, c) is None,
        },
{
    let mut i: usize = 0;
    proof {
        assert(s@.take(0) =~= Seq::<char>::empty());
    }
    while i < s.len()
        invariant
            i <= s@.len(),
            first_index(s@.take(i as int), c) is None,
        decreases s@.len() - i,
    {
        proof {
            assert(s@.take(i + 1).drop_last() =~= s@.take(i as int));
            assert(s@.take(i + 1).last() == s@[i as int]);
        }
        if s[i] == c {
            proof {
                lemma_first_index_extend(s@, i as int + 1, c);
            }
            return Some(i);
        }
        i = i + 1;
    }
    proof {
        assert(s@.take(s@.len() as int) =~= s@);
    }
    None
}

/// A first occurrence found in a prefix stays the first occurrence.
pub proof fn lemma_first_index_extend(s: Seq<char>, n: int, c: char)
    requires
        0 <= n <= s.len(),
        first_index(s.take(n), c) is Some,
    ensures
        first_index(s, c) == first_index(s.take(n), c),
    decreases s.len() - n,
{
    if n < s.len() {
        assert(s.take(n + 1).drop_last() =~= s.take(n));
        lemma_first_index_extend(s, n + 1, c);
    } else {
        assert(s.take(n) =~= s);
    }
}

/// A comment: its text from the `#` to the end of the line, its 1-based
/// line and its 1-based byte column.
pub struct CommentView {
    pub text: String,
    pub line: usize,
    pub column: usize,
}

/// Mathematical model of a comment.
pub ghost struct CommentFacts {
    pub text: Seq<char>,
    pub line: int,
    pub column: int,
}

impl View for CommentView {
    type V = CommentFacts;

    open spec fn view(&self) -> CommentFacts {
        CommentFacts { text: self.text@, line: self.line as int, column: self.column as int }
    }
}

/// The models of a sequence of comments.
pub open spec fn comment_views(v: Seq<CommentView>) -> Seq<CommentFacts> {
    v.map_values(|c: CommentView| c@)
}

/// The comment on line `idx` (0-based) starting at its first `#`, if any.
pub open spec fn comment_on(idx: int, line: Seq<char>) -> Seq<CommentFacts> {
    match first_index(line, '#') {
        Some(h) => seq![CommentFacts { text: line.skip(h), line: idx + 1, column: sat(byte_len(line.take(h)) + 1) }],
        None => Seq::empty(),
    }
}

/// The comments of a sequence of lines, in order.
pub open spec fn comments_of_lines(ls: Seq<Seq<char>>) -> Seq<CommentFacts>
    decreases ls.len(),
{
    if ls.len() == 0 {
        Seq::empty()
    } else {
        comments_of_lines(ls.drop_last()) + comment_on(ls.len() - 1, ls.last())
    }
}

/// The comments of a text, line by line.
pub open spec fn comments_of(cs: Seq<char>) -> Seq<CommentFacts> {
    comments_of_lines(source_lines(cs))
}

/// The comments of the given lines: on each line, the text from the first
/// `#` on, located by line and byte column.
pub fn collect_comments(lines: &Vec<Vec<char>>) -> (r: Vec<CommentView>)
    ensures
        comment_views(r@) == comments_of_lines(char_rows(lines@)),
{
    let ghost ls = char_rows(lines@);
    let mut out: Vec<CommentView> = Vec::new();
    let mut i: usize = 0;
    proof {
        lemma_take_ends(ls);
        assert(comment_views(out@) =~= Seq::<CommentFacts>::empty());
    }
    while i < lines.len()
        invariant
            i <= lines@.len(),
            ls == char_rows(lines@),
            comment_views(out@) == comments_of_lines(ls.take(i as int)),
        decreases lines@.len() - i,
    {
        proof {
            assert(ls.take(i + 1).drop_last() =~= ls.take(i as int));
            assert(ls.take(i + 1).last() == lines@[i as int]@);
        }
        let line = &lines[i];
        match find_char(line, '#') {
            Some(h) => {
                let mut text = String::new();
                let mut k: usize = h;
                proof {
                    assert(line@.subrange(h as int, h as int) =~= Seq::<char>::empty());
                }
                while k < line.len()
                    invariant
                        h <= k <= line@.len(),
                        text@ == line@.subrange(h as int, k as int),
                    decreases line@.len() - k,
                {
                    push_char(&mut text, line[k]);
                    proof {
                        assert(line@.subrange(h as int, k + 1) =~= line@.subrange(h as int, k as int).push(
                            line@[k as int],
                        ));
                    }
                    k = k + 1;
                }
                let column = prefix_bytes(line, h).saturating_add(1);
                let v = CommentView { text, line: i + 1, column };
                let ghost before = out@;
                out.push(v);
                proof {
                    assert(line@.subrange(h as int, line@.len() as int) =~= line@.skip(h as int));
                    assert(comment_views(out@) =~= comment_views(before).push(v@));
                    assert(comment_on(i as int, line@) =~= seq![v@]);
                }
            },
            None => {
                proof {
                    assert(comment_on(i as int, line@) =~= Seq::<CommentFacts>::empty());
                    assert(comment_views(out@) + Seq::<CommentFacts>::empty() =~= comment_views(out@));
                }
            },
        }
        i = i + 1;
    }
    proof {
        lemma_take_ends(ls);
    }
    out
}

} // verus!
