//! What a detector reports before it becomes an issue: where, and what.
use vstd::prelude::*;
use crate::text::{push_decimal, push_str, decimal};

verus! {

/// Where a finding points: a byte offset into the source (turned into a
/// line and column later), or a line and column given directly.
#[derive(Clone, Copy, PartialEq, Eq, Structural)]
pub enum Anchor {
    Offset(usize),
    At(usize, usize),
}

/// A finding of a detector: its place and its message.
pub struct Hit {
    pub anchor: Anchor,
    pub message: String,
}

/// Mathematical model of a finding.
pub ghost struct HitView {
    pub anchor: Anchor,
    pub message: Seq<char>,
}

impl View for Hit {
    type V = HitView;

    open spec fn view(&self) -> HitView {
        HitView { anchor: self.anchor, message: self.message@ }
    }
}

/// The models of a sequence of findings.
pub open spec fn hit_views(v: Seq<Hit>) -> Seq<HitView> {
    v.map_values(|h: Hit| h@)
}

/// Some finding of `hs` points at `at`.
pub open spec fn flagged_at(hs: Seq<HitView>, at: Anchor) -> bool {
    exists|j: int| 0 <= j < hs.len() && #[trigger] hs[j].anchor == at
}

/// The model of a finding.
pub open spec fn hv(anchor: Anchor, message: Seq<char>) -> HitView {
    HitView { anchor, message }
}

/// A finding with a fixed message.
pub fn hit(anchor: Anchor, message: &str) -> (r: Hit)
    ensures
        r@ == hv(anchor, message@),
{
    Hit { anchor, message: message.to_owned() }
}

/// `a`, then `b`, then `c`.
pub fn concat3(a: &str, b: &str, c: &str) -> (r: String)
    ensures
        r@ == a@ + b@ + c@,
{
    let mut s = String::new();
    push_str(&mut s, a);
    push_str(&mut s, b);
    push_str(&mut s, c);
    proof {
        assert(s@ =~= a@ + b@ + c@);
    }
    s
}

/// `a`, the decimal `n`, then `b`.
pub fn with_number(a: &str, n: usize, b: &str) -> (r: String)
    ensures
        r@ == a@ + decimal(n as nat) + b@,
{
    let mut s = String::new();
    push_str(&mut s, a);
    push_decimal(&mut s, n);
    push_str(&mut s, b);
    proof {
        assert(s@ =~= a@ + decimal(n as nat) + b@);
    }
    s
}

/// Appends `h` to `out`.
pub fn push_hit(out: &mut Vec<Hit>, h: Hit)
    ensures
        hit_views(final(out)@) == hit_views(old(out)@).push(h@),
{
    let ghost before = out@;
    out.push(h);
    proof {
        assert(hit_views(out@) =~= hit_views(before).push(h@));
    }
}

/// Appends all of `more` to `out`.
pub fn append_hits(out: &mut Vec<Hit>, more: Vec<Hit>)
    ensures
        hit_views(final(out)@) == hit_views(old(out)@) + hit_views(more@),
{
    let ghost before = out@;
    let ghost m = more@;
    let mut more = more;
    out.append(&mut more);
    proof {
        assert(out@ == before + m);
        assert(hit_views(out@) =~= hit_views(before) + hit_views(m));
    }
}

} // verus!
