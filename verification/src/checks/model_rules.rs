//! Detectors over the per-file facts: function and class metrics, checked
//! against thresholds, and module-wide naming judgements.
use vstd::prelude::*;
use super::hit::{append_hits, concat3, flagged_at, hit, hit_views, hv, push_hit, with_number, Anchor, Hit, HitView};
use crate::analysis::fold::lemma_take_ends;
use crate::analysis::model::{class_views, ClassFacts, ClassView, FunctionFacts};
use crate::analysis::source_model::{function_view_facts, FunctionView};
use crate::text::{decimal, has_prefix, has_suffix, ends_with, push_decimal, push_str, starts_with};

verus! {

/// The function metrics a threshold applies to.
#[derive(Clone, Copy, PartialEq, Eq, Structural)]
pub enum FunctionMeasure {
    BodyLines,
    Arguments,
    NestingDepth,
    Branches,
}

/// The measured value of a function.
pub open spec fn measure_of(k: FunctionMeasure, f: FunctionFacts) -> int {
    match k {
        FunctionMeasure::BodyLines => f.body_lines,
        FunctionMeasure::Arguments => f.arg_count,
        FunctionMeasure::NestingDepth => f.max_conditional_depth,
        FunctionMeasure::Branches => f.branch_count,
    }
}

/// The message for a function over its threshold.
pub open spec fn measure_message(k: FunctionMeasure, name: Seq<char>, v: int, max: int) -> Seq<char> {
    match k {
        FunctionMeasure::BodyLines => "function `"@ + name + "` spans ~"@ + decimal(v as nat) + " lines (max "@
            + decimal(max as nat) + ")"@,
        FunctionMeasure::Arguments => "function `"@ + name + "` has "@ + decimal(v as nat) + " arguments (max "@
            + decimal(max as nat) + ")"@,
        FunctionMeasure::NestingDepth => "function `"@ + name + "` has conditional nesting depth "@ + decimal(
            v as nat,
        ) + " (max "@ + decimal(max as nat) + ")"@,
        FunctionMeasure::Branches => "function `"@ + name + "` has "@ + decimal(v as nat) + " branches (max "@
            + decimal(max as nat) + ")"@,
    }
}

/// One finding per function whose measure exceeds `max`, at the function.
pub open spec fn threshold_hits(k: FunctionMeasure, max: int, fs: Seq<FunctionFacts>) -> Seq<HitView>
    decreases fs.len(),
{
    if fs.len() == 0 {
        Seq::empty()
    } else {
        let f = fs.last();
        threshold_hits(k, max, fs.drop_last()) + if measure_of(k, f) > max {
            seq![
                hv(
                    Anchor::At(f.line as usize, f.column as usize),
                    measure_message(k, f.name, measure_of(k, f), max),
                ),
            ]
        } else {
            Seq::empty()
        }
    }
}

/// Raising a limit only takes findings away: under the higher limit there are
/// no more findings than under the lower one, and each place flagged under the
/// higher limit is flagged under the lower one too.
pub proof fn law_higher_limit_flags_no_more(k: FunctionMeasure, a: int, b: int, fs: Seq<FunctionFacts>)
    requires
        a <= b,
    ensures
        threshold_hits(k, b, fs).len() <= threshold_hits(k, a, fs).len(),
        forall|i: int|
            0 <= i < threshold_hits(k, b, fs).len() ==> flagged_at(
                threshold_hits(k, a, fs),
                #[trigger] threshold_hits(k, b, fs)[i].anchor,
            ),
    decreases fs.len(),
{
    if fs.len() > 0 {
        let p = fs.drop_last();
        law_higher_limit_flags_no_more(k, a, b, p);
        let hb = threshold_hits(k, b, fs);
        let ha = threshold_hits(k, a, fs);
        let hbp = threshold_hits(k, b, p);
        let hap = threshold_hits(k, a, p);
        assert forall|i: int| 0 <= i < hb.len() implies flagged_at(ha, #[trigger] hb[i].anchor) by {
            if i < hbp.len() {
                assert(hb[i] == hbp[i]);
                let j = choose|j: int| 0 <= j < hap.len() && #[trigger] hap[j].anchor == hbp[i].anchor;
                assert(ha[j] == hap[j]);
            } else {
                assert(ha[hap.len() as int].anchor == hb[i].anchor);
            }
        }
    }
}

/// The same for class counts: a higher limit flags no more classes.
pub proof fn law_higher_class_limit_flags_no_more(k: ClassMeasure, a: int, b: int, cs: Seq<ClassFacts>)
    requires
        a <= b,
    ensures
        class_threshold_hits(k, b, cs).len() <= class_threshold_hits(k, a, cs).len(),
        forall|i: int|
            0 <= i < class_threshold_hits(k, b, cs).len() ==> flagged_at(
                class_threshold_hits(k, a, cs),
                #[trigger] class_threshold_hits(k, b, cs)[i].anchor,
            ),
    decreases cs.len(),
{
    if cs.len() > 0 {
        let p = cs.drop_last();
        law_higher_class_limit_flags_no_more(k, a, b, p);
        let hb = class_threshold_hits(k, b, cs);
        let ha = class_threshold_hits(k, a, cs);
        let hbp = class_threshold_hits(k, b, p);
        let hap = class_threshold_hits(k, a, p);
        assert forall|i: int| 0 <= i < hb.len() implies flagged_at(ha, #[trigger] hb[i].anchor) by {
            if i < hbp.len() {
                assert(hb[i] == hbp[i]);
                let j = choose|j: int| 0 <= j < hap.len() && #[trigger] hap[j].anchor == hbp[i].anchor;
                assert(ha[j] == hap[j]);
            } else {
                assert(ha[hap.len() as int].anchor == hb[i].anchor);
            }
        }
    }
}

/// The places of findings, each taken through `g` (for instance to a line
/// and column), in order.
pub open spec fn places<T>(hs: Seq<HitView>, g: spec_fn(Anchor) -> T) -> Seq<T> {
    hs.map_values(|h: HitView| g(h.anchor))
}

/// Raising a limit only takes findings away, counted with multiplicity: the
/// places flagged under the higher limit are a sub-multiset of those flagged
/// under the lower one.
pub proof fn law_higher_limit_places_are_a_sub_multiset<T>(
    k: FunctionMeasure,
    a: int,
    b: int,
    fs: Seq<FunctionFacts>,
    g: spec_fn(Anchor) -> T,
)
    requires
        a <= b,
    ensures
        places(threshold_hits(k, b, fs), g).to_multiset().subset_of(places(threshold_hits(k, a, fs), g).to_multiset()),
    decreases fs.len(),
{
    broadcast use vstd::seq_lib::group_to_multiset_ensures, vstd::multiset::group_multiset_axioms;

    let pb = places(threshold_hits(k, b, fs), g);
    let pa = places(threshold_hits(k, a, fs), g);
    if fs.len() == 0 {
        assert(pb =~= pa);
    } else {
        let p = fs.drop_last();
        law_higher_limit_places_are_a_sub_multiset(k, a, b, p, g);
        let qb = places(threshold_hits(k, b, p), g);
        let qa = places(threshold_hits(k, a, p), g);
        let f = fs.last();
        let x = g(Anchor::At(f.line as usize, f.column as usize));
        if measure_of(k, f) > b {
            assert(pb =~= qb.push(x));
            assert(pa =~= qa.push(x));
        } else if measure_of(k, f) > a {
            assert(pb =~= qb);
            assert(pa =~= qa.push(x));
        } else {
            assert(pb =~= qb);
            assert(pa =~= qa);
        }
        assert forall|v: T| pb.to_multiset().count(v) <= pa.to_multiset().count(v) by {}
    }
}

/// The same for class counts.
pub proof fn law_higher_class_limit_places_are_a_sub_multiset<T>(
    k: ClassMeasure,
    a: int,
    b: int,
    cs: Seq<ClassFacts>,
    g: spec_fn(Anchor) -> T,
)
    requires
        a <= b,
    ensures
        places(class_threshold_hits(k, b, cs), g).to_multiset().subset_of(
            places(class_threshold_hits(k, a, cs), g).to_multiset(),
        ),
    decreases cs.len(),
{
    broadcast use vstd::seq_lib::group_to_multiset_ensures, vstd::multiset::group_multiset_axioms;

    let pb = places(class_threshold_hits(k, b, cs), g);
    let pa = places(class_threshold_hits(k, a, cs), g);
    if cs.len() == 0 {
        assert(pb =~= pa);
    } else {
        let p = cs.drop_last();
        law_higher_class_limit_places_are_a_sub_multiset(k, a, b, p, g);
        let qb = places(class_threshold_hits(k, b, p), g);
        let qa = places(class_threshold_hits(k, a, p), g);
        let c = cs.last();
        let x = g(Anchor::At(c.line as usize, c.column as usize));
        if class_measure_of(k, c) > b {
            assert(pb =~= qb.push(x));
            assert(pa =~= qa.push(x));
        } else if class_measure_of(k, c) > a {
            assert(pb =~= qb);
            assert(pa =~= qa.push(x));
        } else {
            assert(pb =~= qb);
            assert(pa =~= qa);
        }
        assert forall|v: T| pb.to_multiset().count(v) <= pa.to_multiset().count(v) by {}
    }
}

fn measure_value(k: FunctionMeasure, f: &FunctionView) -> (r: usize)
    ensures
        r == measure_of(k, f@),
{
    match k {
        FunctionMeasure::BodyLines => f.body_lines,
        FunctionMeasure::Arguments => f.arg_count,
        FunctionMeasure::NestingDepth => f.max_conditional_depth,
        FunctionMeasure::Branches => f.branch_count,
    }
}

fn measure_text(k: FunctionMeasure, name: &String, v: usize, max: usize) -> (r: String)
    ensures
        r@ == measure_message(k, name@, v as int, max as int),
{
    let (a, b) = match k {
        FunctionMeasure::BodyLines => ("` spans ~", " lines (max "),
        FunctionMeasure::Arguments => ("` has ", " arguments (max "),
        FunctionMeasure::NestingDepth => ("` has conditional nesting depth ", " (max "),
        FunctionMeasure::Branches => ("` has ", " branches (max "),
    };
    let mut s = concat3("function `", name.as_str(), a);
    push_decimal(&mut s, v);
    push_str(&mut s, b);
    push_decimal(&mut s, max);
    push_str(&mut s, ")");
    proof {
        assert(s@ =~= measure_message(k, name@, v as int, max as int));
    }
    s
}

/// Functions whose measure exceeds `max`.
pub fn functions_over(k: FunctionMeasure, max: usize, fs: &Vec<FunctionView>) -> (r: Vec<Hit>)
    ensures
        hit_views(r@) == threshold_hits(k, max as int, function_view_facts(fs@)),
{
    let ghost facts = function_view_facts(fs@);
    let mut out: Vec<Hit> = Vec::new();
    let mut i: usize = 0;
    proof {
        lemma_take_ends(facts);
        assert(hit_views(out@) =~= Seq::<HitView>::empty());
    }
    while i < fs.len()
        invariant
            i <= fs@.len(),
            facts == function_view_facts(fs@),
            hit_views(out@) == threshold_hits(k, max as int, facts.take(i as int)),
        decreases fs@.len() - i,
    {
        proof {
            assert(facts.take(i + 1).drop_last() =~= facts.take(i as int));
            assert(facts.take(i + 1).last() == fs@[i as int]@);
        }
        let f = &fs[i];
        let v = measure_value(k, f);
        if v > max {
            let m = measure_text(k, &f.name, v, max);
            push_hit(&mut out, Hit { anchor: Anchor::At(f.line, f.column), message: m });
        }
        proof {
            assert(hit_views(out@) =~= threshold_hits(k, max as int, facts.take(i + 1)));
        }
        i = i + 1;
    }
    proof {
        lemma_take_ends(facts);
    }
    out
}

/// One finding per function without a docstring.
pub open spec fn missing_docstring_hits(fs: Seq<FunctionFacts>) -> Seq<HitView>
    decreases fs.len(),
{
    if fs.len() == 0 {
        Seq::empty()
    } else {
        let f = fs.last();
        missing_docstring_hits(fs.drop_last()) + if !f.has_docstring {
            seq![hv(Anchor::At(f.line as usize, f.column as usize), "function `"@ + f.name + "` is missing a docstring"@)]
        } else {
            Seq::empty()
        }
    }
}

/// Functions whose body does not open with a docstring.
pub fn functions_missing_docstring(fs: &Vec<FunctionView>) -> (r: Vec<Hit>)
    ensures
        hit_views(r@) == missing_docstring_hits(function_view_facts(fs@)),
{
    let ghost facts = function_view_facts(fs@);
    let mut out: Vec<Hit> = Vec::new();
    let mut i: usize = 0;
    proof {
        lemma_take_ends(facts);
        assert(hit_views(out@) =~= Seq::<HitView>::empty());
    }
    while i < fs.len()
        invariant
            i <= fs@.len(),
            facts == function_view_facts(fs@),
            hit_views(out@) == missing_docstring_hits(facts.take(i as int)),
        decreases fs@.len() - i,
    {
        proof {
            assert(facts.take(i + 1).drop_last() =~= facts.take(i as int));
            assert(facts.take(i + 1).last() == fs@[i as int]@);
        }
        let f = &fs[i];
        if !f.has_docstring {
            let m = concat3("function `", f.name.as_str(), "` is missing a docstring");
            push_hit(&mut out, Hit { anchor: Anchor::At(f.line, f.column), message: m });
        }
        proof {
            assert(hit_views(out@) =~= missing_docstring_hits(facts.take(i + 1)));
        }
        i = i + 1;
    }
    proof {
        lemma_take_ends(facts);
    }
    out
}

/// Some function name has the prefix `p`.
pub open spec fn some_name_prefixed(fs: Seq<FunctionFacts>, p: Seq<char>) -> bool {
    exists|i: int| 0 <= i < fs.len() && has_prefix(#[trigger] fs[i].name, p)
}

/// One finding at line 1, column 1 when some function is named `test_*`
/// and another `should_*`.
pub open spec fn test_should_hits(fs: Seq<FunctionFacts>) -> Seq<HitView> {
    if some_name_prefixed(fs, "test_"@) && some_name_prefixed(fs, "should_"@) {
        seq![hv(Anchor::At(1, 1), "module mixes test_* and should_* function naming styles"@)]
    } else {
        Seq::empty()
    }
}

/// Whether the module mixes `test_*` and `should_*` function names.
pub fn detect_test_and_should_mix(fs: &Vec<FunctionView>) -> (r: Vec<Hit>)
    ensures
        hit_views(r@) == test_should_hits(function_view_facts(fs@)),
{
    let ghost facts = function_view_facts(fs@);
    let mut test_style = false;
    let mut should_style = false;
    let mut i: usize = 0;
    while i < fs.len()
        invariant
            i <= fs@.len(),
            facts == function_view_facts(fs@),
            test_style == (exists|j: int| 0 <= j < i && has_prefix(#[trigger] facts[j].name, "test_"@)),
            should_style == (exists|j: int| 0 <= j < i && has_prefix(#[trigger] facts[j].name, "should_"@)),
        decreases fs@.len() - i,
    {
        let t = starts_with(fs[i].name.as_str(), "test_");
        let sh = starts_with(fs[i].name.as_str(), "should_");
        proof {
            assert(facts[i as int] == fs@[i as int]@);
            assert(facts[i as int].name == fs@[i as int].name@);
            assert(t == has_prefix(facts[i as int].name, "test_"@));
            assert(sh == has_prefix(facts[i as int].name, "should_"@));
        }
        if t {
            test_style = true;
        }
        if sh {
            should_style = true;
        }
        i = i + 1;
    }
    let mut out: Vec<Hit> = Vec::new();
    if test_style && should_style {
        push_hit(&mut out, hit(Anchor::At(1, 1), "module mixes test_* and should_* function naming styles"));
    }
    proof {
        assert(hit_views(out@) =~= test_should_hits(facts));
    }
    out
}

/// An ASCII capital letter.
pub open spec fn is_upper_ascii(c: char) -> bool {
    'A' <= c && c <= 'Z'
}

/// A snake_case name: it has an underscore and no capital letter.
pub open spec fn is_snake_case(n: Seq<char>) -> bool {
    (exists|i: int| 0 <= i < n.len() && #[trigger] n[i] == '_') && !(exists|i: int| 0 <= i < n.len() && is_upper_ascii(#[trigger] n[i]))
}

/// A camelCase name: it starts with a lowercase letter, has a capital
/// letter and no underscore.
pub open spec fn is_camel_case(n: Seq<char>) -> bool {
    n.len() > 0 && 'a' <= n[0] && n[0] <= 'z' && (exists|i: int| 0 <= i < n.len() && is_upper_ascii(#[trigger] n[i]))
        && !(exists|i: int| 0 <= i < n.len() && #[trigger] n[i] == '_')
}

/// One finding at line 1, column 1 when the module names some functions in
/// snake_case and others in camelCase.
pub open spec fn naming_mix_hits(fs: Seq<FunctionFacts>) -> Seq<HitView> {
    if (exists|i: int| 0 <= i < fs.len() && is_snake_case(#[trigger] fs[i].name)) && (exists|i: int|
        0 <= i < fs.len() && is_camel_case(#[trigger] fs[i].name)) {
        seq![hv(Anchor::At(1, 1), "module mixes snake_case and camelCase function names"@)]
    } else {
        Seq::empty()
    }
}

/// Whether a name is snake_case and whether it is camelCase.
fn name_styles(name: &String) -> (r: (bool, bool))
    ensures
        r.0 == is_snake_case(name@),
        r.1 == is_camel_case(name@),
{
    let cs = crate::text::chars_of(name.as_str());
    let mut underscore = false;
    let mut upper = false;
    let mut i: usize = 0;
    while i < cs.len()
        invariant
            cs@ == name@,
            i <= cs@.len(),
            underscore == (exists|j: int| 0 <= j < i && #[trigger] cs@[j] == '_'),
            upper == (exists|j: int| 0 <= j < i && is_upper_ascii(#[trigger] cs@[j])),
        decreases cs@.len() - i,
    {
        if cs[i] == '_' {
            underscore = true;
        }
        if 'A' <= cs[i] && cs[i] <= 'Z' {
            upper = true;
        }
        i = i + 1;
    }
    let lower_start = cs.len() > 0 && 'a' <= cs[0] && cs[0] <= 'z';
    (underscore && !upper, lower_start && upper && !underscore)
}

/// Whether the module mixes snake_case and camelCase function names.
pub fn detect_inconsistent_function_naming(fs: &Vec<FunctionView>) -> (r: Vec<Hit>)
    ensures
        hit_views(r@) == naming_mix_hits(function_view_facts(fs@)),
{
    let ghost facts = function_view_facts(fs@);
    let mut snake = false;
    let mut camel = false;
    let mut i: usize = 0;
    while i < fs.len()
        invariant
            i <= fs@.len(),
            facts == function_view_facts(fs@),
            snake == (exists|j: int| 0 <= j < i && is_snake_case(#[trigger] facts[j].name)),
            camel == (exists|j: int| 0 <= j < i && is_camel_case(#[trigger] facts[j].name)),
        decreases fs@.len() - i,
    {
        let (s, c) = name_styles(&fs[i].name);
        proof {
            assert(facts[i as int] == fs@[i as int]@);
            assert(facts[i as int].name == fs@[i as int].name@);
            assert(s == is_snake_case(facts[i as int].name));
            assert(c == is_camel_case(facts[i as int].name));
        }
        if s {
            snake = true;
        }
        if c {
            camel = true;
        }
        i = i + 1;
    }
    let mut out: Vec<Hit> = Vec::new();
    if snake && camel {
        push_hit(&mut out, hit(Anchor::At(1, 1), "module mixes snake_case and camelCase function names"));
    }
    proof {
        assert(hit_views(out@) =~= naming_mix_hits(facts));
    }
    out
}

// ---------------------------------------------------------------------------
// Classes
// ---------------------------------------------------------------------------

/// The class counts a threshold applies to.
#[derive(Clone, Copy, PartialEq, Eq, Structural)]
pub enum ClassMeasure {
    Methods,
    PublicMethods,
}

/// The counted value of a class.
pub open spec fn class_measure_of(k: ClassMeasure, c: ClassFacts) -> int {
    match k {
        ClassMeasure::Methods => c.method_count,
        ClassMeasure::PublicMethods => c.public_method_count,
    }
}

/// The message for a class over its threshold.
pub open spec fn class_message(k: ClassMeasure, name: Seq<char>, v: int, max: int) -> Seq<char> {
    match k {
        ClassMeasure::Methods => "class `"@ + name + "` defines "@ + decimal(v as nat) + " methods (max "@ + decimal(
            max as nat,
        ) + ")"@,
        ClassMeasure::PublicMethods => "class `"@ + name + "` defines "@ + decimal(v as nat) + " public methods (max "@
            + decimal(max as nat) + ")"@,
    }
}

/// One finding per class whose count exceeds `max`, at the class.
pub open spec fn class_threshold_hits(k: ClassMeasure, max: int, cs: Seq<ClassFacts>) -> Seq<HitView>
    decreases cs.len(),
{
    if cs.len() == 0 {
        Seq::empty()
    } else {
        let c = cs.last();
        class_threshold_hits(k, max, cs.drop_last()) + if class_measure_of(k, c) > max {
            seq![
                hv(
                    Anchor::At(c.line as usize, c.column as usize),
                    class_message(k, c.name, class_measure_of(k, c), max),
                ),
            ]
        } else {
            Seq::empty()
        }
    }
}

/// Classes whose count exceeds `max`.
pub fn classes_over(k: ClassMeasure, max: usize, cs: &Vec<ClassView>) -> (r: Vec<Hit>)
    ensures
        hit_views(r@) == class_threshold_hits(k, max as int, class_views(cs@)),
{
    let ghost facts = class_views(cs@);
    let mut out: Vec<Hit> = Vec::new();
    let mut i: usize = 0;
    proof {
        lemma_take_ends(facts);
        assert(hit_views(out@) =~= Seq::<HitView>::empty());
    }
    while i < cs.len()
        invariant
            i <= cs@.len(),
            facts == class_views(cs@),
            hit_views(out@) == class_threshold_hits(k, max as int, facts.take(i as int)),
        decreases cs@.len() - i,
    {
        proof {
            assert(facts.take(i + 1).drop_last() =~= facts.take(i as int));
            assert(facts.take(i + 1).last() == cs@[i as int]@);
        }
        let c = &cs[i];
        let v = match k {
            ClassMeasure::Methods => c.method_count,
            ClassMeasure::PublicMethods => c.public_method_count,
        };
        if v > max {
            let mut m = concat3("class `", c.name.as_str(), "` defines ");
            push_decimal(&mut m, v);
            match k {
                ClassMeasure::Methods => push_str(&mut m, " methods (max "),
                ClassMeasure::PublicMethods => push_str(&mut m, " public methods (max "),
            }
            push_decimal(&mut m, max);
            push_str(&mut m, ")");
            proof {
                assert(m@ =~= class_message(k, c.name@, v as int, max as int));
            }
            push_hit(&mut out, Hit { anchor: Anchor::At(c.line, c.column), message: m });
        }
        proof {
            assert(hit_views(out@) =~= class_threshold_hits(k, max as int, facts.take(i + 1)));
        }
        i = i + 1;
    }
    proof {
        lemma_take_ends(facts);
    }
    out
}

/// A class name ending in `Service`, `Manager` or `Handler`.
pub open spec fn is_service_name(n: Seq<char>) -> bool {
    has_suffix(n, "Service"@) || has_suffix(n, "Manager"@) || has_suffix(n, "Handler"@)
}

/// How many classes have service-style names.
pub open spec fn service_count(cs: Seq<ClassFacts>) -> int
    decreases cs.len(),
{
    if cs.len() == 0 {
        0
    } else {
        service_count(cs.drop_last()) + if is_service_name(cs.last().name) {
            1int
        } else {
            0int
        }
    }
}

/// One finding at line 1, column 1 when two or more classes have
/// service-style names.
pub open spec fn service_explosion_hits(cs: Seq<ClassFacts>) -> Seq<HitView> {
    if service_count(cs) >= 2 {
        seq![
            hv(
                Anchor::At(1, 1),
                "module defines "@ + decimal(service_count(cs) as nat) + " service-style classes (Service/Manager/Handler)"@,
            ),
        ]
    } else {
        Seq::empty()
    }
}

/// Whether the module defines several service-style classes.
pub fn detect_service_naming_explosion(cs: &Vec<ClassView>) -> (r: Vec<Hit>)
    ensures
        hit_views(r@) == service_explosion_hits(class_views(cs@)),
{
    let ghost facts = class_views(cs@);
    let mut count: usize = 0;
    let mut i: usize = 0;
    proof {
        lemma_take_ends(facts);
    }
    while i < cs.len()
        invariant
            i <= cs@.len(),
            facts == class_views(cs@),
            count <= i,
            count == service_count(facts.take(i as int)),
        decreases cs@.len() - i,
    {
        proof {
            assert(facts.take(i + 1).drop_last() =~= facts.take(i as int));
            assert(facts.take(i + 1).last() == cs@[i as int]@);
        }
        let n = cs[i].name.as_str();
        if ends_with(n, "Service") || ends_with(n, "Manager") || ends_with(n, "Handler") {
            count = count + 1;
        }
        i = i + 1;
    }
    proof {
        lemma_take_ends(facts);
    }
    let mut out: Vec<Hit> = Vec::new();
    if count >= 2 {
        let m = with_number("module defines ", count, " service-style classes (Service/Manager/Handler)");
        push_hit(&mut out, Hit { anchor: Anchor::At(1, 1), message: m });
    }
    proof {
        assert(hit_views(out@) =~= service_explosion_hits(facts));
    }
    out
}

} // verus!
