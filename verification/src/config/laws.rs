//! Properties of configuration resolution that hold across all configurations.
use vstd::prelude::*;
use super::defaults::default_disabled;
use super::{
    apply_entry, builtin_enabled, chain_fuel, chain_walk, empty_check_config, fold_chain, lookup,
    profile_chain, profile_state, resolve, CheckConfigView, ConfigView, ProfileView, RuleView,
};

verus! {

/// The chain of the `strict` profile is the two built-in layers, whatever the
/// profile table holds.
proof fn lemma_strict_chain(cfg: ConfigView)
    requires
        cfg.profile_name == "strict"@,
    ensures
        profile_chain(cfg) == seq![None::<ProfileView>, None::<ProfileView>],
{
    reveal_strlit("strict");
    reveal_strlit("default");
    assert("strict"@ != "default"@) by {
        assert("strict"@[0] != "default"@[0]);
    }
    let f = chain_fuel(cfg);
    let seen = Seq::<Seq<char>>::empty();
    assert(!seen.contains(cfg.profile_name));
    let tail = chain_walk(cfg.profiles, "default"@, seen.push(cfg.profile_name), (f - 1) as nat);
    assert(!seen.push(cfg.profile_name).contains("default"@)) by {
        assert(seen.push(cfg.profile_name)[0] == "strict"@);
        assert("strict"@ != "default"@) by {
            assert("strict"@[0] != "default"@[0]);
        }
    }
    assert(tail == seq![None::<ProfileView>]);
    assert(profile_chain(cfg) =~= seq![None::<ProfileView>, None::<ProfileView>]);
}

/// Under the `strict` profile every check runs unless `[checks.<id>]` switches
/// it off explicitly.
pub proof fn law_strict_profile_enables_every_check(cfg: ConfigView, id: Seq<char>)
    requires
        cfg.profile_name == "strict"@,
        match lookup(cfg.checks, id) {
            Some(c) => c.enabled != Some(false),
            None => true,
        },
    ensures
        resolve(cfg, id).enabled,
{
    lemma_strict_chain(cfg);
    let chain = profile_chain(cfg);
    let st0 = (builtin_enabled(cfg.profile_name, id), empty_check_config());
    assert(chain.drop_last() =~= seq![None::<ProfileView>]);
    assert(chain.drop_last().drop_last() =~= Seq::<Option<ProfileView>>::empty());
    assert(fold_chain(chain.drop_last().drop_last(), id, st0) == st0);
    assert(fold_chain(chain.drop_last(), id, st0) == st0);
    assert(fold_chain(chain, id, st0) == st0);
}

/// Under the `default` profile a check runs exactly when it is not on the
/// built-in list of noisy checks, unless `[checks.<id>]` sets `enabled`.
pub proof fn law_default_profile_follows_builtin_list(cfg: ConfigView, id: Seq<char>)
    requires
        cfg.profile_name == "default"@,
        match lookup(cfg.checks, id) {
            Some(c) => c.enabled is None,
            None => true,
        },
    ensures
        resolve(cfg, id).enabled == !default_disabled(id),
{
    reveal_strlit("strict");
    reveal_strlit("default");
    assert("default"@ != "strict"@) by {
        assert("strict"@[0] != "default"@[0]);
    }
    let chain = profile_chain(cfg);
    assert(chain_walk(cfg.profiles, cfg.profile_name, Seq::empty(), chain_fuel(cfg)) == seq![None::<ProfileView>]);
    assert(chain =~= seq![None::<ProfileView>]);
    let st0 = (builtin_enabled(cfg.profile_name, id), empty_check_config());
    assert(chain.drop_last() =~= Seq::<Option<ProfileView>>::empty());
    assert(fold_chain(chain.drop_last(), id, st0) == st0);
    assert(fold_chain(chain, id, st0) == st0);
}

/// An explicit `enabled` in `[checks.<id>]` decides whether the check runs,
/// whatever the profile says.
pub proof fn law_explicit_enabled_wins(cfg: ConfigView, id: Seq<char>, c: CheckConfigView, b: bool)
    requires
        lookup(cfg.checks, id) == Some(c),
        c.enabled == Some(b),
    ensures
        resolve(cfg, id).enabled == b,
{
}

/// A setting written in `[checks.<id>]` overrides whatever the profiles set.
pub proof fn law_top_level_settings_win(cfg: ConfigView, id: Seq<char>, c: CheckConfigView)
    requires
        lookup(cfg.checks, id) == Some(c),
    ensures
        c.max_branches is Some ==> resolve(cfg, id).max_branches == c.max_branches,
        c.max_arguments is Some ==> resolve(cfg, id).max_arguments == c.max_arguments,
        c.max_lines is Some ==> resolve(cfg, id).max_lines == c.max_lines,
        c.max_depth is Some ==> resolve(cfg, id).max_depth == c.max_depth,
        c.max_methods is Some ==> resolve(cfg, id).max_methods == c.max_methods,
        c.severity is Some ==> resolve(cfg, id).severity == c.severity,
        c.rules.len() > 0 ==> resolve(cfg, id).rules == c.rules,
{
}

/// With no entry for the check anywhere, resolution gives the built-in
/// profile's decision and no settings.
pub proof fn law_unconfigured_check_uses_defaults(cfg: ConfigView, id: Seq<char>)
    requires
        lookup(cfg.checks, id) is None,
        forall|k: int|
            0 <= k < profile_chain(cfg).len() ==> match #[trigger] profile_chain(cfg)[k] {
                Some(def) => lookup(def.checks, id) is None,
                None => true,
            },
    ensures
        resolve(cfg, id).enabled == builtin_enabled(cfg.profile_name, id),
        resolve(cfg, id).max_branches is None,
        resolve(cfg, id).max_arguments is None,
        resolve(cfg, id).max_lines is None,
        resolve(cfg, id).max_depth is None,
        resolve(cfg, id).max_methods is None,
        resolve(cfg, id).rules.len() == 0,
        resolve(cfg, id).severity is None,
{
    let chain = profile_chain(cfg);
    let st0 = (builtin_enabled(cfg.profile_name, id), empty_check_config());
    lemma_fold_untouched(chain, id, st0);
}

/// Folding a chain none of whose layers mention the check leaves the state alone.
proof fn lemma_fold_untouched(chain: Seq<Option<ProfileView>>, id: Seq<char>, st: (bool, CheckConfigView))
    requires
        forall|k: int|
            0 <= k < chain.len() ==> match #[trigger] chain[k] {
                Some(def) => lookup(def.checks, id) is None,
                None => true,
            },
    ensures
        fold_chain(chain, id, st) == st,
    decreases chain.len(),
{
    if chain.len() > 0 {
        let prefix = chain.drop_last();
        assert forall|k: int| 0 <= k < prefix.len() implies match #[trigger] prefix[k] {
            Some(def) => lookup(def.checks, id) is None,
            None => true,
        } by {
            assert(prefix[k] == chain[k]);
        }
        lemma_fold_untouched(prefix, id, st);
        assert(chain.last() == chain[chain.len() - 1]);
    }
}

/// A profile's setting overrides the setting of the profile it extends: with
/// the active profile `child` extending `parent` (a root profile), both
/// setting `max_lines` for the check and no top-level entry, the child's
/// value wins.
pub proof fn law_child_profile_overrides_parent(
    cfg: ConfigView,
    id: Seq<char>,
    child: ProfileView,
    parent_name: Seq<char>,
    parent: ProfileView,
    child_entry: CheckConfigView,
)
    requires
        cfg.profile_name != "strict"@,
        cfg.profile_name != "default"@,
        parent_name != "strict"@,
        parent_name != "default"@,
        parent_name != cfg.profile_name,
        lookup(cfg.profiles, cfg.profile_name) == Some(child),
        child.extends == Some(parent_name),
        lookup(cfg.profiles, parent_name) == Some(parent),
        parent.extends is None,
        lookup(child.checks, id) == Some(child_entry),
        child_entry.max_lines is Some,
        lookup(cfg.checks, id) is None,
    ensures
        resolve(cfg, id).max_lines == child_entry.max_lines,
{
    let f = chain_fuel(cfg);
    let s0 = Seq::<Seq<char>>::empty();
    let s1 = s0.push(cfg.profile_name);
    assert(!s1.contains(parent_name)) by {
        assert(s1[0] == cfg.profile_name);
    }
    let tail = chain_walk(cfg.profiles, parent_name, s1, (f - 1) as nat);
    assert(tail =~= seq![Some(parent)]);
    let walk = chain_walk(cfg.profiles, cfg.profile_name, s0, f);
    assert(walk =~= seq![Some(child), Some(parent)]);
    let chain = profile_chain(cfg);
    assert(chain =~= seq![Some(parent), Some(child)]);
    let st0 = (builtin_enabled(cfg.profile_name, id), empty_check_config());
    assert(chain.drop_last() =~= seq![Some(parent)]);
    assert(chain.drop_last().drop_last() =~= Seq::<Option<ProfileView>>::empty());
    let st = profile_state(cfg, id);
    assert(st.1.max_lines == child_entry.max_lines);
    assert(resolve(cfg, id).max_lines == apply_entry(st, None).1.max_lines);
}

/// Switching the active profile from `default` to `strict` changes only
/// whether a check runs, and never switches a running check off: every
/// setting resolves the same.
pub proof fn law_strict_extends_default(cfg: ConfigView, id: Seq<char>)
    requires
        cfg.profile_name == "default"@,
    ensures
        ({
            let strict = ConfigView { profile_name: "strict"@, ..cfg };
            &&& resolve(cfg, id).enabled ==> resolve(strict, id).enabled
            &&& resolve(strict, id).max_branches == resolve(cfg, id).max_branches
            &&& resolve(strict, id).max_arguments == resolve(cfg, id).max_arguments
            &&& resolve(strict, id).max_lines == resolve(cfg, id).max_lines
            &&& resolve(strict, id).max_depth == resolve(cfg, id).max_depth
            &&& resolve(strict, id).max_methods == resolve(cfg, id).max_methods
            &&& resolve(strict, id).rules == resolve(cfg, id).rules
            &&& resolve(strict, id).severity == resolve(cfg, id).severity
        }),
{
    let strict = ConfigView { profile_name: "strict"@, ..cfg };
    reveal_strlit("strict");
    reveal_strlit("default");
    assert("default"@ != "strict"@) by {
        assert("strict"@[0] != "default"@[0]);
    }
    lemma_strict_chain(strict);
    let sc = profile_chain(strict);
    let st_s = (builtin_enabled(strict.profile_name, id), empty_check_config());
    assert(sc.drop_last() =~= seq![None::<ProfileView>]);
    assert(sc.drop_last().drop_last() =~= Seq::<Option<ProfileView>>::empty());
    assert(fold_chain(sc.drop_last().drop_last(), id, st_s) == st_s);
    assert(fold_chain(sc.drop_last(), id, st_s) == st_s);
    assert(fold_chain(sc, id, st_s) == st_s);
    let dc = profile_chain(cfg);
    assert(chain_walk(cfg.profiles, cfg.profile_name, Seq::empty(), chain_fuel(cfg)) == seq![None::<ProfileView>]);
    assert(dc =~= seq![None::<ProfileView>]);
    let st_d = (builtin_enabled(cfg.profile_name, id), empty_check_config());
    assert(dc.drop_last() =~= Seq::<Option<ProfileView>>::empty());
    assert(fold_chain(dc.drop_last(), id, st_d) == st_d);
    assert(fold_chain(dc, id, st_d) == st_d);
    assert(strict.checks == cfg.checks);
}

/// Giving `[checks.<key>]` again replaces the earlier entry for that key, as a
/// later key of a table does, and leaves every other check as it was.
pub proof fn law_repeated_check_entry_replaces(cfg: ConfigView, key: Seq<char>, c: CheckConfigView, id: Seq<char>)
    ensures
        ({
            let again = ConfigView { checks: cfg.checks.push((key, c)), ..cfg };
            &&& lookup(again.checks, key) == Some(c)
            &&& resolve(again, key) == resolve(ConfigView { checks: seq![(key, c)], ..cfg }, key)
            &&& id != key ==> resolve(again, id) == resolve(cfg, id)
        }),
{
    let again = ConfigView { checks: cfg.checks.push((key, c)), ..cfg };
    let single = ConfigView { checks: seq![(key, c)], ..cfg };
    assert(again.checks.drop_last() =~= cfg.checks);
    assert(profile_chain(again) == profile_chain(cfg));
    assert(profile_chain(single) == profile_chain(cfg));
    assert(lookup(single.checks, key) == Some(c));
}

/// The entries for check `id` that resolution layers, least specific first:
/// one per profile of the active chain (none for a built-in profile or a
/// profile without an entry), then the top-level `[checks.<id>]` entry.
pub open spec fn check_layers(cfg: ConfigView, id: Seq<char>) -> Seq<Option<CheckConfigView>> {
    chain_layers(profile_chain(cfg), id).push(lookup(cfg.checks, id))
}

/// The entries for `id` in the profiles of a chain, in chain order.
pub open spec fn chain_layers(chain: Seq<Option<ProfileView>>, id: Seq<char>) -> Seq<Option<CheckConfigView>> {
    chain.map_values(
        |p: Option<ProfileView>|
            match p {
                Some(def) => lookup(def.checks, id),
                None => None,
            },
    )
}

/// The setting `f` of the last layer that gives it, if any layer does.
pub open spec fn last_given<T>(layers: Seq<Option<CheckConfigView>>, f: spec_fn(CheckConfigView) -> Option<T>) -> Option<T>
    decreases layers.len(),
{
    if layers.len() == 0 {
        None
    } else {
        match layers.last() {
            Some(c) => if f(c) is Some {
                f(c)
            } else {
                last_given(layers.drop_last(), f)
            },
            None => last_given(layers.drop_last(), f),
        }
    }
}

/// The rules of the last layer with a non-empty rule list, else none.
pub open spec fn last_rules(layers: Seq<Option<CheckConfigView>>) -> Seq<RuleView>
    decreases layers.len(),
{
    if layers.len() == 0 {
        Seq::empty()
    } else {
        match layers.last() {
            Some(c) => if c.rules.len() > 0 {
                c.rules
            } else {
                last_rules(layers.drop_last())
            },
            None => last_rules(layers.drop_last()),
        }
    }
}

proof fn lemma_fold_is_layering(chain: Seq<Option<ProfileView>>, id: Seq<char>, b: bool)
    ensures
        ({
            let st = fold_chain(chain, id, (b, empty_check_config()));
            let ls = chain_layers(chain, id);
            &&& st.0 == match last_given(ls, |c: CheckConfigView| c.enabled) {
                Some(e) => e,
                None => b,
            }
            &&& st.1.max_branches == last_given(ls, |c: CheckConfigView| c.max_branches)
            &&& st.1.max_arguments == last_given(ls, |c: CheckConfigView| c.max_arguments)
            &&& st.1.max_lines == last_given(ls, |c: CheckConfigView| c.max_lines)
            &&& st.1.max_depth == last_given(ls, |c: CheckConfigView| c.max_depth)
            &&& st.1.max_methods == last_given(ls, |c: CheckConfigView| c.max_methods)
            &&& st.1.severity == last_given(ls, |c: CheckConfigView| c.severity)
            &&& st.1.rules == last_rules(ls)
        }),
    decreases chain.len(),
{
    if chain.len() > 0 {
        lemma_fold_is_layering(chain.drop_last(), id, b);
        assert(chain_layers(chain, id).drop_last() =~= chain_layers(chain.drop_last(), id));
    }
}

/// Resolution layers the entries for a check: each setting is the one given by
/// the last layer that gives it (the top-level entry over the active profile,
/// a profile over the one it extends), a non-empty rule list replaces the
/// rules, and whether the check runs is the last `enabled` given, else the
/// built-in profile's decision.
pub proof fn law_settings_come_from_the_last_layer(cfg: ConfigView, id: Seq<char>)
    ensures
        ({
            let ls = check_layers(cfg, id);
            let r = resolve(cfg, id);
            &&& r.enabled == match last_given(ls, |c: CheckConfigView| c.enabled) {
                Some(e) => e,
                None => builtin_enabled(cfg.profile_name, id),
            }
            &&& r.max_branches == last_given(ls, |c: CheckConfigView| c.max_branches)
            &&& r.max_arguments == last_given(ls, |c: CheckConfigView| c.max_arguments)
            &&& r.max_lines == last_given(ls, |c: CheckConfigView| c.max_lines)
            &&& r.max_depth == last_given(ls, |c: CheckConfigView| c.max_depth)
            &&& r.max_methods == last_given(ls, |c: CheckConfigView| c.max_methods)
            &&& r.severity == last_given(ls, |c: CheckConfigView| c.severity)
            &&& r.rules == last_rules(ls)
        }),
{
    let chain = profile_chain(cfg);
    lemma_fold_is_layering(chain, id, builtin_enabled(cfg.profile_name, id));
    assert(check_layers(cfg, id).drop_last() =~= chain_layers(chain, id));
}

} // verus!
