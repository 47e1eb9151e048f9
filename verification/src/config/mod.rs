//! `zerum.toml` configuration: profiles, per-check overrides and their resolution.
pub mod defaults;
pub mod discover;
pub mod laws;
pub mod validate;

use vstd::prelude::*;
use crate::base::severity::Severity;
use crate::text::{push_str, str_eq, string_of};
use defaults::{default_disabled, is_disabled_in_default_profile};

verus! {

/// A layering rule for ZR207: files under the `from` layer must not import `forbidden`.
pub struct ForbiddenImportRule {
    pub from: String,
    pub forbidden: String,
}

/// Mathematical model of a [`ForbiddenImportRule`].
pub ghost struct RuleView {
    pub from: Seq<char>,
    pub forbidden: Seq<char>,
}

impl View for ForbiddenImportRule {
    type V = RuleView;

    open spec fn view(&self) -> RuleView {
        RuleView { from: self.from@, forbidden: self.forbidden@ }
    }
}

/// The models of a sequence of rules.
pub open spec fn rules_view(rules: Seq<ForbiddenImportRule>) -> Seq<RuleView> {
    rules.map_values(|r: ForbiddenImportRule| r@)
}

impl ForbiddenImportRule {
    /// A copy of the rule.
    pub fn duplicate(&self) -> (r: ForbiddenImportRule)
        ensures
            r@ == self@,
    {
        ForbiddenImportRule { from: self.from.clone(), forbidden: self.forbidden.clone() }
    }
}

/// A copy of a list of rules, element by element.
pub fn copy_rules(rules: &Vec<ForbiddenImportRule>) -> (r: Vec<ForbiddenImportRule>)
    ensures
        rules_view(r@) == rules_view(rules@),
{
    let mut out: Vec<ForbiddenImportRule> = Vec::new();
    let mut i: usize = 0;
    while i < rules.len()
        invariant
            i <= rules.len(),
            rules_view(out@) == rules_view(rules@.subrange(0, i as int)),
        decreases rules.len() - i,
    {
        let r = rules[i].duplicate();
        let ghost before = out@;
        out.push(r);
        proof {
            assert(rules@.subrange(0, i + 1) == rules@.subrange(0, i as int).push(rules@[i as int]));
            assert(rules_view(out@) =~= rules_view(before).push(r@));
            assert(rules_view(rules@.subrange(0, i + 1)) =~= rules_view(rules@.subrange(0, i as int)).push(rules@[i as int]@));
        }
        i = i + 1;
    }
    proof {
        assert(rules@.subrange(0, rules@.len() as int) == rules@);
    }
    out
}

/// Per-check settings as written in `zerum.toml` (every field optional).
pub struct CheckConfig {
    pub enabled: Option<bool>,
    pub max_branches: Option<usize>,
    pub max_arguments: Option<usize>,
    pub max_lines: Option<usize>,
    pub max_depth: Option<usize>,
    pub max_methods: Option<usize>,
    pub rules: Vec<ForbiddenImportRule>,
    pub severity: Option<Severity>,
}

/// Mathematical model of a [`CheckConfig`].
pub ghost struct CheckConfigView {
    pub enabled: Option<bool>,
    pub max_branches: Option<usize>,
    pub max_arguments: Option<usize>,
    pub max_lines: Option<usize>,
    pub max_depth: Option<usize>,
    pub max_methods: Option<usize>,
    pub rules: Seq<RuleView>,
    pub severity: Option<Severity>,
}

impl View for CheckConfig {
    type V = CheckConfigView;

    open spec fn view(&self) -> CheckConfigView {
        CheckConfigView {
            enabled: self.enabled,
            max_branches: self.max_branches,
            max_arguments: self.max_arguments,
            max_lines: self.max_lines,
            max_depth: self.max_depth,
            max_methods: self.max_methods,
            rules: rules_view(self.rules@),
            severity: self.severity,
        }
    }
}

/// The model of a check configuration that sets nothing.
pub open spec fn empty_check_config() -> CheckConfigView {
    CheckConfigView {
        enabled: None,
        max_branches: None,
        max_arguments: None,
        max_lines: None,
        max_depth: None,
        max_methods: None,
        rules: Seq::empty(),
        severity: None,
    }
}

impl Default for CheckConfig {
    fn default() -> (r: CheckConfig)
        ensures
            r@ == empty_check_config(),
    {
        let r = CheckConfig {
            enabled: None,
            max_branches: None,
            max_arguments: None,
            max_lines: None,
            max_depth: None,
            max_methods: None,
            rules: Vec::new(),
            severity: None,
        };
        proof {
            assert(rules_view(r.rules@) =~= Seq::<RuleView>::empty());
        }
        r
    }
}

/// A named profile in `[profiles.<name>]`, optionally extending another one.
pub struct ProfileDefinition {
    pub extends: Option<String>,
    pub checks: Vec<(String, CheckConfig)>,
}

/// Mathematical model of a [`ProfileDefinition`].
pub ghost struct ProfileView {
    pub extends: Option<Seq<char>>,
    pub checks: Seq<(Seq<char>, CheckConfigView)>,
}

/// The model of a list of per-check entries, keyed by check id.
pub open spec fn entries_view(v: Seq<(String, CheckConfig)>) -> Seq<(Seq<char>, CheckConfigView)> {
    v.map_values(|e: (String, CheckConfig)| (e.0@, e.1@))
}

/// The model of an optional string.
pub open spec fn opt_string_view(o: Option<String>) -> Option<Seq<char>> {
    match o {
        Some(s) => Some(s@),
        None => None,
    }
}

impl View for ProfileDefinition {
    type V = ProfileView;

    open spec fn view(&self) -> ProfileView {
        ProfileView { extends: opt_string_view(self.extends), checks: entries_view(self.checks@) }
    }
}

/// The `[profile]` table: which profile is active.
pub struct ActiveProfile {
    pub name: String,
}

impl Default for ActiveProfile {
    fn default() -> (r: ActiveProfile)
        ensures
            r.name@ == "default"@,
    {
        ActiveProfile { name: default_profile_name() }
    }
}

/// The name of the profile used when none is configured: `default`.
pub fn default_profile_name() -> (r: String)
    ensures
        r@ == "default"@,
{
    string_of("default")
}

/// The whole `zerum.toml` document.
pub struct Config {
    pub profile: ActiveProfile,
    pub profiles: Vec<(String, ProfileDefinition)>,
    pub checks: Vec<(String, CheckConfig)>,
    /// External checker ids to run (e.g. `ruff`).
    pub external_checkers: Vec<String>,
}

/// Mathematical model of a [`Config`].
pub ghost struct ConfigView {
    pub profile_name: Seq<char>,
    pub profiles: Seq<(Seq<char>, ProfileView)>,
    pub checks: Seq<(Seq<char>, CheckConfigView)>,
    pub external_checkers: Seq<Seq<char>>,
}

/// The model of the profile table.
pub open spec fn profiles_view(v: Seq<(String, ProfileDefinition)>) -> Seq<(Seq<char>, ProfileView)> {
    v.map_values(|e: (String, ProfileDefinition)| (e.0@, e.1@))
}

/// The models of a list of strings.
pub open spec fn strings_view(v: Seq<String>) -> Seq<Seq<char>> {
    v.map_values(|s: String| s@)
}

impl View for Config {
    type V = ConfigView;

    open spec fn view(&self) -> ConfigView {
        ConfigView {
            profile_name: self.profile.name@,
            profiles: profiles_view(self.profiles@),
            checks: entries_view(self.checks@),
            external_checkers: strings_view(self.external_checkers@),
        }
    }
}

impl Default for Config {
    fn default() -> (r: Config)
        ensures
            r@.profile_name == "default"@,
            r@.profiles.len() == 0,
            r@.checks.len() == 0,
            r@.external_checkers.len() == 0,
    {
        Config {
            profile: ActiveProfile::default(),
            profiles: Vec::new(),
            checks: Vec::new(),
            external_checkers: Vec::new(),
        }
    }
}

/// Per-check settings after profile inheritance, `zerum.toml` overrides and the
/// built-in profile defaults have been applied.
pub struct ResolvedCheckConfig {
    pub enabled: bool,
    pub max_branches: Option<usize>,
    pub max_arguments: Option<usize>,
    pub max_lines: Option<usize>,
    pub max_depth: Option<usize>,
    pub max_methods: Option<usize>,
    pub rules: Vec<ForbiddenImportRule>,
    pub severity: Option<Severity>,
}

/// Mathematical model of a [`ResolvedCheckConfig`].
pub ghost struct ResolvedView {
    pub enabled: bool,
    pub max_branches: Option<usize>,
    pub max_arguments: Option<usize>,
    pub max_lines: Option<usize>,
    pub max_depth: Option<usize>,
    pub max_methods: Option<usize>,
    pub rules: Seq<RuleView>,
    pub severity: Option<Severity>,
}

impl View for ResolvedCheckConfig {
    type V = ResolvedView;

    open spec fn view(&self) -> ResolvedView {
        ResolvedView {
            enabled: self.enabled,
            max_branches: self.max_branches,
            max_arguments: self.max_arguments,
            max_lines: self.max_lines,
            max_depth: self.max_depth,
            max_methods: self.max_methods,
            rules: rules_view(self.rules@),
            severity: self.severity,
        }
    }
}

// ---------------------------------------------------------------------------
// Lookup in keyed lists
// ---------------------------------------------------------------------------

/// The value of the last entry whose key is `key`, if any: a key given
/// again replaces what it was given before.
pub open spec fn lookup<V>(entries: Seq<(Seq<char>, V)>, key: Seq<char>) -> Option<V>
    decreases entries.len(),
{
    if entries.len() == 0 {
        None
    } else if entries.last().0 == key {
        Some(entries.last().1)
    } else {
        lookup(entries.drop_last(), key)
    }
}

/// Past the last entry with the key, `lookup` finds that entry; with no entry
/// having the key, it finds nothing.
pub proof fn lemma_lookup_index<V>(entries: Seq<(Seq<char>, V)>, key: Seq<char>, i: int)
    requires
        0 <= i <= entries.len(),
        forall|j: int| i <= j < entries.len() ==> entries[j].0 != key,
    ensures
        0 < i && entries[i - 1].0 == key ==> lookup(entries, key) == Some(entries[i - 1].1),
        i == 0 ==> lookup(entries, key) is None,
    decreases entries.len() - i,
{
    if i < entries.len() {
        let rest = entries.drop_last();
        assert forall|j: int| i <= j < rest.len() implies rest[j].0 != key by {
            assert(rest[j] == entries[j]);
        }
        lemma_lookup_index(rest, key, i);
        if 0 < i {
            assert(rest[i - 1] == entries[i - 1]);
        }
    }
}

/// Index of the last entry whose key is `key`.
fn find_entry<V: View>(entries: &Vec<(String, V)>, key: &str) -> (r: Option<usize>)
    ensures
        ({
            let model = entries@.map_values(|e: (String, V)| (e.0@, e.1));
            match r {
                Some(i) => i < entries@.len() && lookup(model, key@) == Some(entries@[i as int].1)
                    && entries@[i as int].0@ == key@,
                None => lookup(model, key@) is None,
            }
        }),
{
    let ghost model = entries@.map_values(|e: (String, V)| (e.0@, e.1));
    let mut i: usize = entries.len();
    while i > 0
        invariant
            i <= entries.len(),
            model == entries@.map_values(|e: (String, V)| (e.0@, e.1)),
            forall|j: int| i <= j < entries.len() ==> model[j].0 != key@,
        decreases i,
    {
        if str_eq(entries[i - 1].0.as_str(), key) {
            proof {
                lemma_lookup_index(model, key@, i as int);
            }
            return Some(i - 1);
        }
        i = i - 1;
    }
    proof {
        lemma_lookup_index(model, key@, 0);
    }
    None
}

/// `find_entry` on the models of the entries: relates the index to `lookup` over views.
proof fn lemma_lookup_map<V: View>(entries: Seq<(String, V)>, key: Seq<char>)
    ensures
        lookup(entries.map_values(|e: (String, V)| (e.0@, e.1@)), key) == match lookup(
            entries.map_values(|e: (String, V)| (e.0@, e.1)),
            key,
        ) {
            Some(v) => Some(v@),
            None => None,
        },
    decreases entries.len(),
{
    let a = entries.map_values(|e: (String, V)| (e.0@, e.1@));
    let b = entries.map_values(|e: (String, V)| (e.0@, e.1));
    if entries.len() > 0 {
        assert(a.drop_last() == entries.drop_last().map_values(|e: (String, V)| (e.0@, e.1@)));
        assert(b.drop_last() == entries.drop_last().map_values(|e: (String, V)| (e.0@, e.1)));
        lemma_lookup_map(entries.drop_last(), key);
    }
}

// ---------------------------------------------------------------------------
// Profile chain
// ---------------------------------------------------------------------------

/// The profile chain walked from `name`, most specific first: built-in profiles
/// (`strict`, which continues to `default`, and `default`) contribute `None`,
/// a custom profile found in the table contributes its definition and continues
/// to the profile it extends; the walk stops at an unknown name, at a name
/// already seen, or when the step budget `fuel` is spent.
pub open spec fn chain_walk(
    profiles: Seq<(Seq<char>, ProfileView)>,
    name: Seq<char>,
    seen: Seq<Seq<char>>,
    fuel: nat,
) -> Seq<Option<ProfileView>>
    decreases fuel,
{
    if fuel == 0 || seen.contains(name) {
        Seq::empty()
    } else if name == "strict"@ {
        seq![None].add(chain_walk(profiles, "default"@, seen.push(name), (fuel - 1) as nat))
    } else if name == "default"@ {
        seq![None]
    } else {
        match lookup(profiles, name) {
            Some(def) => seq![Some(def)].add(
                match def.extends {
                    Some(parent) => chain_walk(profiles, parent, seen.push(name), (fuel - 1) as nat),
                    None => Seq::empty(),
                },
            ),
            None => Seq::empty(),
        }
    }
}

/// The walk budget: every step visits a new name, and at most every table entry
/// plus `strict`, `default` and one unknown name can be visited.
pub open spec fn chain_fuel(cfg: ConfigView) -> nat {
    (cfg.profiles.len() + 3) as nat
}

/// The active profile's chain, least specific (root) first.
pub open spec fn profile_chain(cfg: ConfigView) -> Seq<Option<ProfileView>> {
    chain_walk(cfg.profiles, cfg.profile_name, Seq::empty(), chain_fuel(cfg)).reverse()
}

/// Whether a check runs under a profile before any explicit `enabled` setting:
/// `strict` runs everything, every other profile starts from the built-in
/// `default` profile.
pub open spec fn builtin_enabled(profile_name: Seq<char>, id: Seq<char>) -> bool {
    profile_name == "strict"@ || !default_disabled(id)
}

/// `merge_check_config`: each setting present in `source` replaces the one in
/// `target`; a non-empty rule list replaces the rules; `enabled` is untouched.
pub open spec fn merge_view(target: CheckConfigView, source: CheckConfigView) -> CheckConfigView {
    CheckConfigView {
        enabled: target.enabled,
        max_branches: if source.max_branches is Some { source.max_branches } else { target.max_branches },
        max_arguments: if source.max_arguments is Some { source.max_arguments } else { target.max_arguments },
        max_lines: if source.max_lines is Some { source.max_lines } else { target.max_lines },
        max_depth: if source.max_depth is Some { source.max_depth } else { target.max_depth },
        max_methods: if source.max_methods is Some { source.max_methods } else { target.max_methods },
        rules: if source.rules.len() > 0 { source.rules } else { target.rules },
        severity: if source.severity is Some { source.severity } else { target.severity },
    }
}

/// One layer of resolution: an entry for the check (if any) merges its
/// settings and, when it sets `enabled`, decides whether the check runs.
pub open spec fn apply_entry(st: (bool, CheckConfigView), entry: Option<CheckConfigView>) -> (bool, CheckConfigView) {
    match entry {
        None => st,
        Some(c) => (
            match c.enabled {
                Some(b) => b,
                None => st.0,
            },
            merge_view(st.1, c),
        ),
    }
}

/// Applies the layers of a profile chain in order (root first).
pub open spec fn fold_chain(chain: Seq<Option<ProfileView>>, id: Seq<char>, st: (bool, CheckConfigView)) -> (bool, CheckConfigView)
    decreases chain.len(),
{
    if chain.len() == 0 {
        st
    } else {
        let prev = fold_chain(chain.drop_last(), id, st);
        match chain.last() {
            Some(def) => apply_entry(prev, lookup(def.checks, id)),
            None => prev,
        }
    }
}

/// The state after the built-in profile and the profile chain.
pub open spec fn profile_state(cfg: ConfigView, id: Seq<char>) -> (bool, CheckConfigView) {
    fold_chain(
        profile_chain(cfg),
        id,
        (builtin_enabled(cfg.profile_name, id), empty_check_config()),
    )
}

/// Full resolution of a check's settings: built-in profile default, then the
/// profile chain root first, then the top-level `[checks.<id>]` entry.
pub open spec fn resolve(cfg: ConfigView, id: Seq<char>) -> ResolvedView {
    let st = apply_entry(profile_state(cfg, id), lookup(cfg.checks, id));
    ResolvedView {
        enabled: st.0,
        max_branches: st.1.max_branches,
        max_arguments: st.1.max_arguments,
        max_lines: st.1.max_lines,
        max_depth: st.1.max_depth,
        max_methods: st.1.max_methods,
        rules: st.1.rules,
        severity: st.1.severity,
    }
}

/// An optional index that, when present, is below `n`.
pub open spec fn index_below(o: Option<usize>, n: int) -> bool {
    match o {
        Some(i) => i < n,
        None => true,
    }
}

/// The character sequences of a list of names.
pub open spec fn names_view(names: Seq<&str>) -> Seq<Seq<char>> {
    names.map_values(|s: &str| s@)
}

/// Whether `name` occurs in a list of names.
fn names_contain(names: &Vec<&str>, name: &str) -> (r: bool)
    ensures
        r == names_view(names@).contains(name@),
{
    let ghost model = names_view(names@);
    let mut i: usize = 0;
    while i < names.len()
        invariant
            i <= names.len(),
            model == names_view(names@),
            forall|j: int| 0 <= j < i ==> model[j] != name@,
        decreases names.len() - i,
    {
        if str_eq(names[i], name) {
            proof {
                assert(model[i as int] == name@);
            }
            return true;
        }
        i = i + 1;
    }
    proof {
        if model.contains(name@) {
            let k = choose|k: int| 0 <= k < model.len() && model[k] == name@;
            assert(model[k] != name@);
        }
    }
    false
}

/// Merges `source` into `target`: every setting that `source` has replaces
/// the one in `target`, and a non-empty rule list replaces the rules.
pub fn merge_check_config(target: &mut CheckConfig, source: &CheckConfig)
    ensures
        final(target)@ == merge_view(old(target)@, source@),
{
    if source.max_branches.is_some() {
        target.max_branches = source.max_branches;
    }
    if source.max_arguments.is_some() {
        target.max_arguments = source.max_arguments;
    }
    if source.max_lines.is_some() {
        target.max_lines = source.max_lines;
    }
    if source.max_depth.is_some() {
        target.max_depth = source.max_depth;
    }
    if source.max_methods.is_some() {
        target.max_methods = source.max_methods;
    }
    if source.severity.is_some() {
        target.severity = source.severity;
    }
    if source.rules.len() > 0 {
        target.rules = copy_rules(&source.rules);
    }
}

impl Config {
    /// The active profile's chain as indices into `profiles` (`None` for a
    /// built-in profile), root first.
    fn profile_chain_defs(&self) -> (r: Vec<Option<usize>>)
        ensures
            forall|k: int| 0 <= k < r@.len() ==> index_below(#[trigger] r@[k], self.profiles@.len() as int),
            r@.map_values(|o: Option<usize>| match o {
                Some(i) => Some(self@.profiles[i as int].1),
                None => None,
            }) == profile_chain(self@),
    {
        let ghost profiles = self@.profiles;
        let ghost total = chain_fuel(self@);
        let ghost idx_view = |o: Option<usize>| match o {
            Some(i) => Some(profiles[i as int].1),
            None => None::<ProfileView>,
        };
        let mut chain: Vec<Option<usize>> = Vec::new();
        let mut seen: Vec<&str> = Vec::new();
        let mut current: Option<&str> = Some(self.profile.name.as_str());
        let mut fuel: u128 = self.profiles.len() as u128 + 3;
        proof {
            assert(chain@.map_values(idx_view) =~= Seq::<Option<ProfileView>>::empty());
            assert(names_view(seen@) =~= Seq::<Seq<char>>::empty());
        }
        loop
            invariant_except_break
                profiles == self@.profiles,
                idx_view == (|o: Option<usize>| match o {
                    Some(i) => Some(profiles[i as int].1),
                    None => None::<ProfileView>,
                }),
                forall|k: int| 0 <= k < chain@.len() ==> index_below(#[trigger] chain@[k], self.profiles@.len() as int),
                current matches Some(n) ==> chain@.map_values(idx_view) + chain_walk(
                    profiles,
                    n@,
                    names_view(seen@),
                    fuel as nat,
                ) == chain_walk(profiles, self@.profile_name, Seq::empty(), total),
                current is None ==> chain@.map_values(idx_view) == chain_walk(profiles, self@.profile_name, Seq::empty(), total),
            ensures
                profiles == self@.profiles,
                idx_view == (|o: Option<usize>| match o {
                    Some(i) => Some(profiles[i as int].1),
                    None => None::<ProfileView>,
                }),
                forall|k: int| 0 <= k < chain@.len() ==> index_below(#[trigger] chain@[k], self.profiles@.len() as int),
                chain@.map_values(idx_view) == chain_walk(profiles, self@.profile_name, Seq::empty(), total),
            decreases fuel,
        {
            let name = match current {
                None => break,
                Some(n) => n,
            };
            let ghost seen_view = names_view(seen@);
            let ghost before = chain@;
            if fuel == 0 || names_contain(&seen, name) {
                proof {
                    assert(chain_walk(profiles, name@, seen_view, fuel as nat) == Seq::<Option<ProfileView>>::empty());
                    assert(chain@.map_values(idx_view) + Seq::<Option<ProfileView>>::empty() == chain@.map_values(idx_view));
                }
                break;
            }
            seen.push(name);
            proof {
                assert(names_view(seen@) =~= seen_view.push(name@));
                reveal_strlit("strict");
                reveal_strlit("default");
            }
            if str_eq(name, "strict") {
                chain.push(None);
                current = Some("default");
                proof {
                    assert(chain@.map_values(idx_view) =~= before.map_values(idx_view).push(None));
                }
            } else if str_eq(name, "default") {
                chain.push(None);
                proof {
                    assert(chain@.map_values(idx_view) =~= before.map_values(idx_view).push(None));
                    assert(chain_walk(profiles, name@, seen_view, fuel as nat) == seq![None::<ProfileView>]);
                }
                break;
            } else {
                match find_entry(&self.profiles, name) {
                    Some(i) => {
                        chain.push(Some(i));
                        proof {
                            lemma_lookup_map(self.profiles@, name@);
                            assert(chain@.map_values(idx_view) =~= before.map_values(idx_view).push(Some(profiles[i as int].1)));
                        }
                        match &self.profiles[i].1.extends {
                            Some(p) => {
                                current = Some(p.as_str());
                            },
                            None => {
                                proof {
                                    assert(chain@.map_values(idx_view) + Seq::<Option<ProfileView>>::empty() == chain@.map_values(idx_view));
                                }
                                break;
                            },
                        }
                    },
                    None => {
                        proof {
                            lemma_lookup_map(self.profiles@, name@);
                            assert(chain@.map_values(idx_view) + Seq::<Option<ProfileView>>::empty() == chain@.map_values(idx_view));
                        }
                        break;
                    },
                }
            }
            fuel = fuel - 1;
        }
        // Reverse so that the root profile comes first.
        let mut out: Vec<Option<usize>> = Vec::new();
        let mut k: usize = chain.len();
        while k > 0
            invariant
                k <= chain@.len(),
                forall|j: int| 0 <= j < chain@.len() ==> index_below(#[trigger] chain@[j], self.profiles@.len() as int),
                forall|j: int| 0 <= j < out@.len() ==> index_below(#[trigger] out@[j], self.profiles@.len() as int),
                out@ == chain@.subrange(k as int, chain@.len() as int).reverse(),
            decreases k,
        {
            k = k - 1;
            out.push(chain[k]);
            proof {
                assert(chain@.subrange(k as int, chain@.len() as int).reverse() =~= chain@.subrange(
                    k + 1,
                    chain@.len() as int,
                ).reverse().push(chain@[k as int]));
            }
        }
        proof {
            assert(chain@.subrange(0, chain@.len() as int) == chain@);
            assert(out@.map_values(idx_view) =~= chain@.map_values(idx_view).reverse());
        }
        out
    }

    /// Whether the built-in profile runs check `id` before explicit settings.
    fn builtin_enabled_for_profile(&self, id: &str) -> (r: bool)
        ensures
            r == builtin_enabled(self@.profile_name, id@),
    {
        if str_eq(self.profile.name.as_str(), "strict") {
            proof {
                reveal_strlit("strict");
            }
            true
        } else {
            !is_disabled_in_default_profile(id)
        }
    }

    /// Resolves the settings of check `id`: built-in profile default, profile
    /// chain root first, then the top-level `[checks.<id>]` entry.
    pub fn resolved_check_config(&self, id: &str) -> (r: ResolvedCheckConfig)
        ensures
            r@ == resolve(self@, id@),
    {
        let ghost cfg = self@;
        let mut enabled = self.builtin_enabled_for_profile(id);
        let mut merged = CheckConfig::default();
        let chain = self.profile_chain_defs();
        let ghost full = profile_chain(cfg);
        let ghost st0 = (builtin_enabled(cfg.profile_name, id@), empty_check_config());
        let ghost idx_view = |o: Option<usize>| match o {
            Some(i) => Some(cfg.profiles[i as int].1),
            None => None::<ProfileView>,
        };
        let mut k: usize = 0;
        proof {
            assert(full.take(0) =~= Seq::<Option<ProfileView>>::empty());
        }
        while k < chain.len()
            invariant
                k <= chain@.len(),
                cfg == self@,
                full == profile_chain(cfg),
                idx_view == (|o: Option<usize>| match o {
                    Some(i) => Some(cfg.profiles[i as int].1),
                    None => None::<ProfileView>,
                }),
                chain@.map_values(idx_view) == full,
                forall|j: int| 0 <= j < chain@.len() ==> index_below(#[trigger] chain@[j], self.profiles@.len() as int),
                (enabled, merged@) == fold_chain(full.take(k as int), id@, st0),
            decreases chain.len() - k,
        {
            proof {
                assert(full.take(k + 1).drop_last() =~= full.take(k as int));
                assert(full[k as int] == idx_view(chain@[k as int]));
            }
            match chain[k] {
                Some(i) => {
                    match find_entry(&self.profiles[i].1.checks, id) {
                        Some(j) => {
                            proof {
                                lemma_lookup_map(self.profiles@[i as int].1.checks@, id@);
                            }
                            let c = &self.profiles[i].1.checks[j].1;
                            merge_check_config(&mut merged, c);
                            match c.enabled {
                                Some(e) => {
                                    enabled = e;
                                },
                                None => {},
                            }
                        },
                        None => {
                            proof {
                                lemma_lookup_map(self.profiles@[i as int].1.checks@, id@);
                            }
                        },
                    }
                },
                None => {},
            }
            k = k + 1;
        }
        proof {
            assert(full.take(chain@.len() as int) == full);
        }
        match find_entry(&self.checks, id) {
            Some(j) => {
                proof {
                    lemma_lookup_map(self.checks@, id@);
                }
                let c = &self.checks[j].1;
                merge_check_config(&mut merged, c);
                match c.enabled {
                    Some(e) => {
                        enabled = e;
                    },
                    None => {},
                }
            },
            None => {
                proof {
                    lemma_lookup_map(self.checks@, id@);
                }
            },
        }
        ResolvedCheckConfig {
            enabled,
            max_branches: merged.max_branches,
            max_arguments: merged.max_arguments,
            max_lines: merged.max_lines,
            max_depth: merged.max_depth,
            max_methods: merged.max_methods,
            rules: merged.rules,
            severity: merged.severity,
        }
    }

    /// Whether check `id` runs under this configuration.
    pub fn is_check_enabled(&self, id: &str) -> (r: bool)
        ensures
            r == resolve(self@, id@).enabled,
    {
        self.resolved_check_config(id).enabled
    }

    /// The resolved settings of check `id`.
    pub fn check_config(&self, id: &str) -> (r: ResolvedCheckConfig)
        ensures
            r@ == resolve(self@, id@),
    {
        self.resolved_check_config(id)
    }
}

} // verus!
