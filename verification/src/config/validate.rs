//! Validation of a loaded `zerum.toml`.
use vstd::prelude::*;
use super::{
    entries_view, find_entry, lemma_lookup_map, lookup, names_contain, names_view, CheckConfig, CheckConfigView, Config,
    ConfigView, ProfileView,
};
use crate::base::severity::{severity_name, Severity};
use crate::text::{push_str, str_eq, string_of};

verus! {

/// Why a configuration is rejected.
pub enum ConfigError {
    /// A `[checks.<id>]` key that is not a catalog id such as `ZR001`.
    UnknownCheckKey { id: String },
    /// A check severity outside `low`, `medium`, `high`, `critical`.
    InvalidSeverity { id: String, severity: Severity },
    /// The same, inside a profile.
    InvalidProfileSeverity { profile: String, id: String, severity: Severity },
    /// A profile that names itself in `extends`.
    SelfExtends { profile: String },
    /// A profile that extends a profile that is neither defined nor built in.
    UnknownParent { profile: String, parent: String },
    /// The active profile's `extends` chain comes back to a profile.
    Cycle { profile: String },
}

/// Mathematical model of a [`ConfigError`].
pub ghost enum ConfigErrorView {
    UnknownCheckKey { id: Seq<char> },
    InvalidSeverity { id: Seq<char>, severity: Severity },
    InvalidProfileSeverity { profile: Seq<char>, id: Seq<char>, severity: Severity },
    SelfExtends { profile: Seq<char> },
    UnknownParent { profile: Seq<char>, parent: Seq<char> },
    Cycle { profile: Seq<char> },
}

impl View for ConfigError {
    type V = ConfigErrorView;

    open spec fn view(&self) -> ConfigErrorView {
        match self {
            ConfigError::UnknownCheckKey { id } => ConfigErrorView::UnknownCheckKey { id: id@ },
            ConfigError::InvalidSeverity { id, severity } => ConfigErrorView::InvalidSeverity { id: id@, severity: *severity },
            ConfigError::InvalidProfileSeverity { profile, id, severity } => ConfigErrorView::InvalidProfileSeverity {
                profile: profile@,
                id: id@,
                severity: *severity,
            },
            ConfigError::SelfExtends { profile } => ConfigErrorView::SelfExtends { profile: profile@ },
            ConfigError::UnknownParent { profile, parent } => ConfigErrorView::UnknownParent {
                profile: profile@,
                parent: parent@,
            },
            ConfigError::Cycle { profile } => ConfigErrorView::Cycle { profile: profile@ },
        }
    }
}

/// A catalog id: starts with `ZR` and is five bytes long in UTF-8.
pub open spec fn valid_check_key(id: Seq<char>) -> bool {
    &&& id.len() >= 2
    &&& id[0] == 'Z'
    &&& id[1] == 'R'
    &&& vstd::utf8::encode_utf8(id).len() == 5
}

/// Severities accepted in `zerum.toml`: low, medium, high or critical.
pub open spec fn accepted_severity(s: Option<Severity>) -> bool {
    s != Some(Severity::Info)
}

/// The first problem among the top-level `[checks.*]` entries.
pub open spec fn checks_error(entries: Seq<(Seq<char>, CheckConfigView)>) -> Option<ConfigErrorView>
    decreases entries.len(),
{
    if entries.len() == 0 {
        None
    } else if !valid_check_key(entries[0].0) {
        Some(ConfigErrorView::UnknownCheckKey { id: entries[0].0 })
    } else if !accepted_severity(entries[0].1.severity) {
        Some(ConfigErrorView::InvalidSeverity { id: entries[0].0, severity: Severity::Info })
    } else {
        checks_error(entries.drop_first())
    }
}

/// The first severity problem among one profile's check entries.
pub open spec fn profile_checks_error(profile: Seq<char>, entries: Seq<(Seq<char>, CheckConfigView)>) -> Option<ConfigErrorView>
    decreases entries.len(),
{
    if entries.len() == 0 {
        None
    } else if !accepted_severity(entries[0].1.severity) {
        Some(ConfigErrorView::InvalidProfileSeverity { profile, id: entries[0].0, severity: Severity::Info })
    } else {
        profile_checks_error(profile, entries.drop_first())
    }
}

/// The first problem among the profile definitions, in table order.
pub open spec fn profiles_error(profiles: Seq<(Seq<char>, ProfileView)>) -> Option<ConfigErrorView>
    decreases profiles.len(),
{
    if profiles.len() == 0 {
        None
    } else if profiles[0].1.extends == Some(profiles[0].0) {
        Some(ConfigErrorView::SelfExtends { profile: profiles[0].0 })
    } else {
        match profile_checks_error(profiles[0].0, profiles[0].1.checks) {
            Some(e) => Some(e),
            None => profiles_error(profiles.drop_first()),
        }
    }
}

/// Whether a profile name can be extended: a table entry or a built-in profile.
pub open spec fn known_profile(profiles: Seq<(Seq<char>, ProfileView)>, name: Seq<char>) -> bool {
    lookup(profiles, name) is Some || name == "default"@ || name == "strict"@
}

/// The first problem on the `extends` path from `name`: a parent that is not
/// known, or a profile reached twice (`visiting` is the path so far).
pub open spec fn chain_error(
    profiles: Seq<(Seq<char>, ProfileView)>,
    name: Seq<char>,
    visiting: Seq<Seq<char>>,
    fuel: nat,
) -> Option<ConfigErrorView>
    decreases fuel,
{
    if fuel == 0 {
        None
    } else if visiting.contains(name) {
        Some(ConfigErrorView::Cycle { profile: name })
    } else {
        match lookup(profiles, name) {
            Some(def) => match def.extends {
                Some(parent) => if !known_profile(profiles, parent) {
                    Some(ConfigErrorView::UnknownParent { profile: name, parent })
                } else {
                    chain_error(profiles, parent, visiting.push(name), (fuel - 1) as nat)
                },
                None => None,
            },
            None => None,
        }
    }
}

/// The error `validate` reports, if any: check entries first, then profile
/// definitions, then the active profile's inheritance path.
pub open spec fn config_error(cfg: ConfigView) -> Option<ConfigErrorView> {
    match checks_error(cfg.checks) {
        Some(e) => Some(e),
        None => match profiles_error(cfg.profiles) {
            Some(e) => Some(e),
            None => chain_error(cfg.profiles, cfg.profile_name, Seq::empty(), (cfg.profiles.len() + 2) as nat),
        },
    }
}

/// Every top-level `[checks.*]` entry has a catalog id for key and an
/// accepted severity.
pub open spec fn checks_acceptable(entries: Seq<(Seq<char>, CheckConfigView)>) -> bool {
    forall|i: int|
        0 <= i < entries.len() ==> valid_check_key(#[trigger] entries[i].0) && accepted_severity(
            entries[i].1.severity,
        )
}

/// Every profile's check entries have accepted severities, and no profile
/// extends itself.
pub open spec fn profiles_acceptable(profiles: Seq<(Seq<char>, ProfileView)>) -> bool {
    forall|i: int|
        0 <= i < profiles.len() ==> #[trigger] profiles[i].1.extends != Some(profiles[i].0) && forall|k: int|
            0 <= k < profiles[i].1.checks.len() ==> accepted_severity(#[trigger] profiles[i].1.checks[k].1.severity)
}

proof fn lemma_checks_error_none(entries: Seq<(Seq<char>, CheckConfigView)>)
    ensures
        checks_error(entries) is None <==> checks_acceptable(entries),
    decreases entries.len(),
{
    if entries.len() > 0 {
        let rest = entries.drop_first();
        lemma_checks_error_none(rest);
        assert forall|i: int| 1 <= i < entries.len() implies #[trigger] entries[i] == rest[i - 1] by {}
        if checks_acceptable(entries) {
            assert forall|i: int| 0 <= i < rest.len() implies valid_check_key(#[trigger] rest[i].0) && accepted_severity(
                rest[i].1.severity,
            ) by {
                assert(rest[i] == entries[i + 1]);
            }
        }
        if checks_error(entries) is None {
            assert forall|i: int| 0 <= i < entries.len() implies valid_check_key(#[trigger] entries[i].0)
                && accepted_severity(entries[i].1.severity) by {
                if i > 0 {
                    assert(entries[i] == rest[i - 1]);
                }
            }
        }
    }
}

proof fn lemma_profile_checks_error_none(profile: Seq<char>, entries: Seq<(Seq<char>, CheckConfigView)>)
    ensures
        profile_checks_error(profile, entries) is None <==> forall|k: int|
            0 <= k < entries.len() ==> accepted_severity(#[trigger] entries[k].1.severity),
    decreases entries.len(),
{
    if entries.len() > 0 {
        let rest = entries.drop_first();
        lemma_profile_checks_error_none(profile, rest);
        if forall|k: int| 0 <= k < entries.len() ==> accepted_severity(#[trigger] entries[k].1.severity) {
            assert forall|k: int| 0 <= k < rest.len() implies accepted_severity(#[trigger] rest[k].1.severity) by {
                assert(rest[k] == entries[k + 1]);
            }
        }
        if profile_checks_error(profile, entries) is None {
            assert forall|k: int| 0 <= k < entries.len() implies accepted_severity(#[trigger] entries[k].1.severity) by {
                if k > 0 {
                    assert(entries[k] == rest[k - 1]);
                }
            }
        }
    }
}

proof fn lemma_profiles_error_none(profiles: Seq<(Seq<char>, ProfileView)>)
    ensures
        profiles_error(profiles) is None <==> profiles_acceptable(profiles),
    decreases profiles.len(),
{
    if profiles.len() > 0 {
        let rest = profiles.drop_first();
        lemma_profiles_error_none(rest);
        lemma_profile_checks_error_none(profiles[0].0, profiles[0].1.checks);
        if profiles_acceptable(profiles) {
            assert(profiles[0].1.extends != Some(profiles[0].0));
            assert forall|i: int| 0 <= i < rest.len() implies #[trigger] rest[i].1.extends != Some(rest[i].0)
                && forall|k: int|
                0 <= k < rest[i].1.checks.len() ==> accepted_severity(#[trigger] rest[i].1.checks[k].1.severity) by {
                assert(rest[i] == profiles[i + 1]);
            }
        }
        if profiles_error(profiles) is None {
            assert forall|i: int| 0 <= i < profiles.len() implies #[trigger] profiles[i].1.extends != Some(
                profiles[i].0,
            ) && forall|k: int|
                0 <= k < profiles[i].1.checks.len() ==> accepted_severity(
                    #[trigger] profiles[i].1.checks[k].1.severity,
                ) by {
                if i > 0 {
                    assert(profiles[i] == rest[i - 1]);
                }
            }
        }
    }
}

/// The active profile's `extends` path reaches only profiles that are
/// defined or built in, and never comes back to a profile on it.
pub open spec fn extends_path_acceptable(cfg: ConfigView) -> bool {
    chain_error(cfg.profiles, cfg.profile_name, Seq::empty(), (cfg.profiles.len() + 2) as nat) is None
}

/// A configuration is accepted exactly when every `[checks.*]` key is a
/// catalog id with an accepted severity, every profile's severities are
/// accepted and no profile extends itself, and the active profile's
/// `extends` path reaches only known profiles and never comes back to one.
pub proof fn law_accepted_configurations(cfg: ConfigView)
    ensures
        config_error(cfg) is None <==> checks_acceptable(cfg.checks) && profiles_acceptable(cfg.profiles)
            && extends_path_acceptable(cfg),
{
    lemma_checks_error_none(cfg.checks);
    lemma_profiles_error_none(cfg.profiles);
}

/// Whether `id` is a catalog id: `ZR` followed by three more bytes.
pub fn is_valid_check_key(id: &str) -> (r: bool)
    ensures
        r == valid_check_key(id@),
{
    let n = id.unicode_len();
    if n < 2 {
        return false;
    }
    id.get_char(0) == 'Z' && id.get_char(1) == 'R' && id.as_bytes().len() == 5
}

/// The message of the first error in a list of top-level entries.
fn first_checks_error(entries: &Vec<(String, CheckConfig)>) -> (r: Option<ConfigError>)
    ensures
        match r {
            Some(e) => checks_error(entries_view(entries@)) == Some(e@),
            None => checks_error(entries_view(entries@)) is None,
        },
{
    let ghost model = entries_view(entries@);
    let mut i: usize = 0;
    proof {
        assert(model.skip(0) =~= model);
    }
    while i < entries.len()
        invariant
            i <= entries.len(),
            model == entries_view(entries@),
            checks_error(model) == checks_error(model.skip(i as int)),
        decreases entries.len() - i,
    {
        proof {
            assert(model[i as int] == (entries@[i as int].0@, entries@[i as int].1@));
        }
        let ghost rest = model.skip(i as int);
        proof {
            assert(rest[0] == model[i as int]);
            assert(rest.drop_first() =~= model.skip(i + 1));
        }
        let id = &entries[i].0;
        if !is_valid_check_key(id.as_str()) {
            return Some(ConfigError::UnknownCheckKey { id: id.clone() });
        }
        match entries[i].1.severity {
            Some(Severity::Info) => {
                return Some(ConfigError::InvalidSeverity { id: id.clone(), severity: Severity::Info });
            },
            _ => {},
        }
        i = i + 1;
    }
    proof {
        assert(model.skip(i as int) =~= Seq::<(Seq<char>, CheckConfigView)>::empty());
    }
    None
}

/// The first severity error among one profile's entries.
fn first_profile_checks_error(profile: &String, entries: &Vec<(String, CheckConfig)>) -> (r: Option<ConfigError>)
    ensures
        match r {
            Some(e) => profile_checks_error(profile@, entries_view(entries@)) == Some(e@),
            None => profile_checks_error(profile@, entries_view(entries@)) is None,
        },
{
    let ghost model = entries_view(entries@);
    let mut i: usize = 0;
    proof {
        assert(model.skip(0) =~= model);
    }
    while i < entries.len()
        invariant
            i <= entries.len(),
            model == entries_view(entries@),
            profile_checks_error(profile@, model) == profile_checks_error(profile@, model.skip(i as int)),
        decreases entries.len() - i,
    {
        proof {
            assert(model[i as int] == (entries@[i as int].0@, entries@[i as int].1@));
        }
        let ghost rest = model.skip(i as int);
        proof {
            assert(rest[0] == model[i as int]);
            assert(rest.drop_first() =~= model.skip(i + 1));
        }
        match entries[i].1.severity {
            Some(Severity::Info) => {
                return Some(
                    ConfigError::InvalidProfileSeverity {
                        profile: profile.clone(),
                        id: entries[i].0.clone(),
                        severity: Severity::Info,
                    },
                );
            },
            _ => {},
        }
        i = i + 1;
    }
    proof {
        assert(model.skip(i as int) =~= Seq::<(Seq<char>, CheckConfigView)>::empty());
    }
    None
}

impl Config {
    /// Checks the configuration: every `[checks.*]` key is a catalog id, every
    /// severity is low/medium/high/critical, no profile extends itself, and the
    /// active profile's `extends` path reaches only known profiles without a cycle.
    /// It succeeds exactly when all of these hold; otherwise it reports the
    /// first problem, in that order.
    pub fn validate(&self) -> (r: Result<(), ConfigError>)
        ensures
            r is Ok <==> checks_acceptable(self@.checks) && profiles_acceptable(self@.profiles) && extends_path_acceptable(
                self@,
            ),
            match r {
                Ok(()) => config_error(self@) is None,
                Err(e) => config_error(self@) == Some(e@),
            },
    {
        let r = self.first_error();
        proof {
            law_accepted_configurations(self@);
        }
        r
    }

    /// The first problem of the configuration, if any.
    fn first_error(&self) -> (r: Result<(), ConfigError>)
        ensures
            match r {
                Ok(()) => config_error(self@) is None,
                Err(e) => config_error(self@) == Some(e@),
            },
    {
        match first_checks_error(&self.checks) {
            Some(e) => return Err(e),
            None => {},
        }
        let ghost model = self@.profiles;
        let mut i: usize = 0;
        proof {
            assert(model.skip(0) =~= model);
        }
        while i < self.profiles.len()
            invariant
                i <= self.profiles.len(),
                model == self@.profiles,
                checks_error(self@.checks) is None,
                profiles_error(model) == profiles_error(model.skip(i as int)),
            decreases self.profiles.len() - i,
        {
            let ghost rest = model.skip(i as int);
            proof {
                assert(rest[0] == model[i as int]);
                assert(rest.drop_first() =~= model.skip(i + 1));
            }
            let name = &self.profiles[i].0;
            let def = &self.profiles[i].1;
            proof {
                assert(model[i as int] == (name@, def@));
            }
            match &def.extends {
                Some(ext) => {
                    if str_eq(ext.as_str(), name.as_str()) {
                        return Err(ConfigError::SelfExtends { profile: name.clone() });
                    }
                },
                None => {},
            }
            match first_profile_checks_error(name, &def.checks) {
                Some(e) => return Err(e),
                None => {},
            }
            i = i + 1;
        }
        proof {
            assert(model.skip(i as int) =~= Seq::<(Seq<char>, ProfileView)>::empty());
        }
        self.validate_profile_chain()
    }

    /// Follows the active profile's `extends` path looking for unknown parents
    /// and cycles.
    fn validate_profile_chain(&self) -> (r: Result<(), ConfigError>)
        ensures
            match r {
                Ok(()) => chain_error(self@.profiles, self@.profile_name, Seq::empty(), (self@.profiles.len() + 2) as nat) is None,
                Err(e) => chain_error(self@.profiles, self@.profile_name, Seq::empty(), (self@.profiles.len() + 2) as nat) == Some(e@),
            },
    {
        let ghost profiles = self@.profiles;
        let ghost total = (self@.profiles.len() + 2) as nat;
        let mut visiting: Vec<&str> = Vec::new();
        let mut name: &str = self.profile.name.as_str();
        let mut fuel: u128 = self.profiles.len() as u128 + 2;
        proof {
            assert(names_view(visiting@) =~= Seq::<Seq<char>>::empty());
        }
        loop
            invariant
                profiles == self@.profiles,
                total == (self@.profiles.len() + 2) as nat,
                chain_error(profiles, name@, names_view(visiting@), fuel as nat) == chain_error(
                    profiles,
                    self@.profile_name,
                    Seq::empty(),
                    total,
                ),
            decreases fuel,
        {
            let ghost visiting_view = names_view(visiting@);
            if fuel == 0 {
                return Ok(());
            }
            if names_contain(&visiting, name) {
                let e = ConfigError::Cycle { profile: string_of(name) };
                proof {
                    assert(chain_error(profiles, name@, names_view(visiting@), fuel as nat) == Some(
                        ConfigErrorView::Cycle { profile: name@ },
                    ));
                    assert(e@ == ConfigErrorView::Cycle { profile: name@ });
                }
                return Err(e);
            }
            match find_entry(&self.profiles, name) {
                None => {
                    proof {
                        lemma_lookup_map(self.profiles@, name@);
                    }
                    return Ok(());
                },
                Some(i) => {
                    proof {
                        lemma_lookup_map(self.profiles@, name@);
                    }
                    match &self.profiles[i].1.extends {
                        None => {
                            return Ok(());
                        },
                        Some(parent) => {
                            let known = match find_entry(&self.profiles, parent.as_str()) {
                                Some(_) => true,
                                None => false,
                            } || str_eq(parent.as_str(), "default") || str_eq(parent.as_str(), "strict");
                            proof {
                                lemma_lookup_map(self.profiles@, parent@);
                                reveal_strlit("default");
                                reveal_strlit("strict");
                            }
                            if !known {
                                return Err(ConfigError::UnknownParent { profile: string_of(name), parent: parent.clone() });
                            }
                            visiting.push(name);
                            proof {
                                assert(names_view(visiting@) =~= visiting_view.push(name@));
                            }
                            name = parent.as_str();
                        },
                    }
                },
            }
            fuel = fuel - 1;
        }
    }
}

impl ConfigError {
    /// The human-readable message, as the command line prints it.
    pub fn message(&self) -> (r: String)
        ensures
            r@ == error_message(self@),
    {
        let mut s = String::new();
        match self {
            ConfigError::UnknownCheckKey { id } => {
                push_str(&mut s, "unknown check key `");
                push_str(&mut s, id.as_str());
                push_str(&mut s, "` in zerum.toml: expected catalog id like ZR001");
            },
            ConfigError::InvalidSeverity { id, severity } => {
                push_str(&mut s, "invalid severity `");
                push_str(&mut s, severity.as_str());
                push_str(&mut s, "` for ");
                push_str(&mut s, id.as_str());
                push_str(&mut s, ": use low, medium, high, or critical");
            },
            ConfigError::InvalidProfileSeverity { profile, id, severity } => {
                push_str(&mut s, "invalid severity `");
                push_str(&mut s, severity.as_str());
                push_str(&mut s, "` for profile `");
                push_str(&mut s, profile.as_str());
                push_str(&mut s, "` check ");
                push_str(&mut s, id.as_str());
            },
            ConfigError::SelfExtends { profile } => {
                push_str(&mut s, "profile `");
                push_str(&mut s, profile.as_str());
                push_str(&mut s, "` cannot extend itself");
            },
            ConfigError::UnknownParent { profile, parent } => {
                push_str(&mut s, "profile `");
                push_str(&mut s, profile.as_str());
                push_str(&mut s, "` extends unknown profile `");
                push_str(&mut s, parent.as_str());
                push_str(&mut s, "`");
            },
            ConfigError::Cycle { profile } => {
                push_str(&mut s, "profile inheritance cycle detected at `");
                push_str(&mut s, profile.as_str());
                push_str(&mut s, "`");
            },
        }
        s
    }
}

/// The text of each configuration error.
pub open spec fn error_message(e: ConfigErrorView) -> Seq<char> {
    match e {
        ConfigErrorView::UnknownCheckKey { id } => "unknown check key `"@ + id
            + "` in zerum.toml: expected catalog id like ZR001"@,
        ConfigErrorView::InvalidSeverity { id, severity } => "invalid severity `"@ + severity_name(severity)
            + "` for "@ + id + ": use low, medium, high, or critical"@,
        ConfigErrorView::InvalidProfileSeverity { profile, id, severity } => "invalid severity `"@
            + severity_name(severity) + "` for profile `"@ + profile + "` check "@ + id,
        ConfigErrorView::SelfExtends { profile } => "profile `"@ + profile + "` cannot extend itself"@,
        ConfigErrorView::UnknownParent { profile, parent } => "profile `"@ + profile
            + "` extends unknown profile `"@ + parent + "`"@,
        ConfigErrorView::Cycle { profile } => "profile inheritance cycle detected at `"@ + profile + "`"@,
    }
}

} // verus!
