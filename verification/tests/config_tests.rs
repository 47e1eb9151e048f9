use zerum::config::discover::{ConfigSource, DirProbe};
use zerum::config::validate::ConfigError;
use zerum::config::{ActiveProfile, CheckConfig, Config, ProfileDefinition};

fn strict_config() -> Config {
    Config {
        profile: ActiveProfile {
            name: "strict".to_string(),
        },
        ..Default::default()
    }
}

#[test]
fn check_config_default_is_enabled() {
    let cfg = CheckConfig::default();
    // A default entry leaves `enabled` unset, which resolves to enabled.
    assert!(cfg.enabled.unwrap_or(true));
    let mut config = Config::default();
    config.checks.push(("ZR001".to_string(), cfg));
    assert!(config.check_config("ZR001").enabled);
}

#[test]
fn missing_check_entry_defaults_to_enabled() {
    let config = Config::default();
    assert!(config.is_check_enabled("ZR999"));
    assert!(config.check_config("ZR999").enabled);
}

#[test]
fn check_config_returns_shared_default_without_clone() {
    // Two ids without an entry resolve to the same settings.
    let config = Config::default();
    let a = config.check_config("ZR999");
    let b = config.check_config("ZR888");
    assert_eq!(a.enabled, b.enabled);
    assert_eq!(a.max_branches, b.max_branches);
    assert_eq!(a.max_arguments, b.max_arguments);
    assert_eq!(a.max_lines, b.max_lines);
    assert_eq!(a.max_depth, b.max_depth);
    assert_eq!(a.max_methods, b.max_methods);
    assert_eq!(a.rules.len(), b.rules.len());
    assert_eq!(a.severity, b.severity);
}

#[test]
fn default_profile_disables_noisy_heuristics() {
    let config = Config::default();
    assert!(!config.is_check_enabled("ZR110"));
    assert!(!config.is_check_enabled("ZR506"));
    assert!(config.is_check_enabled("ZR001"));
    assert!(config.is_check_enabled("ZR105"));
}

#[test]
fn strict_profile_enables_all_rules() {
    let config = strict_config();
    assert!(config.is_check_enabled("ZR110"));
    assert!(config.is_check_enabled("ZR506"));
}

#[test]
fn explicit_enable_overrides_default_profile() {
    let mut config = Config::default();
    config.checks.push((
        "ZR110".to_string(),
        CheckConfig {
            enabled: Some(true),
            ..Default::default()
        },
    ));
    assert!(config.is_check_enabled("ZR110"));
}

#[test]
fn explicit_disable_overrides_strict_profile() {
    let mut config = strict_config();
    config.checks.push((
        "ZR001".to_string(),
        CheckConfig {
            enabled: Some(false),
            ..Default::default()
        },
    ));
    assert!(!config.is_check_enabled("ZR001"));
    assert!(config.is_check_enabled("ZR002"));
}

#[test]
fn profile_inheritance_merges_checks() {
    let base = ProfileDefinition {
        extends: None,
        checks: vec![(
            "ZR001".to_string(),
            CheckConfig {
                max_lines: Some(40),
                ..Default::default()
            },
        )],
    };
    let team = ProfileDefinition {
        extends: Some("base".to_string()),
        checks: vec![(
            "ZR001".to_string(),
            CheckConfig {
                max_lines: Some(60),
                ..Default::default()
            },
        )],
    };
    let config = Config {
        profile: ActiveProfile {
            name: "team".to_string(),
        },
        profiles: vec![("base".to_string(), base), ("team".to_string(), team)],
        ..Default::default()
    };
    assert_eq!(config.check_config("ZR001").max_lines, Some(60));
}

#[test]
fn inherited_setting_survives_when_child_leaves_it_unset() {
    let base = ProfileDefinition {
        extends: None,
        checks: vec![(
            "ZR003".to_string(),
            CheckConfig {
                max_depth: Some(2),
                ..Default::default()
            },
        )],
    };
    let team = ProfileDefinition {
        extends: Some("base".to_string()),
        checks: vec![(
            "ZR003".to_string(),
            CheckConfig {
                max_lines: Some(10),
                ..Default::default()
            },
        )],
    };
    let config = Config {
        profile: ActiveProfile {
            name: "team".to_string(),
        },
        profiles: vec![("base".to_string(), base), ("team".to_string(), team)],
        ..Default::default()
    };
    let resolved = config.check_config("ZR003");
    assert_eq!(resolved.max_depth, Some(2));
    assert_eq!(resolved.max_lines, Some(10));
}

#[test]
fn top_level_checks_override_profile_settings() {
    let team = ProfileDefinition {
        extends: None,
        checks: vec![(
            "ZR001".to_string(),
            CheckConfig {
                max_lines: Some(60),
                ..Default::default()
            },
        )],
    };
    let config = Config {
        profile: ActiveProfile {
            name: "team".to_string(),
        },
        profiles: vec![("team".to_string(), team)],
        checks: vec![(
            "ZR001".to_string(),
            CheckConfig {
                max_lines: Some(80),
                ..Default::default()
            },
        )],
        ..Default::default()
    };
    assert_eq!(config.check_config("ZR001").max_lines, Some(80));
}

fn probe(has_git: bool, has_pyproject: bool, has_zerum_toml: bool) -> DirProbe {
    DirProbe { has_git, has_pyproject, has_zerum_toml }
}

#[test]
fn config_discover_stops_at_project_root_without_config() {
    // outer/zerum.toml exists, outer/myapp/pyproject.toml marks the project
    // root, and the search starts in outer/myapp/src.
    let ancestors = vec![probe(false, false, false), probe(false, true, false), probe(false, false, true)];
    assert_eq!(Config::discover(&ancestors), ConfigSource::Builtin);
    let config = Config::default();
    assert!(config.checks.is_empty());
}

#[test]
fn mod_discover_stops_at_project_root_without_config() {
    let ancestors = vec![probe(false, false, false), probe(false, true, false), probe(false, false, true)];
    assert_eq!(Config::discover(&ancestors), ConfigSource::Builtin);
    let config = Config::default();
    assert!(config.checks.is_empty());
    assert!(!config.is_check_enabled("ZR110"));
}

#[test]
fn discover_loads_nearest_config() {
    let ancestors = vec![probe(false, false, false), probe(false, false, true), probe(true, false, true)];
    assert_eq!(Config::discover(&ancestors), ConfigSource::Load(1));
    let at_start = vec![probe(true, true, true)];
    assert_eq!(Config::discover(&at_start), ConfigSource::Load(0));
    assert_eq!(Config::discover(&Vec::new()), ConfigSource::Builtin);
}

#[test]
fn invalid_check_id_rejected_on_load() {
    let mut config = Config::default();
    config.checks.push((
        "bad".to_string(),
        CheckConfig {
            enabled: Some(true),
            ..Default::default()
        },
    ));
    match config.validate() {
        Err(e) => {
            assert!(matches!(e, ConfigError::UnknownCheckKey { .. }));
            assert!(e.message().contains("unknown check key"));
        }
        Ok(()) => panic!("expected an error"),
    }
}

#[test]
fn profile_that_extends_itself_is_rejected() {
    let mut config = Config::default();
    config.profiles.push((
        "team".to_string(),
        ProfileDefinition {
            extends: Some("team".to_string()),
            checks: Vec::new(),
        },
    ));
    assert!(config.validate().is_err());
}

#[test]
fn valid_config_passes_validation() {
    let mut config = Config::default();
    config.checks.push((
        "ZR001".to_string(),
        CheckConfig {
            max_lines: Some(10),
            ..Default::default()
        },
    ));
    assert!(config.validate().is_ok());
}

#[test]
fn repeated_check_entry_replaces_the_earlier_one() {
    let mut config = Config::default();
    let mut off = CheckConfig::default();
    off.enabled = Some(false);
    off.max_lines = Some(10);
    let mut on = CheckConfig::default();
    on.enabled = Some(true);
    config.checks.push(("ZR001".to_string(), off));
    config.checks.push(("ZR001".to_string(), on));
    assert!(config.is_check_enabled("ZR001"));
    let resolved = config.check_config("ZR001");
    assert!(resolved.enabled);
    assert_eq!(resolved.max_lines, None);
}

#[test]
fn each_setting_comes_from_the_last_layer_that_gives_it() {
    let base = ProfileDefinition {
        extends: Some("strict".to_string()),
        checks: vec![(
            "ZR001".to_string(),
            CheckConfig {
                enabled: Some(false),
                max_lines: Some(40),
                max_branches: Some(7),
                ..Default::default()
            },
        )],
    };
    let team = ProfileDefinition {
        extends: Some("base".to_string()),
        checks: vec![(
            "ZR001".to_string(),
            CheckConfig {
                max_lines: Some(60),
                ..Default::default()
            },
        )],
    };
    let mut config = Config {
        profile: ActiveProfile {
            name: "team".to_string(),
        },
        profiles: vec![("base".to_string(), base), ("team".to_string(), team)],
        ..Default::default()
    };
    let resolved = config.check_config("ZR001");
    assert!(!resolved.enabled);
    assert_eq!(resolved.max_lines, Some(60));
    assert_eq!(resolved.max_branches, Some(7));
    assert!(config.is_check_enabled("ZR105"));
    config.checks.push((
        "ZR001".to_string(),
        CheckConfig {
            max_branches: Some(9),
            ..Default::default()
        },
    ));
    let resolved = config.check_config("ZR001");
    assert!(!resolved.enabled);
    assert_eq!(resolved.max_lines, Some(60));
    assert_eq!(resolved.max_branches, Some(9));
}
