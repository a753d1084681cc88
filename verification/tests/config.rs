// SPDX-License-Identifier: GPL-3.0-or-later

use std::path::Path;

use yeet_cli::config::{
    config_path, default_raw_config, expand_leading_tilde, implicit_instructions_path, init_message,
    join_path, resolve_cli_instructions_path, resolve_config_path, resolve_settings, show,
    validate_limit, validate_reasoning_effort, ConfigError, Environment, RawProfile,
    RawProfileOptions, DEFAULT_PATCH_MAX_CHARS, DEFAULT_PROFILE, DEFAULT_REASONING_EFFORT,
    DEFAULT_STAT_MAX_CHARS,
};
use yeet_cli::domain::CommitStyle;
use yeet_cli::generation::style::{InstructionsFile, InstructionsRead};
use yeet_cli::generation::{resolve_generated_style, HistoryEvidence};

fn env_with_home(home: &str) -> Environment {
    Environment {
        home: Some(home.to_string()),
        ..Environment::default()
    }
}

#[test]
fn missing_config_uses_documented_defaults() {
    let root = tempfile::tempdir().unwrap();
    let cwd = root.path().to_string_lossy().into_owned();
    let environment = Environment::default();
    let config = join_path(&cwd, "missing.toml");
    let path = config_path(Some(&config), &cwd, &environment).unwrap();
    let exists = Path::new(&path).exists();
    let implicit = Path::new(&implicit_instructions_path(&path)).exists();
    let resolved = resolve_settings(
        &default_raw_config(),
        path,
        exists,
        implicit,
        None,
        None,
        None,
        &environment,
    )
    .unwrap();
    assert_eq!(resolved.profile.name, DEFAULT_PROFILE);
    assert_eq!(resolved.profile.model, "gpt-5.6-luna");
    assert_eq!(resolved.profile.reasoning_effort, DEFAULT_REASONING_EFFORT);
    assert_eq!(resolved.limits.stat_max_chars, DEFAULT_STAT_MAX_CHARS);
    assert_eq!(resolved.limits.patch_max_chars, DEFAULT_PATCH_MAX_CHARS);
    assert!(resolved.instructions_file.is_none());
}

#[test]
fn custom_generation_requires_instructions_and_marks_history_fallback() {
    let missing = resolve_generated_style(
        CommitStyle::Custom,
        Some(InstructionsFile {
            path: "/tmp/yeet-no-such-instructions.md".to_string(),
            read: InstructionsRead::Missing,
        }),
        None,
        None,
    )
    .unwrap_err()
    .message();
    assert!(missing.contains("does not exist"));

    let style = resolve_generated_style(
        CommitStyle::Repository,
        None,
        None,
        Some(HistoryEvidence {
            examples: "No eligible history.".to_string(),
            truncated: false,
            fallback: true,
        }),
    )
    .unwrap();
    assert!(style.fallback.is_some());
}

#[test]
fn flags_win_over_environment_over_file() {
    let mut raw = default_raw_config();
    raw.profiles.push((
        "work".to_string(),
        RawProfile {
            harness: "codex".to_string(),
            model: " work-model ".to_string(),
            options: RawProfileOptions {
                reasoning_effort: Some("medium".to_string()),
            },
        },
    ));
    let environment = Environment {
        profile: Some("work".to_string()),
        model: Some("env-model".to_string()),
        style: Some("custom".to_string()),
        ..Environment::default()
    };
    let from_env = resolve_settings(
        &raw,
        "/cfg/config.toml".to_string(),
        true,
        false,
        None,
        None,
        None,
        &environment,
    )
    .unwrap();
    assert_eq!(from_env.profile.name, "work");
    assert_eq!(from_env.profile.model, "env-model");
    assert_eq!(from_env.profile.reasoning_effort, "medium");
    assert_eq!(from_env.style, CommitStyle::Custom);

    let from_flags = resolve_settings(
        &raw,
        "/cfg/config.toml".to_string(),
        true,
        false,
        Some(" default "),
        Some("one-shot-model"),
        Some("conventional"),
        &environment,
    )
    .unwrap();
    assert_eq!(from_flags.profile.name, "default");
    assert_eq!(from_flags.profile.model, "one-shot-model");
    assert_eq!(from_flags.profile.reasoning_effort, "low");
    assert_eq!(from_flags.style, CommitStyle::Conventional);

    let from_file = resolve_settings(
        &raw,
        "/cfg/config.toml".to_string(),
        true,
        false,
        Some("work"),
        None,
        None,
        &Environment::default(),
    )
    .unwrap();
    assert_eq!(from_file.profile.model, "work-model");
    assert_eq!(from_file.style, CommitStyle::Repository);
}

#[test]
fn explicitly_blank_overrides_fail() {
    let raw = default_raw_config();
    let environment = Environment::default();
    let profile = resolve_settings(&raw, "c".into(), false, false, Some("  "), None, None, &environment)
        .unwrap_err()
        .message();
    assert!(profile.contains("generation profile"));
    let model = resolve_settings(&raw, "c".into(), false, false, None, Some(""), None, &environment)
        .unwrap_err()
        .message();
    assert!(model.contains("model"));
    let style = resolve_settings(&raw, "c".into(), false, false, None, None, Some(" "), &environment)
        .unwrap_err()
        .message();
    assert!(style.contains("commit style"));
}

#[test]
fn invalid_limits_and_versions_are_rejected() {
    let mut raw = default_raw_config();
    raw.context.stat_max_chars = 0;
    let error = resolve_settings(&raw, "c".into(), false, false, None, None, None, &Environment::default())
        .unwrap_err()
        .message();
    assert_eq!(error, "context.stat_max_chars must be between 1 and 1000000 (got 0)");

    let mut raw = default_raw_config();
    raw.context.patch_max_chars = 1_000_001;
    let error = resolve_settings(&raw, "c".into(), false, false, None, None, None, &Environment::default())
        .unwrap_err()
        .message();
    assert_eq!(error, "context.patch_max_chars must be between 1 and 1000000 (got 1000001)");

    let mut raw = default_raw_config();
    raw.version = 2;
    let error = resolve_settings(&raw, "c".into(), false, false, None, None, None, &Environment::default())
        .unwrap_err()
        .message();
    assert_eq!(error, "unsupported Yeet configuration version 2; expected 1");

    assert!(validate_limit("context.stat_max_chars", 1).is_ok());
    assert!(validate_limit("context.stat_max_chars", 1_000_000).is_ok());
    assert!(matches!(
        validate_limit("context.stat_max_chars", 1_000_001),
        Err(ConfigError::InvalidLimit { value: 1_000_001, .. })
    ));
}

#[test]
fn reasoning_effort_and_profiles_are_checked() {
    for effort in ["none", "low", "medium", "high", "xhigh", "max"] {
        assert!(validate_reasoning_effort(effort).is_ok());
    }
    assert!(matches!(
        validate_reasoning_effort("extreme"),
        Err(ConfigError::InvalidReasoningEffort(value)) if value == "extreme"
    ));
    let environment = Environment {
        codex_reasoning_effort: Some("extreme".to_string()),
        ..Environment::default()
    };
    let error = resolve_settings(&default_raw_config(), "c".into(), false, false, None, None, None, &environment)
        .unwrap_err()
        .message();
    assert!(error.contains("reasoning_effort 'extreme'"));

    let error = resolve_settings(&default_raw_config(), "c".into(), false, false, Some("nope"), None, None, &Environment::default())
        .unwrap_err()
        .message();
    assert_eq!(error, "generation profile 'nope' is not defined in the selected config");

    let mut raw = default_raw_config();
    raw.profiles[0].1.harness = "aider".to_string();
    let error = resolve_settings(&raw, "c".into(), false, false, None, None, None, &Environment::default())
        .unwrap_err()
        .message();
    assert_eq!(error, "unsupported harness 'aider'; this release supports 'codex'");
}

#[test]
fn instructions_files_resolve_beside_the_config() {
    let mut raw = default_raw_config();
    let environment = env_with_home("/home/me");
    let implicit = resolve_settings(&raw, "/cfg/yeet/config.toml".into(), true, true, None, None, None, &environment).unwrap();
    assert_eq!(implicit.instructions_file.as_deref(), Some("/cfg/yeet/instructions.md"));
    assert!(!implicit.instructions_explicit);
    let no_config = resolve_settings(&raw, "/cfg/yeet/config.toml".into(), false, true, None, None, None, &environment).unwrap();
    assert!(no_config.instructions_file.is_none());

    raw.generation.instructions_file = Some("guide.md".to_string());
    let relative = resolve_settings(&raw, "/cfg/yeet/config.toml".into(), true, false, None, None, None, &environment).unwrap();
    assert_eq!(relative.instructions_file.as_deref(), Some("/cfg/yeet/guide.md"));
    assert!(relative.instructions_explicit);

    raw.generation.instructions_file = Some("~/notes/guide.md".to_string());
    let home = resolve_settings(&raw, "/cfg/yeet/config.toml".into(), true, false, None, None, None, &environment).unwrap();
    assert_eq!(home.instructions_file.as_deref(), Some("/home/me/notes/guide.md"));

    raw.generation.instructions_file = Some("   ".to_string());
    let blank = resolve_settings(&raw, "/cfg/yeet/config.toml".into(), true, false, None, None, None, &environment)
        .unwrap_err()
        .message();
    assert_eq!(blank, "generation.instructions_file must contain a non-empty path");
}

#[test]
fn paths_resolve_against_the_right_directory() {
    let environment = env_with_home("/home/me");
    assert_eq!(join_path("/a", "b"), "/a/b");
    assert_eq!(join_path("/a/", "b"), "/a/b");
    assert_eq!(join_path("/a", "/b"), "/b");
    assert_eq!(expand_leading_tilde("~", &environment), "/home/me");
    assert_eq!(expand_leading_tilde("~/x", &environment), "/home/me/x");
    assert_eq!(expand_leading_tilde("~x", &environment), "~x");
    assert_eq!(expand_leading_tilde("~/x", &Environment::default()), "~/x");
    assert_eq!(resolve_cli_instructions_path("guide.md", "/work", &environment), "/work/guide.md");
    assert_eq!(resolve_cli_instructions_path("/abs.md", "/work", &environment), "/abs.md");
    assert_eq!(resolve_config_path("guide.md", "/cfg/config.toml", &environment), "/cfg/guide.md");
    assert_eq!(implicit_instructions_path("/cfg/config.toml"), "/cfg/instructions.md");
    assert_eq!(implicit_instructions_path("config.toml"), "instructions.md");

    assert_eq!(
        config_path(Some("settings/config.toml"), "/work", &environment).unwrap(),
        "/work/settings/config.toml"
    );
    assert_eq!(config_path(None, "/work", &environment).unwrap(), "/home/me/.config/yeet/config.toml");
    let xdg = Environment {
        xdg_config_home: Some("/xdg".to_string()),
        ..env_with_home("/home/me")
    };
    assert_eq!(config_path(None, "/work", &xdg).unwrap(), "/xdg/yeet/config.toml");
    let relative_xdg = Environment {
        xdg_config_home: Some("xdg".to_string()),
        ..env_with_home("/home/me")
    };
    assert_eq!(config_path(None, "/work", &relative_xdg).unwrap(), "/home/me/.config/yeet/config.toml");
    assert!(matches!(
        config_path(None, "/work", &Environment::default()),
        Err(ConfigError::MissingHome)
    ));
}

#[test]
fn show_reports_sources() {
    let resolved = resolve_settings(
        &default_raw_config(),
        "/cfg/config.toml".to_string(),
        true,
        true,
        None,
        None,
        None,
        &Environment::default(),
    )
    .unwrap();
    let loaded = show(&resolved, true);
    assert!(loaded.contains("/cfg/config.toml (loaded)"));
    assert!(loaded.contains("instructions.md (loaded)"));
    assert!(loaded.contains("gpt-5.6-luna"));
    let missing = show(&resolved, false);
    assert!(missing.contains("instructions.md (not present)"));
    assert!(missing.starts_with("config: /cfg/config.toml (loaded)\nprofile: default\nharness: codex\n"));

    assert!(init_message(true, "/cfg/config.toml").contains("created"));
    assert!(init_message(false, "/cfg/config.toml").contains("kept"));
}

#[test]
fn configured_profile_and_flag_overrides_combine() {
    let mut raw = default_raw_config();
    raw.generation.profile = "work".to_string();
    raw.generation.instructions_file = Some("guide.md".to_string());
    raw.profiles = vec![(
        "work".to_string(),
        RawProfile {
            harness: "codex".to_string(),
            model: "configured-model".to_string(),
            options: RawProfileOptions {
                reasoning_effort: Some("medium".to_string()),
            },
        },
    )];
    raw.commit.style = "custom".to_string();
    raw.workflow.push = false;
    let resolved = resolve_settings(
        &raw,
        "/root/settings/config.toml".to_string(),
        true,
        false,
        Some("work"),
        Some("one-shot-model"),
        Some("repository"),
        &Environment::default(),
    )
    .unwrap();
    assert_eq!(resolved.profile.model, "one-shot-model");
    assert_eq!(resolved.profile.reasoning_effort, "medium");
    assert_eq!(resolved.style.as_str(), "repository");
    assert!(!resolved.push);
    assert_eq!(
        resolved.instructions_file.as_deref(),
        Some("/root/settings/guide.md")
    );
    assert_eq!(resolved.instructions_source_description(), "/root/settings/guide.md");
}
