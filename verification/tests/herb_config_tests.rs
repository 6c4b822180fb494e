use herb_config::herb_config::{default_exclude_patterns, default_include_patterns};
use herb_config::{
    FilesConfig, HerbConfig, HerbFormatterConfig, HerbLinterConfig, RuleConfig, Severity,
};

fn contains(patterns: &[String], p: &str) -> bool {
    patterns.iter().any(|s| s == p)
}

#[test]
fn default_include_patterns_contains_common_erb_patterns() {
    let defaults = default_include_patterns();
    assert!(contains(&defaults, "**/*.html.erb"));
    assert!(contains(&defaults, "**/*.html"));
    assert!(contains(&defaults, "**/*.rhtml"));
    assert!(contains(&defaults, "**/*.turbo_stream.erb"));
    assert!(contains(&defaults, "**/*.herb"));
    assert!(contains(&defaults, "**/*.html.herb"));
    assert!(contains(&defaults, "**/*.html+*.erb"));
}

#[test]
fn default_exclude_patterns_contains_common_directories() {
    let defaults = default_exclude_patterns();
    assert!(contains(&defaults, "coverage/**/*"));
    assert!(contains(&defaults, "log/**/*"));
    assert!(contains(&defaults, "node_modules/**/*"));
    assert!(contains(&defaults, "storage/**/*"));
    assert!(contains(&defaults, "tmp/**/*"));
    assert!(contains(&defaults, "vendor/**/*"));
}

#[test]
fn default_config_has_linter_enabled() {
    let config = HerbConfig::default();

    assert!(config.linter.enabled);
}

#[test]
fn default_config_has_formatter_disabled() {
    let config = HerbConfig::default();

    assert!(!config.formatter.enabled);
}

#[test]
fn default_config_has_default_formatter_settings() {
    let config = HerbConfig::default();

    assert_eq!(config.formatter.indent_width, 2);
    assert_eq!(config.formatter.max_line_length, 80);
}

#[test]
fn linter_include_patterns_returns_defaults_when_no_config() {
    let config = HerbConfig::default();
    let patterns = config.linter_include_patterns();

    assert_eq!(patterns, default_include_patterns());
}

#[test]
fn linter_include_patterns_combines_files_include_with_defaults() {
    let config = HerbConfig {
        files: FilesConfig { includes: vec!["**/*.xml".into()], excludes: vec![] },
        ..Default::default()
    };
    let patterns = config.linter_include_patterns();

    let mut expected = default_include_patterns();
    expected.push("**/*.xml".into());
    assert_eq!(patterns, expected);
}

#[test]
fn linter_include_patterns_combines_linter_include_with_defaults() {
    let config = HerbConfig {
        linter: HerbLinterConfig { includes: vec!["**/*.xml.erb".into()], ..Default::default() },
        ..Default::default()
    };
    let patterns = config.linter_include_patterns();

    let mut expected = default_include_patterns();
    expected.push("**/*.xml.erb".into());
    assert_eq!(patterns, expected);
}

#[test]
fn linter_include_patterns_combines_all_levels() {
    let config = HerbConfig {
        files: FilesConfig { includes: vec!["**/*.xml".into()], excludes: vec![] },
        linter: HerbLinterConfig { includes: vec!["**/*.custom.erb".into()], ..Default::default() },
        ..Default::default()
    };
    let patterns = config.linter_include_patterns();

    let mut expected = default_include_patterns();
    expected.push("**/*.xml".into());
    expected.push("**/*.custom.erb".into());
    assert_eq!(patterns, expected);
}

#[test]
fn linter_include_patterns_deduplicates() {
    let config = HerbConfig {
        files: FilesConfig { includes: vec!["**/*.html.erb".into()], excludes: vec![] },
        ..Default::default()
    };
    let patterns = config.linter_include_patterns();

    let count = patterns.iter().filter(|p| p.as_str() == "**/*.html.erb").count();
    assert_eq!(count, 1);
}

#[test]
fn linter_include_patterns_deduplicates_across_layers() {
    let config = HerbConfig {
        files: FilesConfig { includes: vec!["**/*.xml".into()], excludes: vec![] },
        linter: HerbLinterConfig { includes: vec!["**/*.xml".into()], ..Default::default() },
        ..Default::default()
    };
    let patterns = config.linter_include_patterns();

    let count = patterns.iter().filter(|p| p.as_str() == "**/*.xml").count();
    assert_eq!(count, 1);
}

#[test]
fn linter_exclude_patterns_returns_defaults_when_no_config() {
    let config = HerbConfig::default();
    let patterns = config.linter_exclude_patterns();

    assert_eq!(patterns, default_exclude_patterns());
}

#[test]
fn linter_exclude_patterns_combines_files_exclude_with_defaults() {
    let config = HerbConfig {
        files: FilesConfig { includes: vec![], excludes: vec!["public/**/*".into()] },
        ..Default::default()
    };
    let patterns = config.linter_exclude_patterns();

    let mut expected = default_exclude_patterns();
    expected.push("public/**/*".into());
    assert_eq!(patterns, expected);
}

#[test]
fn linter_exclude_patterns_combines_linter_exclude_with_defaults() {
    let config = HerbConfig {
        linter: HerbLinterConfig { excludes: vec!["legacy/**/*".into()], ..Default::default() },
        ..Default::default()
    };
    let patterns = config.linter_exclude_patterns();

    let mut expected = default_exclude_patterns();
    expected.push("legacy/**/*".into());
    assert_eq!(patterns, expected);
}

#[test]
fn linter_exclude_patterns_combines_files_and_linter_exclude() {
    let config = HerbConfig {
        files: FilesConfig { includes: vec![], excludes: vec!["public/**/*".into()] },
        linter: HerbLinterConfig { excludes: vec!["legacy/**/*".into()], ..Default::default() },
        ..Default::default()
    };
    let patterns = config.linter_exclude_patterns();

    let mut expected = default_exclude_patterns();
    expected.push("public/**/*".into());
    expected.push("legacy/**/*".into());
    assert_eq!(patterns, expected);
}

#[test]
fn linter_exclude_patterns_deduplicates() {
    let config = HerbConfig {
        files: FilesConfig { includes: vec![], excludes: vec!["vendor/**/*".into()] },
        ..Default::default()
    };
    let patterns = config.linter_exclude_patterns();

    let count = patterns.iter().filter(|p| p.as_str() == "vendor/**/*").count();
    assert_eq!(count, 1);
}

#[test]
fn formatter_include_patterns_returns_defaults_when_no_config() {
    let config = HerbConfig::default();
    let patterns = config.formatter_include_patterns();

    assert_eq!(patterns, default_include_patterns());
}

#[test]
fn formatter_include_patterns_combines_files_and_formatter_include() {
    let config = HerbConfig {
        files: FilesConfig { includes: vec!["**/*.xml".into()], excludes: vec![] },
        formatter: HerbFormatterConfig {
            includes: vec!["**/*.custom.erb".into()],
            ..Default::default()
        },
        ..Default::default()
    };
    let patterns = config.formatter_include_patterns();

    let mut expected = default_include_patterns();
    expected.push("**/*.xml".into());
    expected.push("**/*.custom.erb".into());
    assert_eq!(patterns, expected);
}

#[test]
fn formatter_exclude_patterns_returns_defaults_when_no_config() {
    let config = HerbConfig::default();
    let patterns = config.formatter_exclude_patterns();

    assert_eq!(patterns, default_exclude_patterns());
}

#[test]
fn formatter_exclude_patterns_combines_files_and_formatter_exclude() {
    let config = HerbConfig {
        files: FilesConfig { includes: vec![], excludes: vec!["public/**/*".into()] },
        formatter: HerbFormatterConfig { excludes: vec!["test/**/*".into()], ..Default::default() },
        ..Default::default()
    };
    let patterns = config.formatter_exclude_patterns();

    let mut expected = default_exclude_patterns();
    expected.push("public/**/*".into());
    expected.push("test/**/*".into());
    assert_eq!(patterns, expected);
}

#[test]
fn linter_and_formatter_patterns_are_independent() {
    let config = HerbConfig {
        files: FilesConfig { includes: vec!["**/*.xml".into()], excludes: vec![] },
        linter: HerbLinterConfig { includes: vec!["**/*.custom.erb".into()], ..Default::default() },
        formatter: HerbFormatterConfig {
            includes: vec!["**/*.special.erb".into()],
            ..Default::default()
        },
        ..Default::default()
    };

    let linter = config.linter_include_patterns();
    let formatter = config.formatter_include_patterns();

    assert!(contains(&linter, "**/*.xml"));
    assert!(contains(&formatter, "**/*.xml"));

    assert!(contains(&linter, "**/*.custom.erb"));
    assert!(!contains(&linter, "**/*.special.erb"));

    assert!(contains(&formatter, "**/*.special.erb"));
    assert!(!contains(&formatter, "**/*.custom.erb"));
}

#[test]
fn to_linter_config_transfers_rules() {
    let config = HerbConfig {
        linter: HerbLinterConfig {
            rules: vec![(
                "html-tag-name-lowercase".to_string(),
                RuleConfig {
                    enabled: false,
                    severity: Some(Severity::Error),
                    ..Default::default()
                },
            )],
            ..Default::default()
        },
        ..Default::default()
    };
    let linter_config = config.to_linter_config();

    assert!(!linter_config.is_rule_enabled("html-tag-name-lowercase", true));
}

#[test]
fn to_formatter_config_transfers_settings() {
    let config = HerbConfig {
        formatter: HerbFormatterConfig {
            indent_width: 4,
            max_line_length: 120,
            ..Default::default()
        },
        ..Default::default()
    };
    let formatter_config = config.to_formatter_config();

    assert_eq!(formatter_config.indent_width, 4);
    assert_eq!(formatter_config.max_line_length, 120);
}

#[test]
fn to_formatter_config_uses_defaults() {
    let config = HerbConfig::default();
    let formatter_config = config.to_formatter_config();

    assert_eq!(formatter_config.indent_width, 2);
    assert_eq!(formatter_config.max_line_length, 80);
}

#[test]
fn load_full_config_with_all_sections() {
    let config = HerbConfig::from_parts(
        Some("0.8.10".to_string()),
        Some(FilesConfig::from_parts(
            Some(vec!["**/*.xml.erb".into()]),
            Some(vec!["public/**/*".into()]),
        )),
        Some(HerbLinterConfig::from_parts(
            Some(true),
            Some(Severity::Warning),
            Some(vec!["**/*.custom.erb".into()]),
            Some(vec!["legacy/**/*".into()]),
            Some(vec![
                (
                    "html-tag-name-lowercase".to_string(),
                    RuleConfig::from_parts(Some(false), Some(Severity::Error), None, None, None),
                ),
                (
                    "erb-require-trailing-newline".to_string(),
                    RuleConfig::from_parts(
                        None,
                        None,
                        None,
                        Some(vec!["app/views/**/*".into()]),
                        Some(vec!["app/views/admin/**/*".into()]),
                    ),
                ),
            ]),
        )),
        Some(HerbFormatterConfig::from_parts(
            Some(true),
            Some(4),
            Some(100),
            Some(vec!["**/*.special.erb".into()]),
            Some(vec!["generated/**/*".into()]),
        )),
    );

    assert_eq!(config.version, Some("0.8.10".into()));

    assert_eq!(config.files.includes, vec!["**/*.xml.erb".to_string()]);
    assert_eq!(config.files.excludes, vec!["public/**/*".to_string()]);

    assert!(config.linter.enabled);
    assert_eq!(config.linter.includes, vec!["**/*.custom.erb".to_string()]);
    assert_eq!(config.linter.excludes, vec!["legacy/**/*".to_string()]);

    let linter_config = config.to_linter_config();
    assert!(!linter_config.is_rule_enabled("html-tag-name-lowercase", true));
    assert!(linter_config.is_rule_enabled("erb-require-trailing-newline", true));
    assert!(linter_config.is_rule_enabled_for_path(
        "erb-require-trailing-newline",
        "app/views/home/index.html.erb",
        &[]
    ));
    assert!(!linter_config.is_rule_enabled_for_path(
        "erb-require-trailing-newline",
        "app/views/admin/dashboard.html.erb",
        &[]
    ));
    assert!(!linter_config.is_rule_enabled_for_path(
        "erb-require-trailing-newline",
        "lib/templates/email.html.erb",
        &[]
    ));

    assert!(config.formatter.enabled);
    assert_eq!(config.formatter.indent_width, 4);
    assert_eq!(config.formatter.max_line_length, 100);

    let linter_includes = config.linter_include_patterns();
    assert!(contains(&linter_includes, "**/*.xml.erb"));
    assert!(contains(&linter_includes, "**/*.custom.erb"));

    let linter_excludes = config.linter_exclude_patterns();
    assert!(contains(&linter_excludes, "public/**/*"));
    assert!(contains(&linter_excludes, "legacy/**/*"));
}

#[test]
fn fail_level_defaults_to_none() {
    let config = HerbConfig::default();

    assert_eq!(config.linter.fail_level, None);
}
