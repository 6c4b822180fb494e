//! Configuration-resolution engine for a template linter/formatter.
//!
//! Given a layered configuration (built-in defaults, project-wide file
//! patterns, per-tool and per-rule overrides), the library decides, for every
//! (rule, file) pair, whether the rule applies to that file and at what
//! severity, and whether a file falls within the linter's or formatter's
//! scanning scope at all.  Pattern matching, pattern-list composition and the
//! rule-precedence algorithm are verified; reading configuration files from
//! disk is left to the surrounding tool.

pub mod discovery;
pub mod formatter_config;
pub mod glob;
pub mod herb_config;
pub mod linter_config;
pub mod location;
pub mod options;
pub mod pattern_list;
pub mod rule_config;
pub mod severity;

pub use discovery::DirListing;
pub use formatter_config::FormatterConfig;
pub use glob::is_path_matching;
pub use herb_config::FilesConfig;
pub use herb_config::HerbConfig;
pub use herb_config::HerbFormatterConfig;
pub use herb_config::HerbLinterConfig;
pub use linter_config::LinterConfig;
pub use location::Location;
pub use location::Position;
pub use options::ExtractRubyOptions;
pub use options::ParserOptions;
pub use rule_config::RuleConfig;
pub use severity::Severity;
