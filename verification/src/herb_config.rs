use vstd::prelude::*;

use crate::formatter_config::DEFAULT_INDENT_WIDTH;
use crate::formatter_config::DEFAULT_MAX_LINE_LENGTH;
use crate::formatter_config::FormatterConfig;
use crate::linter_config::LinterConfig;
use crate::pattern_list::append_unique;
use crate::pattern_list::compose_patterns;
use crate::pattern_list::has_unique_patterns;
use crate::pattern_list::lemma_compose_patterns_membership;
use crate::pattern_list::lemma_compose_patterns_unique;
use crate::pattern_list::patterns_or_empty;
use crate::rule_config::RuleConfig;
use crate::rule_config::RuleView;
use crate::severity::Severity;

verus! {

// ----------------------------------------------------------------------------
// The configuration model: project-wide file scope, linter settings,
// formatter settings, and the configuration root.
// ----------------------------------------------------------------------------

/// Project-wide file scope: pattern lists layered beneath the tool-specific
/// ones.
#[derive(Debug)]
pub struct FilesConfig {
    pub includes: Vec<String>,
    pub excludes: Vec<String>,
}

/// Linter settings: an enabled flag (default true: linting is opt-out), an
/// optional severity threshold, tool-level pattern lists, and the per-rule
/// overrides keyed by rule name.
#[derive(Debug)]
pub struct HerbLinterConfig {
    pub enabled: bool,
    pub fail_level: Option<Severity>,
    pub includes: Vec<String>,
    pub excludes: Vec<String>,
    pub rules: Vec<(String, RuleConfig)>,
}

/// Formatter settings: an enabled flag (default false: formatting is
/// opt-in), indentation width, maximum line length, and tool-level pattern
/// lists.
#[derive(Debug)]
pub struct HerbFormatterConfig {
    pub enabled: bool,
    pub indent_width: usize,
    pub max_line_length: usize,
    pub includes: Vec<String>,
    pub excludes: Vec<String>,
}

/// The configuration root: an informational version, the project-wide file
/// scope, and the linter and formatter settings.  Constructed once per tool
/// invocation and immutable thereafter.
#[derive(Debug)]
pub struct HerbConfig {
    pub version: Option<String>,
    pub files: FilesConfig,
    pub linter: HerbLinterConfig,
    pub formatter: HerbFormatterConfig,
}

// ----------------------------------------------------------------------------
// Views.
// ----------------------------------------------------------------------------

/// The mathematical content of a `FilesConfig`.
#[verifier::ext_equal]
pub struct FilesView {
    pub includes: Seq<Seq<char>>,
    pub excludes: Seq<Seq<char>>,
}

/// The mathematical content of a `HerbLinterConfig`.
#[verifier::ext_equal]
pub struct LinterSettingsView {
    pub enabled: bool,
    pub fail_level: Option<Severity>,
    pub includes: Seq<Seq<char>>,
    pub excludes: Seq<Seq<char>>,
    pub rules: Seq<(Seq<char>, RuleView)>,
}

/// The mathematical content of a `HerbFormatterConfig`.
#[verifier::ext_equal]
pub struct FormatterSettingsView {
    pub enabled: bool,
    pub indent_width: int,
    pub max_line_length: int,
    pub includes: Seq<Seq<char>>,
    pub excludes: Seq<Seq<char>>,
}

/// The mathematical content of a `HerbConfig`.
#[verifier::ext_equal]
pub struct ConfigView {
    pub version: Option<Seq<char>>,
    pub files: FilesView,
    pub linter: LinterSettingsView,
    pub formatter: FormatterSettingsView,
}

/// The per-rule override entries as (name, view) pairs, in entry order.
pub open spec fn rules_entries(rules: Seq<(String, RuleConfig)>) -> Seq<(Seq<char>, RuleView)> {
    Seq::new(rules.len(), |i: int| (rules[i].0@, rules[i].1@))
}

impl View for FilesConfig {
    type V = FilesView;

    open spec fn view(&self) -> FilesView {
        FilesView { includes: self.includes.deep_view(), excludes: self.excludes.deep_view() }
    }
}

impl View for HerbLinterConfig {
    type V = LinterSettingsView;

    open spec fn view(&self) -> LinterSettingsView {
        LinterSettingsView {
            enabled: self.enabled,
            fail_level: self.fail_level,
            includes: self.includes.deep_view(),
            excludes: self.excludes.deep_view(),
            rules: rules_entries(self.rules@),
        }
    }
}

impl View for HerbFormatterConfig {
    type V = FormatterSettingsView;

    open spec fn view(&self) -> FormatterSettingsView {
        FormatterSettingsView {
            enabled: self.enabled,
            indent_width: self.indent_width as int,
            max_line_length: self.max_line_length as int,
            includes: self.includes.deep_view(),
            excludes: self.excludes.deep_view(),
        }
    }
}

impl View for HerbConfig {
    type V = ConfigView;

    open spec fn view(&self) -> ConfigView {
        ConfigView {
            version: match self.version {
                Some(v) => Some(v@),
                None => None,
            },
            files: self.files@,
            linter: self.linter@,
            formatter: self.formatter@,
        }
    }
}

// ----------------------------------------------------------------------------
// Documented defaults.
// ----------------------------------------------------------------------------

/// The view of the default file scope: no project-wide patterns.
pub open spec fn default_files_view() -> FilesView {
    FilesView { includes: Seq::empty(), excludes: Seq::empty() }
}

/// The view of the default linter settings: enabled, no severity threshold,
/// no patterns, no per-rule overrides.
pub open spec fn default_linter_settings_view() -> LinterSettingsView {
    LinterSettingsView {
        enabled: true,
        fail_level: None,
        includes: Seq::empty(),
        excludes: Seq::empty(),
        rules: Seq::empty(),
    }
}

/// The view of the default formatter settings: disabled, indentation width
/// 2, maximum line length 80, no patterns.
pub open spec fn default_formatter_settings_view() -> FormatterSettingsView {
    FormatterSettingsView {
        enabled: false,
        indent_width: DEFAULT_INDENT_WIDTH as int,
        max_line_length: DEFAULT_MAX_LINE_LENGTH as int,
        includes: Seq::empty(),
        excludes: Seq::empty(),
    }
}

/// The view of the fully-default configuration.
pub open spec fn default_config_view() -> ConfigView {
    ConfigView {
        version: None,
        files: default_files_view(),
        linter: default_linter_settings_view(),
        formatter: default_formatter_settings_view(),
    }
}

impl Default for FilesConfig {
    /// The default file scope: empty pattern lists.
    fn default() -> (r: Self)
        ensures
            r@ == default_files_view(),
    {
        let r = FilesConfig { includes: Vec::new(), excludes: Vec::new() };
        proof {
            assert(r@ =~= default_files_view());
        }
        r
    }
}

impl Default for HerbLinterConfig {
    /// The default linter settings: enabled, with no threshold, patterns or
    /// overrides.
    fn default() -> (r: Self)
        ensures
            r@ == default_linter_settings_view(),
    {
        let r = HerbLinterConfig {
            enabled: true,
            fail_level: None,
            includes: Vec::new(),
            excludes: Vec::new(),
            rules: Vec::new(),
        };
        proof {
            assert(r@ =~= default_linter_settings_view());
        }
        r
    }
}

impl Default for HerbFormatterConfig {
    /// The default formatter settings: disabled, width 2, line length 80, no
    /// patterns.
    fn default() -> (r: Self)
        ensures
            r@ == default_formatter_settings_view(),
    {
        let r = HerbFormatterConfig {
            enabled: false,
            indent_width: DEFAULT_INDENT_WIDTH,
            max_line_length: DEFAULT_MAX_LINE_LENGTH,
            includes: Vec::new(),
            excludes: Vec::new(),
        };
        proof {
            assert(r@ =~= default_formatter_settings_view());
        }
        r
    }
}

impl Default for HerbConfig {
    /// The fully-default configuration.
    fn default() -> (r: Self)
        ensures
            r@ == default_config_view(),
    {
        let r = HerbConfig {
            version: None,
            files: FilesConfig::default(),
            linter: HerbLinterConfig::default(),
            formatter: HerbFormatterConfig::default(),
        };
        proof {
            assert(r@ =~= default_config_view());
        }
        r
    }
}

// ----------------------------------------------------------------------------
// Built-in pattern sets.
// ----------------------------------------------------------------------------

/// The built-in include patterns: the template-file extensions the tool
/// understands.
pub open spec fn spec_default_include_patterns() -> Seq<Seq<char>> {
    seq![
        "**/*.herb"@,
        "**/*.html.erb"@,
        "**/*.html.herb"@,
        "**/*.html"@,
        "**/*.html+*.erb"@,
        "**/*.rhtml"@,
        "**/*.turbo_stream.erb"@,
    ]
}

/// The built-in exclude patterns: conventional generated, vendor, log and
/// temporary directories.
pub open spec fn spec_default_exclude_patterns() -> Seq<Seq<char>> {
    seq![
        "coverage/**/*"@,
        "log/**/*"@,
        "node_modules/**/*"@,
        "storage/**/*"@,
        "tmp/**/*"@,
        "vendor/**/*"@,
    ]
}

/// The built-in include patterns, as a fresh pattern list.
pub fn default_include_patterns() -> (r: Vec<String>)
    ensures
        r.deep_view() == spec_default_include_patterns(),
{
    let mut v: Vec<String> = Vec::new();
    v.push("**/*.herb".to_owned());
    v.push("**/*.html.erb".to_owned());
    v.push("**/*.html.herb".to_owned());
    v.push("**/*.html".to_owned());
    v.push("**/*.html+*.erb".to_owned());
    v.push("**/*.rhtml".to_owned());
    v.push("**/*.turbo_stream.erb".to_owned());
    proof {
        assert(v.deep_view() =~= spec_default_include_patterns());
    }
    v
}

/// The built-in exclude patterns, as a fresh pattern list.
pub fn default_exclude_patterns() -> (r: Vec<String>)
    ensures
        r.deep_view() == spec_default_exclude_patterns(),
{
    let mut v: Vec<String> = Vec::new();
    v.push("coverage/**/*".to_owned());
    v.push("log/**/*".to_owned());
    v.push("node_modules/**/*".to_owned());
    v.push("storage/**/*".to_owned());
    v.push("tmp/**/*".to_owned());
    v.push("vendor/**/*".to_owned());
    proof {
        assert(v.deep_view() =~= spec_default_exclude_patterns());
    }
    v
}

// ----------------------------------------------------------------------------
// Scan-scope pattern lists: built-in defaults, then the project-wide
// patterns, then the tool-specific ones, duplicates removed.
// ----------------------------------------------------------------------------

/// The linter's include patterns.
pub open spec fn spec_linter_include_patterns(v: ConfigView) -> Seq<Seq<char>> {
    compose_patterns(
        compose_patterns(spec_default_include_patterns(), v.files.includes),
        v.linter.includes,
    )
}

/// The linter's exclude patterns.
pub open spec fn spec_linter_exclude_patterns(v: ConfigView) -> Seq<Seq<char>> {
    compose_patterns(
        compose_patterns(spec_default_exclude_patterns(), v.files.excludes),
        v.linter.excludes,
    )
}

/// The formatter's include patterns.
pub open spec fn spec_formatter_include_patterns(v: ConfigView) -> Seq<Seq<char>> {
    compose_patterns(
        compose_patterns(spec_default_include_patterns(), v.files.includes),
        v.formatter.includes,
    )
}

/// The formatter's exclude patterns.
pub open spec fn spec_formatter_exclude_patterns(v: ConfigView) -> Seq<Seq<char>> {
    compose_patterns(
        compose_patterns(spec_default_exclude_patterns(), v.files.excludes),
        v.formatter.excludes,
    )
}

impl HerbConfig {
    /// The linter's include patterns: built-in defaults, then the
    /// project-wide and the linter's own entries not already present, in
    /// first-seen order.
    pub fn linter_include_patterns(&self) -> (r: Vec<String>)
        ensures
            r.deep_view() == spec_linter_include_patterns(self@),
    {
        let mut patterns = default_include_patterns();
        append_unique(&mut patterns, &self.files.includes);
        append_unique(&mut patterns, &self.linter.includes);
        patterns
    }

    /// The linter's exclude patterns, composed the same way.
    pub fn linter_exclude_patterns(&self) -> (r: Vec<String>)
        ensures
            r.deep_view() == spec_linter_exclude_patterns(self@),
    {
        let mut patterns = default_exclude_patterns();
        append_unique(&mut patterns, &self.files.excludes);
        append_unique(&mut patterns, &self.linter.excludes);
        patterns
    }

    /// The formatter's include patterns: as for the linter, but with the
    /// formatter's own entries as the last layer.
    pub fn formatter_include_patterns(&self) -> (r: Vec<String>)
        ensures
            r.deep_view() == spec_formatter_include_patterns(self@),
    {
        let mut patterns = default_include_patterns();
        append_unique(&mut patterns, &self.files.includes);
        append_unique(&mut patterns, &self.formatter.includes);
        patterns
    }

    /// The formatter's exclude patterns, composed the same way.
    pub fn formatter_exclude_patterns(&self) -> (r: Vec<String>)
        ensures
            r.deep_view() == spec_formatter_exclude_patterns(self@),
    {
        let mut patterns = default_exclude_patterns();
        append_unique(&mut patterns, &self.files.excludes);
        append_unique(&mut patterns, &self.formatter.excludes);
        patterns
    }

    /// The per-rule overrides, handed to rule resolution.
    pub fn to_linter_config(&self) -> (r: LinterConfig)
        ensures
            r@ == rules_entries(self.linter.rules@),
    {
        let mut rules: Vec<(String, RuleConfig)> = Vec::new();
        let mut i: usize = 0;
        while i < self.linter.rules.len()
            invariant
                i <= self.linter.rules@.len(),
                rules@.len() == i,
                forall|k: int|
                    0 <= k < i ==> rules@[k].0@ == self.linter.rules@[k].0@ && rules@[k].1@
                        == self.linter.rules@[k].1@,
            decreases self.linter.rules@.len() - i,
        {
            let name = self.linter.rules[i].0.clone();
            let config = self.linter.rules[i].1.clone();
            rules.push((name, config));
            i = i + 1;
        }
        let r = LinterConfig { rules };
        proof {
            assert(r@ =~= rules_entries(self.linter.rules@));
        }
        r
    }

    /// The formatter settings handed to the formatting engine.
    pub fn to_formatter_config(&self) -> (r: FormatterConfig)
        ensures
            r.indent_width == self.formatter.indent_width,
            r.max_line_length == self.formatter.max_line_length,
    {
        FormatterConfig {
            indent_width: self.formatter.indent_width,
            max_line_length: self.formatter.max_line_length,
        }
    }
}

// ----------------------------------------------------------------------------
// Building a configuration from optional source fields, applying the
// documented default for every absent one.  A parsed configuration file
// supplies whichever fields it sets; everything else defaults, recursively.
// ----------------------------------------------------------------------------

impl FilesConfig {
    /// File scope from optional source fields: absent lists default to empty.
    pub fn from_parts(includes: Option<Vec<String>>, excludes: Option<Vec<String>>) -> (r: Self)
        ensures
            r@.includes == match includes {
                Some(v) => v.deep_view(),
                None => Seq::<Seq<char>>::empty(),
            },
            r@.excludes == match excludes {
                Some(v) => v.deep_view(),
                None => Seq::<Seq<char>>::empty(),
            },
    {
        FilesConfig {
            includes: patterns_or_empty(includes),
            excludes: patterns_or_empty(excludes),
        }
    }
}

impl HerbLinterConfig {
    /// Linter settings from optional source fields: enabled defaults to
    /// true, the severity threshold to none, pattern lists and rule
    /// overrides to empty.
    pub fn from_parts(
        enabled: Option<bool>,
        fail_level: Option<Severity>,
        includes: Option<Vec<String>>,
        excludes: Option<Vec<String>>,
        rules: Option<Vec<(String, RuleConfig)>>,
    ) -> (r: Self)
        ensures
            r.enabled == enabled.unwrap_or(true),
            r.fail_level == fail_level,
            r@.includes == match includes {
                Some(v) => v.deep_view(),
                None => Seq::<Seq<char>>::empty(),
            },
            r@.excludes == match excludes {
                Some(v) => v.deep_view(),
                None => Seq::<Seq<char>>::empty(),
            },
            r@.rules == match rules {
                Some(v) => rules_entries(v@),
                None => Seq::<(Seq<char>, RuleView)>::empty(),
            },
    {
        let r = HerbLinterConfig {
            enabled: match enabled {
                Some(b) => b,
                None => true,
            },
            fail_level,
            includes: patterns_or_empty(includes),
            excludes: patterns_or_empty(excludes),
            rules: match rules {
                Some(v) => v,
                None => Vec::new(),
            },
        };
        proof {
            if r.rules@.len() == 0 {
                assert(rules_entries(r.rules@) =~= Seq::<(Seq<char>, RuleView)>::empty());
            }
        }
        r
    }
}

impl HerbFormatterConfig {
    /// Formatter settings from optional source fields: enabled defaults to
    /// false, indentation width to 2, maximum line length to 80, pattern
    /// lists to empty.
    pub fn from_parts(
        enabled: Option<bool>,
        indent_width: Option<usize>,
        max_line_length: Option<usize>,
        includes: Option<Vec<String>>,
        excludes: Option<Vec<String>>,
    ) -> (r: Self)
        ensures
            r.enabled == enabled.unwrap_or(false),
            r.indent_width == indent_width.unwrap_or(DEFAULT_INDENT_WIDTH),
            r.max_line_length == max_line_length.unwrap_or(DEFAULT_MAX_LINE_LENGTH),
            r@.includes == match includes {
                Some(v) => v.deep_view(),
                None => Seq::<Seq<char>>::empty(),
            },
            r@.excludes == match excludes {
                Some(v) => v.deep_view(),
                None => Seq::<Seq<char>>::empty(),
            },
    {
        HerbFormatterConfig {
            enabled: match enabled {
                Some(b) => b,
                None => false,
            },
            indent_width: match indent_width {
                Some(w) => w,
                None => DEFAULT_INDENT_WIDTH,
            },
            max_line_length: match max_line_length {
                Some(w) => w,
                None => DEFAULT_MAX_LINE_LENGTH,
            },
            includes: patterns_or_empty(includes),
            excludes: patterns_or_empty(excludes),
        }
    }
}

impl HerbConfig {
    /// A configuration from optional sections: every absent section takes
    /// its documented default, recursively.
    pub fn from_parts(
        version: Option<String>,
        files: Option<FilesConfig>,
        linter: Option<HerbLinterConfig>,
        formatter: Option<HerbFormatterConfig>,
    ) -> (r: Self)
        ensures
            r@.version == match version {
                Some(v) => Some(v@),
                None => None::<Seq<char>>,
            },
            r@.files == match files {
                Some(f) => f@,
                None => default_files_view(),
            },
            r@.linter == match linter {
                Some(l) => l@,
                None => default_linter_settings_view(),
            },
            r@.formatter == match formatter {
                Some(f) => f@,
                None => default_formatter_settings_view(),
            },
    {
        HerbConfig {
            version,
            files: match files {
                Some(f) => f,
                None => FilesConfig::default(),
            },
            linter: match linter {
                Some(l) => l,
                None => HerbLinterConfig::default(),
            },
            formatter: match formatter {
                Some(f) => f,
                None => HerbFormatterConfig::default(),
            },
        }
    }

    /// A scaffold for a new project's configuration file.
    pub fn default_template() -> (r: &'static str)
        ensures
            r@ == spec_default_template(),
    {
        "# Configuration for the herb template linter and formatter.\n#\n# Every key is optional: absent keys take their documented defaults.\n\n# version: \"1.0\"\n\nfiles:\n  include: []\n  exclude: []\n\nlinter:\n  enabled: true\n  # failLevel: error\n  include: []\n  exclude: []\n  rules: {}\n\nformatter:\n  enabled: false\n  indentWidth: 2\n  maxLineLength: 80\n  include: []\n  exclude: []\n"
    }
}

/// The text of the configuration-file scaffold.
pub open spec fn spec_default_template() -> Seq<char> {
    "# Configuration for the herb template linter and formatter.\n#\n# Every key is optional: absent keys take their documented defaults.\n\n# version: \"1.0\"\n\nfiles:\n  include: []\n  exclude: []\n\nlinter:\n  enabled: true\n  # failLevel: error\n  include: []\n  exclude: []\n  rules: {}\n\nformatter:\n  enabled: false\n  indentWidth: 2\n  maxLineLength: 80\n  include: []\n  exclude: []\n"@
}

// ----------------------------------------------------------------------------
// Laws of pattern-list composition.
// ----------------------------------------------------------------------------

/// The built-in pattern sets hold no duplicates.
pub proof fn lemma_default_patterns_unique()
    ensures
        has_unique_patterns(spec_default_include_patterns()),
        has_unique_patterns(spec_default_exclude_patterns()),
{
    reveal_strlit("**/*.herb");
    reveal_strlit("**/*.html.erb");
    reveal_strlit("**/*.html.herb");
    reveal_strlit("**/*.html");
    reveal_strlit("**/*.html+*.erb");
    reveal_strlit("**/*.rhtml");
    reveal_strlit("**/*.turbo_stream.erb");
    reveal_strlit("coverage/**/*");
    reveal_strlit("log/**/*");
    reveal_strlit("node_modules/**/*");
    reveal_strlit("storage/**/*");
    reveal_strlit("tmp/**/*");
    reveal_strlit("vendor/**/*");
    let inc = spec_default_include_patterns();
    // Most entries differ in length; the two of equal length differ at index 6.
    assert(inc[0].len() == 9 && inc[1].len() == 13 && inc[2].len() == 14 && inc[3].len() == 9
        && inc[4].len() == 15 && inc[5].len() == 10 && inc[6].len() == 21);
    assert(inc[0][6] == 'e' && inc[3][6] == 't');
    assert(has_unique_patterns(inc));
    let exc = spec_default_exclude_patterns();
    // The equal-length pairs differ already in their first character.
    assert(exc[0].len() == 13 && exc[1].len() == 8 && exc[2].len() == 17 && exc[3].len() == 12
        && exc[4].len() == 8 && exc[5].len() == 11);
    assert(exc[1][0] == 'l' && exc[4][0] == 't');
    assert(has_unique_patterns(exc));
}

/// Composition is idempotent under duplicate input: however often a pattern
/// occurs across the user-supplied layers, the composed linter include list
/// holds it exactly once.
pub proof fn lemma_linter_include_patterns_unique(v: ConfigView)
    ensures
        has_unique_patterns(spec_linter_include_patterns(v)),
{
    lemma_default_patterns_unique();
    lemma_compose_patterns_unique(spec_default_include_patterns(), v.files.includes);
    lemma_compose_patterns_unique(
        compose_patterns(spec_default_include_patterns(), v.files.includes),
        v.linter.includes,
    );
}

/// A composed list holds exactly the patterns of its three layers.
pub proof fn lemma_linter_include_patterns_membership(v: ConfigView, p: Seq<char>)
    ensures
        spec_linter_include_patterns(v).contains(p) <==> spec_default_include_patterns().contains(
            p,
        ) || v.files.includes.contains(p) || v.linter.includes.contains(p),
{
    lemma_compose_patterns_membership(spec_default_include_patterns(), v.files.includes, p);
    lemma_compose_patterns_membership(
        compose_patterns(spec_default_include_patterns(), v.files.includes),
        v.linter.includes,
    p);
}

/// Linter and formatter pattern lists are independent: a pattern that stands
/// only in the formatter's own include list never appears in the linter's
/// include patterns.
pub proof fn lemma_linter_formatter_independent(v: ConfigView, p: Seq<char>)
    requires
        v.formatter.includes.contains(p),
        !spec_default_include_patterns().contains(p),
        !v.files.includes.contains(p),
        !v.linter.includes.contains(p),
    ensures
        !spec_linter_include_patterns(v).contains(p),
{
    lemma_linter_include_patterns_membership(v, p);
}

} // verus!
