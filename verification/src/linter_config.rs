use vstd::prelude::*;

use crate::glob::any_pattern_matches;
use crate::glob::is_path_matching;
use crate::rule_config::RuleConfig;
use crate::rule_config::RuleView;
use crate::severity::Severity;

verus! {

/// The per-rule overrides of the linter, as a key-unique association from
/// rule name to rule configuration.  Resolution depends only on lookup, never
/// on entry order.
#[derive(Debug)]
pub struct LinterConfig {
    pub rules: Vec<(String, RuleConfig)>,
}

/// Looks a rule name up among the configured overrides: the first entry whose
/// name equals `name`, if any.
pub open spec fn lookup_rule(entries: Seq<(Seq<char>, RuleView)>, name: Seq<char>) -> Option<
    RuleView,
>
    decreases entries.len(),
{
    if entries.len() == 0 {
        None
    } else if entries[0].0 == name {
        Some(entries[0].1)
    } else {
        lookup_rule(entries.skip(1), name)
    }
}

impl View for LinterConfig {
    type V = Seq<(Seq<char>, RuleView)>;

    open spec fn view(&self) -> Seq<(Seq<char>, RuleView)> {
        Seq::new(self.rules@.len(), |i: int| (self.rules@[i].0@, self.rules@[i].1@))
    }
}

/// Whether the rule named `name` counts as enabled: its configured flag where
/// an override exists, the caller-supplied default otherwise.
pub open spec fn spec_is_rule_enabled(
    entries: Seq<(Seq<char>, RuleView)>,
    name: Seq<char>,
    default_enabled: bool,
) -> bool {
    match lookup_rule(entries, name) {
        Some(c) => c.enabled,
        None => default_enabled,
    }
}

/// The severity of the rule named `name`: its configured override where one
/// is set, the caller-supplied default otherwise.
pub open spec fn spec_get_severity(
    entries: Seq<(Seq<char>, RuleView)>,
    name: Seq<char>,
    default_severity: Severity,
) -> Severity {
    match lookup_rule(entries, name) {
        Some(c) => match c.severity {
            Some(s) => s,
            None => default_severity,
        },
        None => default_severity,
    }
}

/// Whether the rule named `name` is active for `path`, by the precedence
/// order:
/// 1. without an override, only the caller-supplied default excludes apply;
/// 2. a non-empty `only` list decides: active iff the path matches `only`
///    and not the rule's own excludes (`includes` is then ignored);
/// 3. else a non-empty `includes` list decides the same way;
/// 4. else a path matching the rule's own excludes is inactive;
/// 5. the caller-supplied default excludes apply only when the rule declares
///    no non-empty exclude list of its own;
/// 6. otherwise the rule is active.
pub open spec fn spec_rule_active(
    entries: Seq<(Seq<char>, RuleView)>,
    name: Seq<char>,
    path: Seq<char>,
    default_exclude: Seq<Seq<char>>,
) -> bool {
    match lookup_rule(entries, name) {
        Some(c) => if c.only.len() > 0 {
            any_pattern_matches(path, c.only) && !any_pattern_matches(path, c.excludes)
        } else if c.includes.len() > 0 {
            any_pattern_matches(path, c.includes) && !any_pattern_matches(path, c.excludes)
        } else if any_pattern_matches(path, c.excludes) {
            false
        } else if c.excludes.len() > 0 {
            true
        } else {
            !any_pattern_matches(path, default_exclude)
        },
        None => !any_pattern_matches(path, default_exclude),
    }
}

/// A rule without a configured override takes the caller-supplied defaults:
/// `spec_is_rule_enabled` yields the default enabled flag and
/// `spec_get_severity` the default severity.
pub proof fn lemma_unconfigured_rule_defaults(
    entries: Seq<(Seq<char>, RuleView)>,
    name: Seq<char>,
    default_enabled: bool,
    default_severity: Severity,
)
    requires
        lookup_rule(entries, name) is None,
    ensures
        spec_is_rule_enabled(entries, name, default_enabled) == default_enabled,
        spec_get_severity(entries, name, default_severity) == default_severity,
{
}

impl Default for LinterConfig {
    /// A linter configuration without any per-rule overrides.
    fn default() -> (r: Self)
        ensures
            r@ == Seq::<(Seq<char>, RuleView)>::empty(),
    {
        let r = LinterConfig { rules: Vec::new() };
        proof {
            assert(r@ =~= Seq::<(Seq<char>, RuleView)>::empty());
        }
        r
    }
}

impl LinterConfig {
    /// A linter configuration without any per-rule overrides.
    pub fn new() -> (r: Self)
        ensures
            r@ == Seq::<(Seq<char>, RuleView)>::empty(),
    {
        Self::default()
    }

    /// The configured override for the rule named `rule_name`, if any.
    pub fn get_rule_config(&self, rule_name: &str) -> (r: Option<&RuleConfig>)
        ensures
            match r {
                Some(c) => lookup_rule(self@, rule_name@) == Some(c@),
                None => lookup_rule(self@, rule_name@) is None,
            },
    {
        let needle: String = rule_name.to_owned();
        let ghost entries = self@;
        let mut i: usize = 0;
        proof {
            assert(entries.skip(0) =~= entries);
        }
        while i < self.rules.len()
            invariant
                i <= self.rules@.len(),
                entries == self@,
                needle@ == rule_name@,
                entries.len() == self.rules@.len(),
                forall|k: int| 0 <= k < i ==> entries[k].0 != rule_name@,
                lookup_rule(entries, rule_name@) == lookup_rule(
                    entries.skip(i as int),
                    rule_name@,
                ),
            decreases self.rules@.len() - i,
        {
            proof {
                assert(entries.skip(i as int)[0] == entries[i as int]);
                assert(entries.skip(i as int).skip(1) =~= entries.skip(i + 1 as int));
            }
            if self.rules[i].0 == needle {
                assert(entries[i as int].0 == rule_name@);
                return Some(&self.rules[i].1);
            }
            i = i + 1;
        }
        assert(entries.skip(entries.len() as int) =~= Seq::<(Seq<char>, RuleView)>::empty());
        None
    }

    /// The enabled flag of the rule's override, or `default_enabled` where
    /// the rule has no override.
    pub fn is_rule_enabled(&self, rule_name: &str, default_enabled: bool) -> (r: bool)
        ensures
            r == spec_is_rule_enabled(self@, rule_name@, default_enabled),
    {
        match self.get_rule_config(rule_name) {
            Some(config) => config.enabled,
            None => default_enabled,
        }
    }

    /// The severity override of the rule, or `default_severity` where the
    /// rule has none (no override at all, or an override without a severity).
    pub fn get_severity(&self, rule_name: &str, default_severity: Severity) -> (r: Severity)
        ensures
            r == spec_get_severity(self@, rule_name@, default_severity),
    {
        match self.get_rule_config(rule_name) {
            Some(config) => match config.severity {
                Some(s) => s,
                None => default_severity,
            },
            None => default_severity,
        }
    }

    /// Whether the rule named `rule_name` is active for `file_path`, by the
    /// precedence order of `spec_rule_active`: `only` beats `includes`, both
    /// beat the rule's own excludes' fallback, and the caller-supplied
    /// `default_exclude` list applies only to rules without a non-empty
    /// exclude list of their own.
    pub fn is_rule_enabled_for_path(
        &self,
        rule_name: &str,
        file_path: &str,
        default_exclude: &[String],
    ) -> (r: bool)
        ensures
            r == spec_rule_active(self@, rule_name@, file_path@, default_exclude.deep_view()),
    {
        if let Some(config) = self.get_rule_config(rule_name) {
            if config.only.len() > 0 {
                if !is_path_matching(file_path, config.only.as_slice()) {
                    return false;
                }
                return !is_path_matching(file_path, config.excludes.as_slice());
            }
            if config.includes.len() > 0 {
                if !is_path_matching(file_path, config.includes.as_slice()) {
                    return false;
                }
                return !is_path_matching(file_path, config.excludes.as_slice());
            }
            if is_path_matching(file_path, config.excludes.as_slice()) {
                return false;
            }
            if config.excludes.len() > 0 {
                return true;
            }
        }
        !is_path_matching(file_path, default_exclude)
    }
}

} // verus!
