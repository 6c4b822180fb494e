use vstd::prelude::*;

use crate::severity::Severity;

verus! {

/// Per-rule configuration: an enabled flag (default true), an optional
/// severity override (absent means "use the caller-supplied default"), and
/// three pattern lists scoping the rule to paths.  `only` and `includes` are
/// distinct channels: a rule may declare both, and resolution gives `only`
/// absolute precedence.
#[derive(Debug)]
pub struct RuleConfig {
    pub enabled: bool,
    pub severity: Option<Severity>,
    pub includes: Vec<String>,
    pub only: Vec<String>,
    pub excludes: Vec<String>,
}

/// The mathematical content of a `RuleConfig`: the same fields, with the
/// pattern lists as sequences of character sequences.
pub struct RuleView {
    pub enabled: bool,
    pub severity: Option<Severity>,
    pub includes: Seq<Seq<char>>,
    pub only: Seq<Seq<char>>,
    pub excludes: Seq<Seq<char>>,
}

impl View for RuleConfig {
    type V = RuleView;

    open spec fn view(&self) -> RuleView {
        RuleView {
            enabled: self.enabled,
            severity: self.severity,
            includes: self.includes.deep_view(),
            only: self.only.deep_view(),
            excludes: self.excludes.deep_view(),
        }
    }
}

/// The view of an unconfigured rule: enabled, no severity override, empty
/// pattern lists.
pub open spec fn default_rule_view() -> RuleView {
    RuleView {
        enabled: true,
        severity: None,
        includes: Seq::empty(),
        only: Seq::empty(),
        excludes: Seq::empty(),
    }
}

impl Default for RuleConfig {
    /// An unconfigured rule: enabled, no severity override, no patterns.
    fn default() -> (r: Self)
        ensures
            r@ == default_rule_view(),
    {
        let r = RuleConfig {
            enabled: true,
            severity: None,
            includes: Vec::new(),
            only: Vec::new(),
            excludes: Vec::new(),
        };
        proof {
            assert(r.includes.deep_view() =~= Seq::<Seq<char>>::empty());
            assert(r.only.deep_view() =~= Seq::<Seq<char>>::empty());
            assert(r.excludes.deep_view() =~= Seq::<Seq<char>>::empty());
        }
        r
    }
}

impl Clone for RuleConfig {
    /// A clone carries the same view as the original.
    fn clone(&self) -> (r: Self)
        ensures
            r@ == self@,
    {
        RuleConfig {
            enabled: self.enabled,
            severity: self.severity,
            includes: crate::pattern_list::clone_patterns(&self.includes),
            only: crate::pattern_list::clone_patterns(&self.only),
            excludes: crate::pattern_list::clone_patterns(&self.excludes),
        }
    }
}

impl RuleConfig {
    /// Builds a rule configuration from optional source fields, applying the
    /// documented default for every absent one: enabled, no severity
    /// override, empty pattern lists.
    pub fn from_parts(
        enabled: Option<bool>,
        severity: Option<Severity>,
        includes: Option<Vec<String>>,
        only: Option<Vec<String>>,
        excludes: Option<Vec<String>>,
    ) -> (r: Self)
        ensures
            r.enabled == enabled.unwrap_or(true),
            r.severity == severity,
            r@.includes == match includes {
                Some(v) => v.deep_view(),
                None => Seq::<Seq<char>>::empty(),
            },
            r@.only == match only {
                Some(v) => v.deep_view(),
                None => Seq::<Seq<char>>::empty(),
            },
            r@.excludes == match excludes {
                Some(v) => v.deep_view(),
                None => Seq::<Seq<char>>::empty(),
            },
    {
        RuleConfig {
            enabled: match enabled {
                Some(b) => b,
                None => true,
            },
            severity,
            includes: crate::pattern_list::patterns_or_empty(includes),
            only: crate::pattern_list::patterns_or_empty(only),
            excludes: crate::pattern_list::patterns_or_empty(excludes),
        }
    }
}

} // verus!
