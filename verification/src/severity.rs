use vstd::prelude::*;

verus! {

/// Severity of a diagnostic: four distinct literal tags with no implicit
/// ranking.  Serializes to and from lowercase text identical to the tag name.
#[derive(Debug, Clone, Copy, PartialEq, Eq, Structural)]
pub enum Severity {
    Error,
    Warning,
    Info,
    Hint,
}

/// The lowercase text form of a severity tag.
pub open spec fn spec_severity_str(s: Severity) -> Seq<char> {
    match s {
        Severity::Error => "error"@,
        Severity::Warning => "warning"@,
        Severity::Info => "info"@,
        Severity::Hint => "hint"@,
    }
}

impl Severity {
    /// The lowercase name of the tag, e.g. `"warning"` for `Severity::Warning`.
    pub fn as_str(&self) -> (r: &'static str)
        ensures
            r@ == spec_severity_str(*self),
    {
        match self {
            Severity::Error => "error",
            Severity::Warning => "warning",
            Severity::Info => "info",
            Severity::Hint => "hint",
        }
    }
}

} // verus!
