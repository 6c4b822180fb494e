use vstd::prelude::*;

verus! {

/// Flags handed to the document-parsing engine: whitespace tracking,
/// semantic analysis, and strictness.
#[derive(Debug, Clone, Copy, PartialEq, Eq, Structural)]
pub struct ParserOptions {
    pub track_whitespace: bool,
    pub analyze: bool,
    pub strict: bool,
}

impl Default for ParserOptions {
    /// The default parse: no whitespace tracking, analysis on, strict.
    fn default() -> (r: Self)
        ensures
            !r.track_whitespace,
            r.analyze,
            r.strict,
    {
        ParserOptions { track_whitespace: false, analyze: true, strict: true }
    }
}

/// Flags handed to the embedded-code extraction engine: whether to add
/// semicolons, keep comments, and preserve source positions.
#[derive(Debug, Clone, Copy, PartialEq, Eq, Structural)]
pub struct ExtractRubyOptions {
    pub semicolons: bool,
    pub comments: bool,
    pub preserve_positions: bool,
}

impl Default for ExtractRubyOptions {
    /// The default extraction: semicolons added, comments dropped, positions
    /// preserved.
    fn default() -> (r: Self)
        ensures
            r.semicolons,
            !r.comments,
            r.preserve_positions,
    {
        ExtractRubyOptions { semicolons: true, comments: false, preserve_positions: true }
    }
}

} // verus!
