use vstd::prelude::*;

verus! {

/// Default indentation width of the formatter.
pub const DEFAULT_INDENT_WIDTH: usize = 2;

/// Default maximum line length of the formatter.
pub const DEFAULT_MAX_LINE_LENGTH: usize = 80;

/// The formatter settings handed to the formatting engine: indentation width
/// and maximum line length.
#[derive(Debug, Clone, Copy, PartialEq, Eq, Structural)]
pub struct FormatterConfig {
    pub indent_width: usize,
    pub max_line_length: usize,
}

impl Default for FormatterConfig {
    /// The documented defaults: an indentation width of 2 and a maximum line
    /// length of 80.
    fn default() -> (r: Self)
        ensures
            r.indent_width == DEFAULT_INDENT_WIDTH,
            r.max_line_length == DEFAULT_MAX_LINE_LENGTH,
    {
        FormatterConfig { indent_width: DEFAULT_INDENT_WIDTH, max_line_length: DEFAULT_MAX_LINE_LENGTH }
    }
}

impl FormatterConfig {
    /// Formatter settings with the documented defaults.
    pub fn new() -> (r: Self)
        ensures
            r.indent_width == DEFAULT_INDENT_WIDTH,
            r.max_line_length == DEFAULT_MAX_LINE_LENGTH,
    {
        Self::default()
    }
}

} // verus!
