use vstd::prelude::*;

verus! {

/// A point in a source document, as a line and a column.
#[derive(Debug, Clone, Copy, PartialEq, Eq, Hash, Structural)]
pub struct Position {
    pub line: u32,
    pub column: u32,
}

impl Position {
    /// The position at `line` and `column`.
    pub fn new(line: u32, column: u32) -> (r: Self)
        ensures
            r.line == line,
            r.column == column,
    {
        Position { line, column }
    }
}

/// A span in a source document, from a start position to an end position.
#[derive(Debug, Clone, Copy, PartialEq, Eq, Hash, Structural)]
pub struct Location {
    pub start: Position,
    pub end: Position,
}

/// The decimal digit character for `d`.
pub open spec fn spec_digit_char(d: int) -> char {
    if d == 0 {
        '0'
    } else if d == 1 {
        '1'
    } else if d == 2 {
        '2'
    } else if d == 3 {
        '3'
    } else if d == 4 {
        '4'
    } else if d == 5 {
        '5'
    } else if d == 6 {
        '6'
    } else if d == 7 {
        '7'
    } else if d == 8 {
        '8'
    } else {
        '9'
    }
}

/// The decimal digits of `n`, most significant first.
pub open spec fn spec_decimal_digits(n: int) -> Seq<char>
    decreases n,
{
    if n < 10 {
        seq![spec_digit_char(n)]
    } else {
        spec_decimal_digits(n / 10) + seq![spec_digit_char(n % 10)]
    }
}

/// The text of a position: line, `:`, column, both in decimal.
pub open spec fn spec_position_text(p: Position) -> Seq<char> {
    spec_decimal_digits(p.line as int) + ":"@ + spec_decimal_digits(p.column as int)
}

/// The text of a location: its start and end positions joined with `-`.
pub open spec fn spec_location_text(l: Location) -> Seq<char> {
    spec_position_text(l.start) + "-"@ + spec_position_text(l.end)
}

/// The decimal digit for `d` as text.
fn digit_str(d: u32) -> (r: &'static str)
    requires
        d < 10,
    ensures
        r@ == seq![spec_digit_char(d as int)],
{
    proof {
        reveal_strlit("0");
        reveal_strlit("1");
        reveal_strlit("2");
        reveal_strlit("3");
        reveal_strlit("4");
        reveal_strlit("5");
        reveal_strlit("6");
        reveal_strlit("7");
        reveal_strlit("8");
        reveal_strlit("9");
    }
    let r = match d {
        0 => "0",
        1 => "1",
        2 => "2",
        3 => "3",
        4 => "4",
        5 => "5",
        6 => "6",
        7 => "7",
        8 => "8",
        _ => "9",
    };
    proof {
        assert(r@ =~= seq![spec_digit_char(d as int)]);
    }
    r
}

/// Renders `n` in decimal.
fn u32_to_decimal(n: u32) -> (r: String)
    ensures
        r@ == spec_decimal_digits(n as int),
    decreases n,
{
    if n < 10 {
        digit_str(n).to_owned()
    } else {
        let mut s = u32_to_decimal(n / 10);
        s.append(digit_str(n % 10));
        s
    }
}

impl Location {
    /// The span from `start` to `end`.
    pub fn new(start: Position, end: Position) -> (r: Self)
        ensures
            r.start == start,
            r.end == end,
    {
        Location { start, end }
    }

    /// The span between the two given line/column pairs.
    pub fn from(start_line: u32, start_column: u32, end_line: u32, end_column: u32) -> (r: Self)
        ensures
            r.start.line == start_line,
            r.start.column == start_column,
            r.end.line == end_line,
            r.end.column == end_column,
    {
        Location {
            start: Position::new(start_line, start_column),
            end: Position::new(end_line, end_column),
        }
    }

    /// The location as text: start and end as `line:column`, joined with `-`.
    pub fn inspect(&self) -> (r: String)
        ensures
            r@ == spec_location_text(*self),
    {
        let mut s = u32_to_decimal(self.start.line);
        s.append(":");
        let c = u32_to_decimal(self.start.column);
        s.append(c.as_str());
        s.append("-");
        let el = u32_to_decimal(self.end.line);
        s.append(el.as_str());
        s.append(":");
        let ec = u32_to_decimal(self.end.column);
        s.append(ec.as_str());
        proof {
            assert(s@ =~= spec_location_text(*self));
        }
        s
    }
}

} // verus!
