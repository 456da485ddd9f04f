//! Bidirectional conversion between offsets into a text and zero-based
//! line/column positions.
//!
//! A text is modelled as its sequence of characters; an offset is an index
//! into that sequence, valid in `[0, len]`. A position counts the newline
//! characters before the offset (`line`) and the characters since the most
//! recent newline (`column`). Out-of-range inputs are clamped, never
//! rejected.

use vstd::prelude::*;

verus! {

/// A zero-based line/column position in a text. `line` counts preceding
/// newline characters; `column` counts characters since the last newline
/// (or since the start of the text, on the first line).
#[derive(Clone, Copy, PartialEq, Eq, Structural, Debug)]
pub struct SourcePosition {
    pub line: usize,
    pub column: usize,
}

/// An inclusive range `[start, end]` of offsets within one file's text.
#[derive(Clone, Copy, PartialEq, Eq, Structural, Debug)]
pub struct Span {
    pub start: usize,
    pub end: usize,
}

impl Span {
    /// A well-formed span does not end before it starts.
    pub open spec fn wf(self) -> bool {
        self.start <= self.end
    }
}

/// Number of newline characters among the first `o` characters of `t`.
pub open spec fn newline_count(t: Seq<char>, o: int) -> int
    decreases o,
{
    if o <= 0 {
        0
    } else {
        newline_count(t, o - 1) + if t[o - 1] == '\n' {
            1int
        } else {
            0int
        }
    }
}

/// First character of the line containing offset `o`: one past the last
/// newline strictly before `o`, or `0` when no newline precedes it.
pub open spec fn line_start(t: Seq<char>, o: int) -> int
    decreases o,
{
    if o <= 0 {
        0
    } else if t[o - 1] == '\n' {
        o
    } else {
        line_start(t, o - 1)
    }
}

/// An offset clamped to the valid range `[0, len]`.
pub open spec fn clamp_offset(t: Seq<char>, o: int) -> int {
    if o > t.len() {
        t.len() as int
    } else {
        o
    }
}

/// The line of the position that offset `o` (clamped) denotes in `t`.
pub open spec fn line_at(t: Seq<char>, o: int) -> int {
    newline_count(t, clamp_offset(t, o))
}

/// The column of the position that offset `o` (clamped) denotes in `t`.
pub open spec fn column_at(t: Seq<char>, o: int) -> int {
    clamp_offset(t, o) - line_start(t, clamp_offset(t, o))
}

/// Scan of `t` from index `i`: the index reached after skipping `remaining`
/// further newlines, clamped to the end of the text.
pub open spec fn start_of_line_from(t: Seq<char>, i: int, remaining: int) -> int
    decreases t.len() - i,
{
    if remaining <= 0 {
        i
    } else if i >= t.len() {
        t.len() as int
    } else if t[i] == '\n' {
        start_of_line_from(t, i + 1, remaining - 1)
    } else {
        start_of_line_from(t, i + 1, remaining)
    }
}

/// Index of the first character of line `line`, clamped to the end of the
/// text when the text has fewer lines.
pub open spec fn start_of_line(t: Seq<char>, line: int) -> int {
    start_of_line_from(t, 0, line)
}

/// The offset that the position `(line, column)` denotes in `t`: the start
/// of `line` plus `column`. A line beyond the last line of the text, or a
/// column running past the end of the text, clamps to `len`.
pub open spec fn offset_at(t: Seq<char>, line: int, column: int) -> int {
    if line > newline_count(t, t.len() as int) {
        t.len() as int
    } else if start_of_line(t, line) + column > t.len() {
        t.len() as int
    } else {
        start_of_line(t, line) + column
    }
}

/// Counting newlines over a longer prefix never counts fewer.
pub proof fn lemma_newline_count_monotonic(t: Seq<char>, i: int, j: int)
    requires
        0 <= i <= j,
    ensures
        newline_count(t, i) <= newline_count(t, j),
    decreases j,
{
    if i < j {
        lemma_newline_count_monotonic(t, i, j - 1);
    }
}

/// `line_start(t, o)` lies in `[0, o]`, sits at the start of the text or
/// right after a newline, and no newline lies between it and `o`.
proof fn lemma_line_start_properties(t: Seq<char>, o: int)
    requires
        0 <= o <= t.len(),
    ensures
        0 <= line_start(t, o) <= o,
        line_start(t, o) == 0 || t[line_start(t, o) - 1] == '\n',
        forall|k: int| line_start(t, o) <= k < o ==> t[k] != '\n',
    decreases o,
{
    if o > 0 && t[o - 1] != '\n' {
        lemma_line_start_properties(t, o - 1);
    }
}

/// A stretch of text without newlines adds nothing to the newline count.
proof fn lemma_newline_count_stable(t: Seq<char>, s: int, o: int)
    requires
        0 <= s <= o,
        forall|k: int| s <= k < o ==> t[k] != '\n',
    ensures
        newline_count(t, s) == newline_count(t, o),
    decreases o,
{
    if s < o {
        lemma_newline_count_stable(t, s, o - 1);
    }
}

/// Scanning forward from `i` for the newlines that separate `i` from a line
/// start `s` lands exactly on `s`.
proof fn lemma_scan_reaches_line_start(t: Seq<char>, i: int, s: int)
    requires
        0 <= i <= s <= t.len(),
        s == 0 || t[s - 1] == '\n',
    ensures
        start_of_line_from(t, i, newline_count(t, s) - newline_count(t, i)) == s,
    decreases s - i,
{
    if i < s {
        lemma_newline_count_monotonic(t, i, s - 1);
        lemma_scan_reaches_line_start(t, i + 1, s);
    }
}

/// Round trip: converting any valid offset of a text to a line/column
/// position and that position back to an offset returns the same offset.
pub proof fn lemma_position_round_trip(t: Seq<char>, o: int)
    requires
        0 <= o <= t.len(),
    ensures
        offset_at(t, line_at(t, o), column_at(t, o)) == o,
{
    let s = line_start(t, o);
    lemma_line_start_properties(t, o);
    lemma_newline_count_stable(t, s, o);
    lemma_scan_reaches_line_start(t, 0, s);
    lemma_newline_count_monotonic(t, o, t.len() as int);
    assert(newline_count(t, 0) == 0);
    assert(start_of_line(t, line_at(t, o)) == s);
}

/// Converts an offset into `text` to the line/column position it denotes.
/// Offsets beyond the end of the text are clamped to its length.
pub fn offset_to_position(text: &str, offset: usize) -> (p: SourcePosition)
    ensures
        p.line == line_at(text@, offset as int),
        p.column == column_at(text@, offset as int),
{
    let n = text.unicode_len();
    let o = if offset > n {
        n
    } else {
        offset
    };
    let mut i: usize = 0;
    let mut line: usize = 0;
    let mut start: usize = 0;
    while i < o
        invariant
            i <= o <= n,
            n == text@.len(),
            o == clamp_offset(text@, offset as int),
            line <= i,
            start <= i,
            line == newline_count(text@, i as int),
            start == line_start(text@, i as int),
        decreases o - i,
    {
        let c = text.get_char(i);
        if c == '\n' {
            line = line + 1;
            start = i + 1;
        }
        i = i + 1;
    }
    SourcePosition { line, column: o - start }
}

/// Converts a line/column position over `text` to the offset it denotes.
/// A line beyond the last line of the text, or a column running past the
/// end of the text, clamps to the text's length.
pub fn position_to_offset(text: &str, line: usize, column: usize) -> (r: usize)
    ensures
        r == offset_at(text@, line as int, column as int),
{
    let n = text.unicode_len();
    let mut i: usize = 0;
    let mut l: usize = 0;
    while i < n && l < line
        invariant
            i <= n,
            l <= line,
            n == text@.len(),
            l == newline_count(text@, i as int),
            start_of_line_from(text@, i as int, line - l) == start_of_line(text@, line as int),
        decreases n - i,
    {
        if text.get_char(i) == '\n' {
            l = l + 1;
        }
        i = i + 1;
    }
    proof {
        lemma_newline_count_monotonic(text@, i as int, n as int);
    }
    if l < line {
        n
    } else {
        if column > n - i {
            n
        } else {
            i + column
        }
    }
}

} // verus!
