//! Intervals of byte offsets, and their conversion to lines and columns.

use vstd::prelude::*;
use vstd::string::StringSliceAdditionalSpecFns;

verus! {

/// A closed interval `[start, end]` of byte offsets into the program text.
#[derive(Debug, Clone, Copy, Eq)]
pub struct SourceRange(pub [usize; 2]);

impl PartialEq for SourceRange {
    fn eq(&self, other: &Self) -> (same: bool) {
        self.0[0] == other.0[0] && self.0[1] == other.0[1]
    }
}

impl vstd::std_specs::cmp::PartialEqSpecImpl for SourceRange {
    open spec fn obeys_eq_spec() -> bool {
        true
    }

    open spec fn eq_spec(&self, other: &Self) -> bool {
        self.0[0] == other.0[0] && self.0[1] == other.0[1]
    }
}

impl SourceRange {
    /// The interval from `start` to `end`.
    pub fn new(start: usize, end: usize) -> (range: Self)
        ensures
            range@ == (start, end),
    {
        SourceRange([start, end])
    }

    /// The two ends of the interval.
    pub open spec fn view(&self) -> (usize, usize) {
        (self.0[0], self.0[1])
    }

    /// The first offset of the interval.
    #[verifier::when_used_as_spec(spec_start)]
    pub fn start(&self) -> (start: usize)
        ensures
            start == self.spec_start(),
    {
        self.0[0]
    }

    pub open spec fn spec_start(&self) -> usize {
        self.0[0]
    }

    /// The last offset of the interval.
    #[verifier::when_used_as_spec(spec_end)]
    pub fn end(&self) -> (end: usize)
        ensures
            end == self.spec_end(),
    {
        self.0[1]
    }

    pub open spec fn spec_end(&self) -> usize {
        self.0[1]
    }

    /// Whether `pos` lies in the interval, both ends included.
    #[verifier::when_used_as_spec(spec_contains)]
    pub fn contains(&self, pos: usize) -> (inside: bool)
        ensures
            inside == self.spec_contains(pos),
    {
        self.0[0] <= pos && pos <= self.0[1]
    }

    pub open spec fn spec_contains(&self, pos: usize) -> bool {
        self.0[0] <= pos <= self.0[1]
    }
}

/// What a list of intervals holds: the two ends of each.
pub open spec fn ranges_view(ranges: Vec<SourceRange>) -> Seq<(usize, usize)> {
    Seq::new(ranges.len() as nat, |i: int| ranges[i]@)
}

/// The list of the one interval given.
pub fn single_range(range: SourceRange) -> (ranges: Vec<SourceRange>)
    ensures
        ranges_view(ranges) == seq![range@],
{
    let mut ranges: Vec<SourceRange> = Vec::new();
    ranges.push(range);
    assert(ranges_view(ranges) =~= seq![range@]);
    ranges
}

/// A copy of a list of intervals.
pub fn copy_ranges(ranges: &Vec<SourceRange>) -> (copy: Vec<SourceRange>)
    ensures
        ranges_view(copy) == ranges_view(*ranges),
{
    let mut copy: Vec<SourceRange> = Vec::new();
    let mut i: usize = 0;
    while i < ranges.len()
        invariant
            i <= ranges.len(),
            copy.len() == i,
            forall|j: int| 0 <= j < i ==> copy[j] == ranges[j],
        decreases ranges.len() - i,
    {
        copy.push(ranges[i]);
        i += 1;
    }
    assert(ranges_view(copy) =~= ranges_view(*ranges));
    copy
}

/// A place in a text by line and column, both counted from zero. The column
/// counts bytes.
#[derive(Debug, Clone, Copy, PartialEq, Eq, Structural)]
pub struct LspPosition {
    pub line: u32,
    pub character: u32,
}

/// A stretch of a text between two places.
#[derive(Debug, Clone, Copy, PartialEq, Eq, Structural)]
pub struct LspRange {
    pub start: LspPosition,
    pub end: LspPosition,
}

/// The number of line ends among the first `offset` bytes.
pub open spec fn newlines_before(bytes: Seq<u8>, offset: int) -> int
    decreases offset,
{
    if offset <= 0 {
        0
    } else if offset <= bytes.len() && bytes[offset - 1] == 10u8 {
        newlines_before(bytes, offset - 1) + 1
    } else {
        newlines_before(bytes, offset - 1)
    }
}

/// The offset at which the line begins that the byte at `offset` stands in: the
/// offset just behind the last line end before `offset`, or 0.
pub open spec fn line_start(bytes: Seq<u8>, offset: int) -> int
    decreases offset,
{
    if offset <= 0 {
        0
    } else if offset <= bytes.len() && bytes[offset - 1] == 10u8 {
        offset
    } else {
        line_start(bytes, offset - 1)
    }
}

/// Line and column of the byte at `offset` in a text. An offset behind the end
/// of the text counts as its end.
pub open spec fn position_in(bytes: Seq<u8>, offset: usize) -> LspPosition {
    let at = if offset <= bytes.len() {
        offset as int
    } else {
        bytes.len() as int
    };
    LspPosition {
        line: newlines_before(bytes, at) as u32,
        character: (at - line_start(bytes, at)) as u32,
    }
}

/// Line and column of the byte at `offset` in `code`.
pub fn lsp_position(code: &str, offset: usize) -> (position: LspPosition)
    ensures
        position == position_in(code.spec_bytes(), offset),
{
    let bytes = code.as_bytes();
    let at = if offset <= bytes.len() {
        offset
    } else {
        bytes.len()
    };
    let mut lines: usize = 0;
    let mut start: usize = 0;
    let mut i: usize = 0;
    while i < at
        invariant
            i <= at <= bytes.len(),
            lines <= i,
            start <= i,
            lines == newlines_before(bytes@, i as int),
            start == line_start(bytes@, i as int),
        decreases at - i,
    {
        if bytes[i] == 10u8 {
            lines += 1;
            start = i + 1;
        }
        i += 1;
    }
    LspPosition {
        line: #[verifier::truncate]
        (lines as u32),
        character: #[verifier::truncate]
        ((at - start) as u32),
    }
}

impl SourceRange {
    /// Line and column of the first offset of the interval.
    pub fn start_to_lsp_position(&self, code: &str) -> (position: LspPosition)
        ensures
            position == position_in(code.spec_bytes(), self.start()),
    {
        lsp_position(code, self.start())
    }

    /// Line and column of the last offset of the interval.
    pub fn end_to_lsp_position(&self, code: &str) -> (position: LspPosition)
        ensures
            position == position_in(code.spec_bytes(), self.end()),
    {
        lsp_position(code, self.end())
    }

    /// The interval by lines and columns.
    pub fn to_lsp_range(&self, code: &str) -> (range: LspRange)
        ensures
            range == lsp_range_in(code.spec_bytes(), self.start(), self.end()),
    {
        LspRange { start: self.start_to_lsp_position(code), end: self.end_to_lsp_position(code) }
    }
}

/// The stretch of a text from the byte at `start` to the byte at `end`.
pub open spec fn lsp_range_in(bytes: Seq<u8>, start: usize, end: usize) -> LspRange {
    LspRange { start: position_in(bytes, start), end: position_in(bytes, end) }
}

} // verus!
