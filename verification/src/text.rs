//! Plain positional data: offset spans, line/column coordinates, and the
//! line index that translates between the two.

use vstd::prelude::*;

verus! {

/// A half-open span `[start, end)` of character offsets inside one document.
#[derive(Clone, Copy, Debug, PartialEq, Eq, Structural)]
pub struct TextRange {
    pub start: u32,
    pub end: u32,
}

impl TextRange {
    pub open spec fn wf(self) -> bool {
        self.start <= self.end
    }

    pub fn new(start: u32, end: u32) -> (r: TextRange)
        requires
            start <= end,
        ensures
            r == (TextRange { start, end }),
    {
        TextRange { start, end }
    }

    pub open spec fn spec_contains(self, offset: u32) -> bool {
        self.start <= offset < self.end
    }

    /// Whether `offset` lies inside this half-open span.
    pub fn contains_offset(&self, offset: u32) -> (r: bool)
        ensures
            r == self.spec_contains(offset),
    {
        self.start <= offset && offset < self.end
    }
}

/// A line/column pair, both zero-based, columns counted in characters.
#[derive(Clone, Copy, Debug, PartialEq, Eq, Structural)]
pub struct Position {
    pub line: u32,
    pub character: u32,
}

/// A half-open region between two line/column positions.
#[derive(Clone, Copy, Debug, PartialEq, Eq, Structural)]
pub struct Range {
    pub start: Position,
    pub end: Position,
}

/// One occurrence of a symbol: the owning document's URI and the region the
/// occurrence spans, in line/column coordinates.
#[derive(Clone, Debug, PartialEq, Eq)]
pub struct Location {
    pub uri: String,
    pub range: Range,
}

/// The character offsets at which each line of a document starts.  Entry 0 is
/// always 0; every further entry is one past a line break.
#[derive(Clone, Debug)]
pub struct LineIndex {
    pub line_starts: Vec<u32>,
}

/// The start offsets contributed by the line breaks of `s`: one entry per
/// `'\n'`, holding the offset just after it.
pub open spec fn newline_starts(s: Seq<char>) -> Seq<u32>
    decreases s.len(),
{
    if s.len() == 0 {
        Seq::empty()
    } else {
        newline_starts(s.drop_last()) + if s.last() == '\n' {
            seq![s.len() as u32]
        } else {
            Seq::empty()
        }
    }
}

/// All line start offsets of `s`: offset 0, then one entry per line break.
pub open spec fn line_starts_spec(s: Seq<char>) -> Seq<u32> {
    seq![0u32] + newline_starts(s)
}

impl LineIndex {
    /// Starts are strictly increasing, begin at offset 0, and are few enough
    /// to index with a `u32`.
    pub open spec fn wf(self) -> bool {
        &&& self.line_starts@.len() >= 1
        &&& self.line_starts@[0] == 0
        &&& forall|i: int, j: int|
            0 <= i < j < self.line_starts@.len() ==> self.line_starts@[i] < self.line_starts@[j]
        &&& self.line_starts@.len() <= 0xffff_ffff
    }

    /// Builds the line index of `text`.
    pub fn new(text: &str) -> (r: LineIndex)
        requires
            text@.len() < 0xffff_ffff,
        ensures
            r.line_starts@ == line_starts_spec(text@),
            r.wf(),
    {
        let len = text.unicode_len();
        let mut starts: Vec<u32> = Vec::new();
        starts.push(0);
        assert(text@.take(0) =~= Seq::<char>::empty());
        assert(starts@ =~= line_starts_spec(text@.take(0)));
        let mut i: usize = 0;
        while i < len
            invariant
                len == text@.len() < 0xffff_ffff,
                0 <= i <= len,
                starts@ == line_starts_spec(text@.take(i as int)),
                starts@.len() >= 1,
                starts@[0] == 0,
                forall|a: int, b: int|
                    0 <= a < b < starts@.len() ==> starts@[a] < starts@[b],
                forall|a: int| 0 <= a < starts@.len() ==> #[trigger] starts@[a] <= i,
                starts@.len() <= i + 1,
            decreases len - i,
        {
            let c = text.get_char(i);
            proof {
                assert(text@.take(i + 1).drop_last() =~= text@.take(i as int));
                assert(text@.take(i + 1).last() == text@[i as int]);
            }
            if c == '\n' {
                starts.push((i + 1) as u32);
            }
            assert(starts@ =~= line_starts_spec(text@.take(i + 1)));
            i = i + 1;
        }
        assert(text@.take(len as int) =~= text@);
        LineIndex { line_starts: starts }
    }

    /// The line that contains `offset`: the greatest index whose start does
    /// not exceed `offset`.
    pub open spec fn spec_line_of(self, offset: u32) -> int {
        line_of_rec(self.line_starts@, offset)
    }

    pub open spec fn spec_line_col(self, offset: u32) -> Position {
        let line = self.spec_line_of(offset);
        Position {
            line: line as u32,
            character: (offset - self.line_starts@[line]) as u32,
        }
    }

    pub open spec fn spec_line_col_range(self, range: TextRange) -> Range {
        Range { start: self.spec_line_col(range.start), end: self.spec_line_col(range.end) }
    }

    /// Translates a character offset into a line/column position.
    pub fn line_col(&self, offset: u32) -> (p: Position)
        requires
            self.wf(),
        ensures
            p == self.spec_line_col(offset),
    {
        proof {
            lemma_line_of_props(self.line_starts@, offset);
        }
        let ghost target = self.spec_line_of(offset);
        let mut line: usize = self.line_starts.len() - 1;
        while self.line_starts[line] > offset
            invariant
                self.wf(),
                0 <= line < self.line_starts@.len(),
                target == self.spec_line_of(offset),
                target <= line,
            decreases line,
        {
            proof {
                lemma_line_of_props(self.line_starts@, offset);
                assert(line != target) by {
                    assert(self.line_starts@[target] <= offset);
                }
            }
            line = line - 1;
        }
        proof {
            lemma_line_of_props(self.line_starts@, offset);
            assert(line == target) by {
                if target < line {
                    assert(offset < self.line_starts@[line as int]);
                }
            }
        }
        Position { line: line as u32, character: offset - self.line_starts[line] }
    }

    /// Translates an offset span into a line/column region.
    pub fn line_col_range(&self, range: TextRange) -> (r: Range)
        requires
            self.wf(),
        ensures
            r == self.spec_line_col_range(range),
    {
        let start = self.line_col(range.start);
        let end = self.line_col(range.end);
        Range { start, end }
    }
}

/// The greatest index of `starts` whose value does not exceed `offset`,
/// assuming the strictly increasing, zero-led shape of `LineIndex::wf`.
pub open spec fn line_of_rec(starts: Seq<u32>, offset: u32) -> int
    decreases starts.len(),
{
    if starts.len() <= 1 {
        0
    } else if starts.last() <= offset {
        starts.len() - 1
    } else {
        line_of_rec(starts.drop_last(), offset)
    }
}

proof fn lemma_line_of_props(starts: Seq<u32>, offset: u32)
    requires
        starts.len() >= 1,
        starts[0] == 0,
        forall|i: int, j: int| 0 <= i < j < starts.len() ==> starts[i] < starts[j],
    ensures
        0 <= line_of_rec(starts, offset) < starts.len(),
        starts[line_of_rec(starts, offset)] <= offset,
        forall|j: int|
            line_of_rec(starts, offset) < j < starts.len() ==> offset < #[trigger] starts[j],
    decreases starts.len(),
{
    if starts.len() > 1 && starts.last() > offset {
        lemma_line_of_props(starts.drop_last(), offset);
        let r = line_of_rec(starts, offset);
        assert forall|j: int| r < j < starts.len() implies offset < #[trigger] starts[j] by {
            if j < starts.len() - 1 {
                assert(starts.drop_last()[j] == starts[j]);
            }
        }
    }
}

} // verus!
