//! Positions and spans in a script's source text.

use vstd::prelude::*;

verus! {

/// A position in a script: its line, its column and its byte offset.
#[derive(Clone, Copy, Debug, PartialEq, Eq, Structural, Hash)]
pub struct Location {
    pub line: usize,
    pub column: usize,
    pub absolute: usize,
}

impl Location {
    /// The position `lines` lines higher up, stopping at line zero.
    pub open spec fn moved_up(self, lines: nat) -> Location {
        Location {
            line: if self.line >= lines { (self.line - lines) as usize } else { 0usize },
            column: self.column,
            absolute: self.absolute,
        }
    }

    /// The position `lines` lines further down; meaningful where it fits a `usize`.
    pub open spec fn moved_down(self, lines: nat) -> Location {
        Location { line: (self.line + lines) as usize, column: self.column, absolute: self.absolute }
    }

    pub fn new(line: usize, column: usize, absolute: usize) -> (l: Location)
        ensures
            l == (Location { line, column, absolute }),
    {
        Location { line, column, absolute }
    }

    /// Moves the position up by `lines` lines; a position near the top stops at line zero.
    pub fn move_up_lines(&self, lines: usize) -> (l: Location)
        ensures
            l == self.moved_up(lines as nat),
    {
        let line: usize = if self.line >= lines { self.line - lines } else { 0 };
        Location { line, column: self.column, absolute: self.absolute }
    }

    /// Moves the position down by `lines` lines.
    pub fn move_down_lines(&self, lines: usize) -> (l: Location)
        requires
            self.line + lines <= usize::MAX,
        ensures
            l == self.moved_down(lines as nat),
    {
        Location { line: self.line + lines, column: self.column, absolute: self.absolute }
    }
}

impl Default for Location {
    fn default() -> (l: Location)
        ensures
            l == (Location { line: 0, column: 0, absolute: 0 }),
    {
        Location { line: 0, column: 0, absolute: 0 }
    }
}

/// A span of a script, from its first position to its last.
#[derive(Clone, Copy, Debug, PartialEq, Eq, Structural, Hash)]
pub struct Range(pub Location, pub Location);

/// The span that starts and ends at the very beginning of a script.
pub open spec fn start_of_script() -> Range {
    Range(
        Location { line: 0, column: 0, absolute: 0 },
        Location { line: 0, column: 0, absolute: 0 },
    )
}

/// The span widened by `lines` lines at both ends.
pub open spec fn expanded(r: Range, lines: nat) -> Range {
    Range(r.0.moved_up(lines), r.1.moved_down(lines))
}

/// Whether `outer` covers every line of `inner`, the two agreeing on columns and offsets.
pub open spec fn encloses(outer: Range, inner: Range) -> bool {
    &&& outer.0.line <= inner.0.line
    &&& inner.1.line <= outer.1.line
    &&& outer.0.column == inner.0.column && outer.0.absolute == inner.0.absolute
    &&& outer.1.column == inner.1.column && outer.1.absolute == inner.1.absolute
}

impl Range {
    /// Whether the end of the span can move down by `lines` lines.
    pub open spec fn can_expand(self, lines: nat) -> bool {
        self.1.line + lines <= usize::MAX
    }

    /// Widens the span by `lines` lines at its start and at its end.
    pub fn expand_lines(&self, lines: usize) -> (r: Range)
        requires
            self.can_expand(lines as nat),
        ensures
            r == expanded(*self, lines as nat),
    {
        Range(self.0.move_up_lines(lines), self.1.move_down_lines(lines))
    }
}

impl Default for Range {
    fn default() -> (r: Range)
        ensures
            r == start_of_script(),
    {
        Range(Location::default(), Location::default())
    }
}

/// Widening a span never loses a line of it.
pub proof fn lemma_expanded_encloses(r: Range, lines: nat)
    requires
        r.can_expand(lines),
    ensures
        encloses(expanded(r, lines), r),
{
}

} // verus!
