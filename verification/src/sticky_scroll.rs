//! Pinned scope items for the sticky header display.
//!
//! The display layer resolves symbol anchors against its buffer snapshot and
//! hands this module plain offsets; the logic on those offsets lives here.

use vstd::prelude::*;

verus! {

/// A buffer row to pin above the viewport.
#[derive(Clone, Copy, Debug, PartialEq, Eq, Structural)]
pub struct StickyLine {
    /// Row index in the buffer, in the same unit the display layer uses.
    pub line: u32,
}

/// One pinned scope: the offset range of an enclosing symbol, its nesting
/// depth, and its header text.
#[derive(Debug, PartialEq, Eq)]
pub struct PinnedItem {
    start: usize,
    end: usize,
    depth: usize,
    text: String,
}

impl PinnedItem {
    pub closed spec fn spec_start(self) -> usize {
        self.start
    }

    pub closed spec fn spec_end(self) -> usize {
        self.end
    }

    pub closed spec fn spec_depth(self) -> usize {
        self.depth
    }

    pub closed spec fn spec_text(self) -> Seq<char> {
        self.text@
    }

    pub fn new(start: usize, end: usize, depth: usize, text: String) -> (r: PinnedItem)
        ensures
            r.spec_start() == start,
            r.spec_end() == end,
            r.spec_depth() == depth,
            r.spec_text() == text@,
    {
        PinnedItem { start, end, depth, text }
    }

    /// Whether `candidate` falls within this item's offset range, both ends
    /// included.
    pub fn contains(&self, candidate: usize) -> (r: bool)
        ensures
            r == (self.spec_start() <= candidate && candidate <= self.spec_end()),
    {
        self.start <= candidate && candidate <= self.end
    }
}

/// One sticky line per enclosing symbol, in the given order, each carrying
/// that symbol's start row.  The caller resolves each symbol's anchor to a
/// row against its buffer snapshot; this turns the resolved rows into the
/// lines the header stack displays.
pub fn sticky_lines_from_starts(starts: &Vec<u32>) -> (r: Vec<StickyLine>)
    ensures
        r@.len() == starts@.len(),
        forall|i: int| 0 <= i < r@.len() ==> r@[i] == (StickyLine { line: starts@[i] }),
{
    let mut sticky_lines: Vec<StickyLine> = Vec::new();
    let mut i: usize = 0;
    while i < starts.len()
        invariant
            i <= starts.len(),
            sticky_lines@.len() == i,
            forall|j: int|
                0 <= j < i as int ==> sticky_lines@[j] == (StickyLine { line: starts@[j] }),
        decreases starts.len() - i,
    {
        sticky_lines.push(StickyLine { line: starts[i] });
        i = i + 1;
    }
    sticky_lines
}

} // verus!
