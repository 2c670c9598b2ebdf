//! Debug line rendering: a list of line segments and its vertex-buffer flush.
//! Handing out the list marks it changed; the next renderer update rebuilds
//! the vertex buffer (two vertices per line).

use crate::math::{Vec3, Vec4};
use crate::meshes::clone_vec_copy;
use vstd::prelude::*;

verus! {

/// One endpoint of a line: position in homogeneous coordinates and a color.
#[derive(Clone, Copy, Debug, PartialEq, Eq, Structural)]
pub struct LineVertex {
    pub pos: Vec4,
    pub color: Vec4,
}

impl LineVertex {
    /// Builds an endpoint; the position gets homogeneous coordinate 1.
    pub fn new(position: Vec3, color: Vec4) -> (r: LineVertex)
        ensures
            r.pos == (Vec4 { x: position.x, y: position.y, z: position.z, w: 1 }),
            r.color == color,
    {
        LineVertex { pos: Vec4 { x: position.x, y: position.y, z: position.z, w: 1 }, color }
    }
}

/// A line segment between two endpoints.
#[derive(Clone, Copy, Debug, PartialEq, Eq, Structural)]
pub struct Line {
    pub p1: LineVertex,
    pub p2: LineVertex,
}

impl Line {
    pub fn new(p1: LineVertex, p2: LineVertex) -> (r: Line)
        ensures
            r == (Line { p1, p2 }),
    {
        Line { p1, p2 }
    }
}

/// All line segments. `lines` is the caller-editable list, `changed` records
/// that it was handed out since the last flush, and `buffered` mirrors the
/// lines last flushed into the vertex buffer.
#[derive(Clone, Debug)]
pub struct Lines {
    pub lines: Vec<Line>,
    pub changed: bool,
    pub buffered: Vec<Line>,
}

impl Lines {
    /// An empty line list with an empty vertex buffer, initially marked
    /// changed so that the first flush builds the buffer.
    pub fn new() -> (r: Lines)
        ensures
            r.lines@ == Seq::<Line>::empty(),
            r.changed,
            r.buffered@ == Seq::<Line>::empty(),
    {
        Lines { lines: Vec::new(), changed: true, buffered: Vec::new() }
    }

    /// Hands out the line list for editing and marks it changed.
    pub fn lines(&mut self) -> (r: &mut Vec<Line>)
        ensures
            *r == old(self).lines,
            final(self).lines == *final(r),
            final(self).changed,
            final(self).buffered == old(self).buffered,
    {
        self.changed = true;
        &mut self.lines
    }

    /// Flushes the line list into the vertex buffer when it was marked
    /// changed; otherwise leaves the buffer as it is.
    pub fn update(&mut self)
        ensures
            final(self).lines == old(self).lines,
            final(self).changed == old(self).changed,
            final(self).buffered@ == if old(self).changed {
                old(self).lines@
            } else {
                old(self).buffered@
            },
    {
        if self.changed {
            self.buffered = clone_vec_copy(&self.lines);
        }
    }

    /// How many vertices the flushed vertex buffer holds: two per line.
    pub fn number_of_vertices(&self) -> (r: usize)
        requires
            self.buffered@.len() * 2 <= usize::MAX,
        ensures
            r == self.buffered@.len() * 2,
    {
        self.buffered.len() * 2
    }

    /// Whether the logical line list is empty (not the flushed buffer: an
    /// emptied but unflushed list already skips the line draw).
    pub fn is_empty(&self) -> (r: bool)
        ensures
            r == (self.lines@.len() == 0),
    {
        self.lines.len() == 0
    }
}

} // verus!
