//! The layout of the point buffer handed to the renderer.
use vstd::prelude::*;

use crate::shape::{ShapeId, ShapeInfo};

verus! {

/// A run of consecutive points in the point buffer that belongs to one
/// series.
#[derive(Debug, Clone, Copy, PartialEq, Eq, Structural)]
pub struct SeriesSpan {
    /// The series.
    pub id: ShapeId,
    /// Index of its first point in the buffer.
    pub start: usize,
    /// Number of its points in the buffer.
    pub len: usize,
    /// Marker code of the series.
    pub marker: u32,
    /// Whether the series draws a line.
    pub has_line: bool,
}

/// A series gets a span when it is visible and has positions.
pub open spec fn gets_span(k: u64, info: ShapeInfo, hidden: Set<u64>) -> bool {
    !hidden.contains(k) && info.point_count > 0
}

/// Points a series puts in the buffer: all its positions when it draws
/// markers or a line, none otherwise.
pub open spec fn span_len(info: ShapeInfo) -> nat {
    if info.draws() {
        info.point_count as nat
    } else {
        0
    }
}

/// Number of points that a table of series puts in the buffer.
pub open spec fn drawn_points(s: Seq<(u64, ShapeInfo)>, hidden: Set<u64>) -> nat
    decreases s.len(),
{
    if s.len() == 0 {
        0
    } else {
        let e = s.last();
        drawn_points(s.drop_last(), hidden) + if gets_span(e.0, e.1, hidden) {
            span_len(e.1)
        } else {
            0
        }
    }
}

/// The spans of a table of series, in order, each starting where the points
/// of the earlier ones end.
pub open spec fn spans_of(s: Seq<(u64, ShapeInfo)>, hidden: Set<u64>) -> Seq<SeriesSpan>
    decreases s.len(),
{
    if s.len() == 0 {
        Seq::empty()
    } else {
        let prev = spans_of(s.drop_last(), hidden);
        let e = s.last();
        if gets_span(e.0, e.1, hidden) {
            prev.push(
                SeriesSpan {
                    id: ShapeId(e.0),
                    start: drawn_points(s.drop_last(), hidden) as usize,
                    len: span_len(e.1) as usize,
                    marker: e.1.marker_code(),
                    has_line: e.1.has_line,
                },
            )
        } else {
            prev
        }
    }
}

/// The ids of the shapes of a table that are not hidden, in order.
pub open spec fn visible_ids(s: Seq<(u64, ShapeInfo)>, hidden: Set<u64>) -> Seq<ShapeId>
    decreases s.len(),
{
    if s.len() == 0 {
        Seq::empty()
    } else {
        let prev = visible_ids(s.drop_last(), hidden);
        let e = s.last();
        if hidden.contains(e.0) {
            prev
        } else {
            prev.push(ShapeId(e.0))
        }
    }
}

/// The points of a prefix never exceed those of the whole table.
pub proof fn lemma_drawn_points_prefix(s: Seq<(u64, ShapeInfo)>, hidden: Set<u64>, i: int)
    requires
        0 <= i <= s.len(),
    ensures
        drawn_points(s.take(i), hidden) <= drawn_points(s, hidden),
    decreases s.len() - i,
{
    if i < s.len() {
        lemma_drawn_points_prefix(s, hidden, i + 1);
        assert(s.take(i + 1).drop_last() =~= s.take(i));
    } else {
        assert(s.take(i) =~= s);
    }
}

} // verus!
