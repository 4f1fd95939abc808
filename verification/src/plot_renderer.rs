//! Buffer layout decisions of the renderer: which series get marker
//! instances and line strips, and where each lands in the vertex buffers.
use vstd::prelude::*;

use crate::plot_state::SeriesSpan;
use crate::point::NO_MARKER;

verus! {

/// A line strip in the line vertex buffer.
#[derive(Debug, Clone, Copy, PartialEq, Eq, Structural)]
pub struct LineSegment {
    /// Index of the strip's first vertex.
    pub first_vertex: u32,
    /// Number of vertices of the strip.
    pub vertex_count: u32,
}

/// Whether a span is drawn with markers and lies inside a buffer of
/// `point_count` points.
pub open spec fn marker_span_drawn(s: SeriesSpan, point_count: usize) -> bool {
    s.marker != NO_MARKER && s.len > 0 && s.start + s.len <= point_count
}

/// Number of marker instances announced for a list of spans: the points of
/// every span that has a marker (whether or not it fits in the buffer).
pub open spec fn marker_instances(spans: Seq<SeriesSpan>) -> nat
    decreases spans.len(),
{
    if spans.len() == 0 {
        0
    } else {
        marker_instances(spans.drop_last()) + if spans.last().marker != NO_MARKER {
            spans.last().len as nat
        } else {
            0
        }
    }
}

/// For each marker instance, in buffer order, the index of its span and its
/// index within the span.
pub open spec fn marker_id_map(spans: Seq<SeriesSpan>, point_count: usize) -> Seq<(u32, u32)>
    decreases spans.len(),
{
    if spans.len() == 0 {
        Seq::empty()
    } else {
        let s = spans.last();
        let span_idx = (spans.len() - 1) as u32;
        marker_id_map(spans.drop_last(), point_count) + if marker_span_drawn(s, point_count) {
            Seq::new(s.len as nat, |i: int| (span_idx, i as u32))
        } else {
            Seq::empty()
        }
    }
}

/// Number of line vertices produced by a list of spans: the points of each
/// span that draws a line through at least two points.
pub open spec fn line_vertices(spans: Seq<SeriesSpan>) -> nat
    decreases spans.len(),
{
    if spans.len() == 0 {
        0
    } else {
        line_vertices(spans.drop_last()) + if spans.last().has_line && spans.last().len >= 2 {
            spans.last().len as nat
        } else {
            0
        }
    }
}

/// The line strips of a list of spans, in order, each starting after the
/// vertices of the earlier ones.
pub open spec fn line_segments_of(spans: Seq<SeriesSpan>) -> Seq<LineSegment>
    decreases spans.len(),
{
    if spans.len() == 0 {
        Seq::empty()
    } else {
        let prev = line_segments_of(spans.drop_last());
        let s = spans.last();
        if s.has_line && s.len >= 2 {
            prev.push(
                LineSegment {
                    first_vertex: line_vertices(spans.drop_last()) as u32,
                    vertex_count: s.len as u32,
                },
            )
        } else {
            prev
        }
    }
}

/// Sums over a prefix never exceed the sum over the whole list.
pub proof fn lemma_prefix_sums(spans: Seq<SeriesSpan>, i: int)
    requires
        0 <= i <= spans.len(),
    ensures
        marker_instances(spans.take(i)) <= marker_instances(spans),
        line_vertices(spans.take(i)) <= line_vertices(spans),
    decreases spans.len() - i,
{
    if i < spans.len() {
        lemma_prefix_sums(spans, i + 1);
        assert(spans.take(i + 1).drop_last() =~= spans.take(i));
    } else {
        assert(spans.take(i) =~= spans);
    }
}

/// The number of marker instances for a list of spans.
pub fn marker_instance_count(spans: &Vec<SeriesSpan>) -> (n: usize)
    requires
        marker_instances(spans@) <= usize::MAX,
    ensures
        n == marker_instances(spans@),
{
    let mut total: usize = 0;
    let mut i: usize = 0;
    while i < spans.len()
        invariant
            i <= spans@.len(),
            marker_instances(spans@) <= usize::MAX,
            total == marker_instances(spans@.take(i as int)),
        decreases spans.len() - i,
    {
        proof {
            assert(spans@.take(i + 1).drop_last() =~= spans@.take(i as int));
            lemma_prefix_sums(spans@, i + 1);
        }
        if spans[i].marker != NO_MARKER {
            total = total + spans[i].len;
        }
        i = i + 1;
    }
    proof {
        assert(spans@.take(spans.len() as int) =~= spans@);
    }
    total
}

/// The picking map of the marker buffer: for each instance of each span
/// that has a marker and lies inside the buffer of `point_count` points, the
/// span's index and the point's index within it.
pub fn build_marker_id_map(spans: &Vec<SeriesSpan>, point_count: usize) -> (m: Vec<(u32, u32)>)
    ensures
        m@ == marker_id_map(spans@, point_count),
{
    let mut out: Vec<(u32, u32)> = Vec::new();
    let mut i: usize = 0;
    while i < spans.len()
        invariant
            i <= spans@.len(),
            out@ == marker_id_map(spans@.take(i as int), point_count),
        decreases spans.len() - i,
    {
        proof {
            assert(spans@.take(i + 1).drop_last() =~= spans@.take(i as int));
        }
        let s = spans[i];
        if s.marker != NO_MARKER && s.len > 0 && s.len <= point_count && s.start <= point_count - s.len {
            let span_idx = i as u32;
            let ghost before = out@;
            let mut j: usize = 0;
            while j < s.len
                invariant
                    j <= s.len,
                    out@ == before + Seq::new(j as nat, |k: int| (span_idx, k as u32)),
                decreases s.len - j,
            {
                out.push((span_idx, j as u32));
                proof {
                    assert(out@ =~= before + Seq::new((j + 1) as nat, |k: int| (span_idx, k as u32)));
                }
                j = j + 1;
            }
            proof {
                let t = spans@.take(i + 1);
                assert(t.last() == s);
                assert(((t.len() - 1) as u32) == span_idx);
            }
        } else {
            proof {
                assert(spans@.take(i + 1).last() == s);
                assert(out@ =~= marker_id_map(spans@.take(i as int), point_count) + Seq::<(u32, u32)>::empty());
            }
        }
        i = i + 1;
    }
    proof {
        assert(spans@.take(spans.len() as int) =~= spans@);
    }
    out
}

/// The line strips for a list of spans: one per span that draws a line
/// through at least two points, in order, laid end to end.
pub fn build_line_segments(spans: &Vec<SeriesSpan>) -> (segs: Vec<LineSegment>)
    requires
        line_vertices(spans@) <= u32::MAX,
    ensures
        segs@ == line_segments_of(spans@),
{
    let mut out: Vec<LineSegment> = Vec::new();
    let mut first: u32 = 0;
    let mut i: usize = 0;
    while i < spans.len()
        invariant
            i <= spans@.len(),
            line_vertices(spans@) <= u32::MAX,
            first == line_vertices(spans@.take(i as int)),
            out@ == line_segments_of(spans@.take(i as int)),
        decreases spans.len() - i,
    {
        proof {
            assert(spans@.take(i + 1).drop_last() =~= spans@.take(i as int));
            lemma_prefix_sums(spans@, i + 1);
        }
        let s = spans[i];
        proof {
            assert(spans@.take(i + 1).last() == s);
        }
        if s.has_line && s.len >= 2 {
            let count = s.len as u32;
            out.push(LineSegment { first_vertex: first, vertex_count: count });
            first = first + count;
        }
        i = i + 1;
    }
    proof {
        assert(spans@.take(spans.len() as int) =~= spans@);
    }
    out
}

} // verus!
