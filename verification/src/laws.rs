//! Properties of the library that span several operations.
use vstd::prelude::*;

use crate::legend::{line_legend, series_legend};
use crate::message::PointId;
use crate::plot_renderer::{line_segments_of, line_vertices, marker_id_map, marker_instances, marker_span_drawn};
use crate::point::{optional_marker_code, NO_MARKER};
use crate::plot_state::{drawn_points, gets_span, spans_of, visible_ids, SeriesSpan};
use crate::plot_widget::{label_taken, point_key, same_label, toggled, visible_points, Highlight, PlotWidgetView};
use crate::shape::{has_visible_label, ShapeId, ShapeInfo};
use crate::table::{
    has_key, inserted, key_pos, lemma_inserted_unique, lemma_removed_unique, removed, unique_keys,
    value_of,
};

verus! {

/// Adding a shape under a new id and then removing that id gives back the
/// table as it was.
pub proof fn law_add_then_remove<K, V>(s: Seq<(K, V)>, k: K, v: V)
    requires
        unique_keys(s),
        !has_key(s, k),
    ensures
        removed(inserted(s, k, v), k) == s,
{
    let t = inserted(s, k, v);
    assert(t == s.push((k, v)));
    assert(t[s.len() as int].0 == k);
    let p = key_pos(t, k);
    if p < s.len() {
        assert(s[p].0 == k);
    }
    assert(p == s.len());
    assert(t.remove(p) =~= s);
}

/// Adding a shape under an id that exists replaces it in place: the table
/// keeps its length and the id its position, and the id maps to the new
/// value.
pub proof fn law_replace_keeps_place<K, V>(s: Seq<(K, V)>, k: K, v: V)
    requires
        unique_keys(s),
        has_key(s, k),
    ensures
        inserted(s, k, v).len() == s.len(),
        has_key(inserted(s, k, v), k),
        key_pos(inserted(s, k, v), k) == key_pos(s, k),
        value_of(inserted(s, k, v), k) == Some(v),
{
    lemma_inserted_unique(s, k, v);
    let t = inserted(s, k, v);
    let p = key_pos(s, k);
    assert(t[p].0 == k);
    let q = key_pos(t, k);
    assert(t[q].0 == k);
}

/// Toggling the visibility of a shape twice leaves the hidden set as it was.
pub proof fn law_toggle_twice(hidden: Set<u64>, id: u64)
    ensures
        toggled(toggled(hidden, id), id) == hidden,
{
    assert(toggled(toggled(hidden, id), id) =~= hidden);
}

/// Adding a series under a new id and then removing it gives back the
/// series table as it was, every other part of the widget unchanged but the
/// id no longer hidden and the data counter two ahead. The removal finds the
/// series, and the label check of the addition only looks at the other
/// series.
pub proof fn law_add_then_remove_series(v: PlotWidgetView, id: u64, info: ShapeInfo)
    requires
        v.wf(),
        !has_key(v.series, id),
        v.data_version < u64::MAX - 1,
    ensures
        v.with_series(id, info).wf(),
        v.with_series(id, info).data_version < u64::MAX,
        has_key(v.with_series(id, info).series, id),
        v.with_series(id, info).without_series(id) == (PlotWidgetView {
            hidden: v.hidden.remove(id),
            data_version: (v.data_version + 2) as u64,
            ..v
        }),
{
    lemma_inserted_unique(v.series, id, info);
    law_add_then_remove(v.series, id, info);
}

/// Toggling the visibility of an existing shape twice gives back the hidden
/// set: only the data counter moves, by two, and the highlight counter by
/// two when a hovered or picked point belongs to the shape.
pub proof fn law_toggle_visibility_twice(v: PlotWidgetView, id: u64)
    requires
        v.shape_exists(id),
        v.data_version < u64::MAX - 1,
        v.highlights_series(id) ==> v.highlight_version < u64::MAX - 1,
    ensures
        v.with_toggled(id).shape_exists(id),
        v.with_toggled(id).data_version < u64::MAX,
        v.with_toggled(id).highlights_series(id) ==> v.with_toggled(id).highlight_version < u64::MAX,
        v.with_toggled(id).with_toggled(id) == (PlotWidgetView {
            data_version: (v.data_version + 2) as u64,
            highlight_version: if v.highlights_series(id) {
                (v.highlight_version + 2) as u64
            } else {
                v.highlight_version
            },
            ..v
        }),
{
    law_toggle_twice(v.hidden, id);
}

/// Picking a picked point un-picks it and leaves the hovered points alone.
pub proof fn law_pick_picked_unpicks(v: PlotWidgetView, p: PointId, h: Highlight)
    requires
        v.wf(),
        has_key(v.picked, point_key(p)),
    ensures
        !has_key(v.after_hover_pick(p, true, h).0.picked, point_key(p)),
        v.after_hover_pick(p, true, h).0.hovered == v.hovered,
        v.after_hover_pick(p, true, h).1,
{
    lemma_removed_unique(v.picked, point_key(p));
}

/// Picking a point twice, with a highlight built both times, leaves the
/// picked points as they were and the point no longer hovered.
pub proof fn law_pick_twice_restores(v: PlotWidgetView, p: PointId, tip: bool, same: bool)
    requires
        v.wf(),
        !has_key(v.picked, point_key(p)),
        v.valid_point(p),
    ensures
        ({
            let h = Highlight::Built { has_tooltip: tip, same_as_stored: same };
            let once = v.after_hover_pick(p, true, h).0;
            let twice = once.after_hover_pick(p, true, h).0;
            twice.picked == v.picked && twice.hovered == removed(v.hovered, point_key(p))
        }),
{
    let k = point_key(p);
    let h = Highlight::Built { has_tooltip: tip, same_as_stored: same };
    let once = v.after_hover_pick(p, true, h).0;
    lemma_inserted_unique(v.picked, k, tip);
    assert(once.picked == inserted(v.picked, k, tip));
    assert(has_key(once.picked, k));
    law_add_then_remove(v.picked, k, tip);
}

/// Hovering never changes the picked points, and never hovers a picked one.
pub proof fn law_hover_spares_picked(v: PlotWidgetView, p: PointId, h: Highlight)
    requires
        v.wf(),
    ensures
        v.after_hover_pick(p, false, h).0.picked == v.picked,
        has_key(v.picked, point_key(p)) ==> v.after_hover_pick(p, false, h) == (v, false),
{
}

/// Every legend row carries a non-empty label and is marked hidden exactly
/// when its shape is hidden.
pub proof fn law_legend_rows(v: PlotWidgetView)
    ensures
        forall|i: int|
            0 <= i < v.legend().len() ==> (#[trigger] v.legend()[i]).label@.len() > 0
                && v.legend()[i].hidden == v.hidden.contains(v.legend()[i].id.0),
{
    lemma_series_rows(v.series, v.hidden);
    lemma_line_rows(v.vlines, v.hidden);
    lemma_line_rows(v.hlines, v.hidden);
    let a = series_legend(v.series, v.hidden);
    let b = line_legend(v.vlines, v.hidden);
    let c = line_legend(v.hlines, v.hidden);
    assert forall|i: int| 0 <= i < v.legend().len() implies (#[trigger] v.legend()[i]).label@.len() > 0
        && v.legend()[i].hidden == v.hidden.contains(v.legend()[i].id.0) by {
        if i < a.len() {
            assert(v.legend()[i] == a[i]);
        } else if i < a.len() + b.len() {
            assert(v.legend()[i] == b[i - a.len()]);
        } else {
            assert(v.legend()[i] == c[i - a.len() - b.len()]);
        }
    }
}

proof fn lemma_series_rows(s: Seq<(u64, ShapeInfo)>, hidden: Set<u64>)
    ensures
        forall|i: int|
            0 <= i < series_legend(s, hidden).len() ==> (#[trigger] series_legend(s, hidden)[i]).label@.len() > 0
                && series_legend(s, hidden)[i].hidden == hidden.contains(series_legend(s, hidden)[i].id.0),
    decreases s.len(),
{
    if s.len() > 0 {
        lemma_series_rows(s.drop_last(), hidden);
        let prev = series_legend(s.drop_last(), hidden);
        let r = series_legend(s, hidden);
        assert forall|i: int| 0 <= i < r.len() implies (#[trigger] r[i]).label@.len() > 0
            && r[i].hidden == hidden.contains(r[i].id.0) by {
            if i < prev.len() {
                assert(r[i] == prev[i]);
            } else {
                let e = s.last();
                assert(has_visible_label(e.1.label));
                assert(r[i].label == e.1.label.unwrap());
            }
        }
    }
}

proof fn lemma_line_rows(s: Seq<(u64, ShapeInfo)>, hidden: Set<u64>)
    ensures
        forall|i: int|
            0 <= i < line_legend(s, hidden).len() ==> (#[trigger] line_legend(s, hidden)[i]).label@.len() > 0
                && line_legend(s, hidden)[i].hidden == hidden.contains(line_legend(s, hidden)[i].id.0),
    decreases s.len(),
{
    if s.len() > 0 {
        lemma_line_rows(s.drop_last(), hidden);
        let prev = line_legend(s.drop_last(), hidden);
        let r = line_legend(s, hidden);
        assert forall|i: int| 0 <= i < r.len() implies (#[trigger] r[i]).label@.len() > 0
            && r[i].hidden == hidden.contains(r[i].id.0) by {
            if i < prev.len() {
                assert(r[i] == prev[i]);
            } else {
                let e = s.last();
                assert(has_visible_label(e.1.label));
                assert(r[i].label == e.1.label.unwrap());
            }
        }
    }
}

/// Every point shown highlighted is hovered or picked, and its series is not
/// hidden.
pub proof fn law_visible_highlights(v: PlotWidgetView)
    ensures
        forall|i: int|
            0 <= i < v.visible_highlights().len() ==> !v.hidden.contains(
                (#[trigger] v.visible_highlights()[i]).series_id.0,
            ) && v.is_highlighted(v.visible_highlights()[i]),
{
    lemma_visible_points(v.hovered, v.hidden);
    lemma_visible_points(v.picked, v.hidden);
    let a = visible_points(v.hovered, v.hidden);
    let b = visible_points(v.picked, v.hidden);
    assert forall|i: int| 0 <= i < v.visible_highlights().len() implies !v.hidden.contains(
        (#[trigger] v.visible_highlights()[i]).series_id.0,
    ) && v.is_highlighted(v.visible_highlights()[i]) by {
        if i < a.len() {
            assert(v.visible_highlights()[i] == a[i]);
        } else {
            assert(v.visible_highlights()[i] == b[i - a.len()]);
        }
    }
}

proof fn lemma_visible_points(s: Seq<((u64, usize), bool)>, hidden: Set<u64>)
    ensures
        forall|i: int|
            0 <= i < visible_points(s, hidden).len() ==> !hidden.contains(
                (#[trigger] visible_points(s, hidden)[i]).series_id.0,
            ) && has_key(s, point_key(visible_points(s, hidden)[i])),
    decreases s.len(),
{
    if s.len() > 0 {
        let prev = s.drop_last();
        lemma_visible_points(prev, hidden);
        let r = visible_points(s, hidden);
        assert forall|i: int| 0 <= i < r.len() implies !hidden.contains((#[trigger] r[i]).series_id.0)
            && has_key(s, point_key(r[i])) by {
            let pr = visible_points(prev, hidden);
            if i < pr.len() {
                assert(r[i] == pr[i]);
                let j = choose|j: int| 0 <= j < prev.len() && #[trigger] prev[j].0 == point_key(pr[i]);
                assert(s[j] == prev[j]);
            } else {
                assert(s[s.len() - 1].0 == point_key(r[i]));
            }
        }
    }
}

/// The spans of the point buffer lie end to end from the start of the
/// buffer, and together cover exactly the points drawn.
pub proof fn law_spans_contiguous(s: Seq<(u64, ShapeInfo)>, hidden: Set<u64>)
    requires
        drawn_points(s, hidden) <= usize::MAX,
    ensures
        ({
            let spans = spans_of(s, hidden);
            &&& spans.len() > 0 ==> spans[0].start == 0
            &&& forall|i: int| 0 <= i < spans.len() - 1 ==> #[trigger] spans[i].start + spans[i].len == spans[i + 1].start
            &&& spans.len() > 0 ==> spans.last().start + spans.last().len == drawn_points(s, hidden)
            &&& spans.len() == 0 ==> drawn_points(s, hidden) == 0
        }),
    decreases s.len(),
{
    if s.len() > 0 {
        let prev = s.drop_last();
        let e = s.last();
        assert(drawn_points(prev, hidden) <= drawn_points(s, hidden));
        law_spans_contiguous(prev, hidden);
        let ps = spans_of(prev, hidden);
        let spans = spans_of(s, hidden);
        if gets_span(e.0, e.1, hidden) {
            assert(spans == ps.push(spans.last()));
            assert forall|i: int| 0 <= i < spans.len() - 1 implies #[trigger] spans[i].start + spans[i].len
                == spans[i + 1].start by {
                if i < ps.len() - 1 {
                    assert(spans[i] == ps[i]);
                    assert(spans[i + 1] == ps[i + 1]);
                } else {
                    assert(spans[i] == ps.last());
                }
            }
        }
    }
}

/// The line strips lie end to end from the first vertex, and together cover
/// exactly the line vertices.
pub proof fn law_line_segments_contiguous(spans: Seq<SeriesSpan>)
    requires
        line_vertices(spans) <= u32::MAX,
    ensures
        ({
            let segs = line_segments_of(spans);
            &&& segs.len() > 0 ==> segs[0].first_vertex == 0
            &&& forall|i: int| 0 <= i < segs.len() - 1 ==> #[trigger] segs[i].first_vertex + segs[i].vertex_count
                == segs[i + 1].first_vertex
            &&& segs.len() > 0 ==> segs.last().first_vertex + segs.last().vertex_count == line_vertices(spans)
            &&& segs.len() == 0 ==> line_vertices(spans) == 0
        }),
    decreases spans.len(),
{
    if spans.len() > 0 {
        let prev = spans.drop_last();
        law_line_segments_contiguous(prev);
        let ps = line_segments_of(prev);
        let segs = line_segments_of(spans);
        let s = spans.last();
        if s.has_line && s.len >= 2 {
            assert forall|i: int| 0 <= i < segs.len() - 1 implies #[trigger] segs[i].first_vertex
                + segs[i].vertex_count == segs[i + 1].first_vertex by {
                if i < ps.len() - 1 {
                    assert(segs[i] == ps[i]);
                    assert(segs[i + 1] == ps[i + 1]);
                } else {
                    assert(segs[i] == ps.last());
                }
            }
        }
    }
}

/// Every instance of the marker picking map points into the buffer: its
/// span exists, and the point's index lies below the buffer's length.
pub proof fn law_marker_map_in_bounds(spans: Seq<SeriesSpan>, point_count: usize)
    requires
        spans.len() <= u32::MAX,
        forall|i: int| 0 <= i < spans.len() ==> #[trigger] spans[i].len <= u32::MAX,
    ensures
        forall|k: int|
            0 <= k < marker_id_map(spans, point_count).len() ==> {
                let e = #[trigger] marker_id_map(spans, point_count)[k];
                &&& (e.0 as int) < spans.len()
                &&& spans[e.0 as int].start + e.1 < point_count
                &&& spans[e.0 as int].marker != NO_MARKER
            },
    decreases spans.len(),
{
    if spans.len() > 0 {
        let prev = spans.drop_last();
        law_marker_map_in_bounds(prev, point_count);
        let pm = marker_id_map(prev, point_count);
        let m = marker_id_map(spans, point_count);
        let s = spans.last();
        let idx = (spans.len() - 1) as u32;
        assert forall|k: int| 0 <= k < m.len() implies {
            let e = #[trigger] m[k];
            &&& (e.0 as int) < spans.len()
            &&& spans[e.0 as int].start + e.1 < point_count
            &&& spans[e.0 as int].marker != NO_MARKER
        } by {
            if k < pm.len() {
                assert(m[k] == pm[k]);
                assert(prev[pm[k].0 as int] == spans[pm[k].0 as int]);
            } else {
                assert(marker_span_drawn(s, point_count));
                let j = k - pm.len();
                assert(m[k] == (idx, j as u32));
                assert(idx as int == spans.len() - 1);
                assert(j < s.len);
                assert((j as u32) as int == j);
            }
        }
    }
}

/// No point is shown highlighted twice: hovered and picked points are
/// disjoint and each table holds a point once.
pub proof fn law_visible_highlights_distinct(v: PlotWidgetView)
    requires
        v.wf(),
    ensures
        forall|i: int, j: int|
            0 <= i < v.visible_highlights().len() && 0 <= j < v.visible_highlights().len() && i != j
                ==> #[trigger] v.visible_highlights()[i] != #[trigger] v.visible_highlights()[j],
{
    lemma_visible_points_distinct(v.hovered, v.hidden);
    lemma_visible_points_distinct(v.picked, v.hidden);
    lemma_visible_points(v.hovered, v.hidden);
    lemma_visible_points(v.picked, v.hidden);
    let a = visible_points(v.hovered, v.hidden);
    let b = visible_points(v.picked, v.hidden);
    let r = v.visible_highlights();
    assert forall|i: int, j: int| 0 <= i < r.len() && 0 <= j < r.len() && i != j implies #[trigger] r[i]
        != #[trigger] r[j] by {
        if i < a.len() && j < a.len() {
            assert(r[i] == a[i] && r[j] == a[j]);
        } else if i >= a.len() && j >= a.len() {
            assert(r[i] == b[i - a.len()] && r[j] == b[j - a.len()]);
        } else if i < a.len() {
            assert(r[i] == a[i] && r[j] == b[j - a.len()]);
            assert(has_key(v.hovered, point_key(a[i])));
            assert(has_key(v.picked, point_key(b[j - a.len()])));
        } else {
            assert(r[j] == a[j] && r[i] == b[i - a.len()]);
            assert(has_key(v.hovered, point_key(a[j])));
            assert(has_key(v.picked, point_key(b[i - a.len()])));
        }
    }
}

proof fn lemma_visible_points_distinct(s: Seq<((u64, usize), bool)>, hidden: Set<u64>)
    requires
        unique_keys(s),
    ensures
        forall|i: int, j: int|
            0 <= i < visible_points(s, hidden).len() && 0 <= j < visible_points(s, hidden).len() && i != j
                ==> #[trigger] visible_points(s, hidden)[i] != #[trigger] visible_points(s, hidden)[j],
    decreases s.len(),
{
    if s.len() > 0 {
        let prev = s.drop_last();
        assert(unique_keys(prev)) by {
            assert forall|i: int, j: int| 0 <= i < prev.len() && 0 <= j < prev.len() && #[trigger] prev[i].0
                == #[trigger] prev[j].0 implies i == j by {
                assert(s[i] == prev[i] && s[j] == prev[j]);
            }
        }
        lemma_visible_points_distinct(prev, hidden);
        lemma_visible_points(prev, hidden);
        let pr = visible_points(prev, hidden);
        let r = visible_points(s, hidden);
        let last = s.last();
        if !hidden.contains(last.0.0) {
            assert forall|i: int| 0 <= i < pr.len() implies #[trigger] pr[i] != r[pr.len() as int] by {
                let q = choose|q: int| 0 <= q < prev.len() && #[trigger] prev[q].0 == point_key(pr[i]);
                assert(s[q] == prev[q]);
                assert(r[pr.len() as int] == PointId { series_id: ShapeId(last.0.0), point_index: last.0.1 });
                if pr[i] == r[pr.len() as int] {
                    assert(point_key(pr[i]) == last.0);
                    assert(s[s.len() - 1].0 == s[q].0);
                }
            }
            assert forall|i: int, j: int| 0 <= i < r.len() && 0 <= j < r.len() && i != j implies #[trigger] r[i]
                != #[trigger] r[j] by {
                if i < pr.len() && j < pr.len() {
                    assert(r[i] == pr[i] && r[j] == pr[j]);
                } else if i < pr.len() {
                    assert(r[i] == pr[i]);
                } else {
                    assert(r[j] == pr[j]);
                }
            }
        }
    }
}

/// Selects the shapes that carry a non-empty label.
pub open spec fn labelled() -> spec_fn((u64, ShapeInfo)) -> bool {
    |e: (u64, ShapeInfo)| has_visible_label(e.1.label)
}

/// Selects the series that are not hidden and have positions.
pub open spec fn shown_with_points(hidden: Set<u64>) -> spec_fn((u64, ShapeInfo)) -> bool {
    |e: (u64, ShapeInfo)| !hidden.contains(e.0) && e.1.point_count > 0
}

/// Selects the spans that draw a line through at least two points.
pub open spec fn strip_spans() -> spec_fn(SeriesSpan) -> bool {
    |sp: SeriesSpan| sp.has_line && sp.len >= 2
}

/// The legend rows of a table of reference lines are exactly its labelled
/// lines, in order, whether hidden or not: one row per labelled line, with
/// its id and label, no marker, a line, and marked hidden exactly when the
/// line is hidden.
pub proof fn law_line_legend_rows(s: Seq<(u64, ShapeInfo)>, hidden: Set<u64>)
    ensures
        line_legend(s, hidden).len() == s.filter(labelled()).len(),
        forall|k: int|
            0 <= k < line_legend(s, hidden).len() ==> {
                let row = #[trigger] line_legend(s, hidden)[k];
                let e = s.filter(labelled())[k];
                &&& row.id == ShapeId(e.0)
                &&& e.1.label == Some(row.label)
                &&& row.label@.len() > 0
                &&& row.marker == NO_MARKER
                &&& row.has_line
                &&& row.hidden == hidden.contains(e.0)
            },
    decreases s.len(),
{
    reveal(Seq::filter);
    if s.len() > 0 {
        law_line_legend_rows(s.drop_last(), hidden);
        let f = s.filter(labelled());
        let pf = s.drop_last().filter(labelled());
        let r = line_legend(s, hidden);
        let pr = line_legend(s.drop_last(), hidden);
        assert forall|k: int| 0 <= k < r.len() implies {
            let row = #[trigger] r[k];
            let e = f[k];
            &&& row.id == ShapeId(e.0)
            &&& e.1.label == Some(row.label)
            &&& row.label@.len() > 0
            &&& row.marker == NO_MARKER
            &&& row.has_line
            &&& row.hidden == hidden.contains(e.0)
        } by {
            if k < pr.len() {
                assert(r[k] == pr[k]);
                assert(f[k] == pf[k]);
            }
        }
    }
}

/// Every labelled vertical or horizontal reference line has a row in the
/// legend, hidden or not, marked hidden exactly when it is hidden.
pub proof fn law_legend_keeps_labelled_lines(v: PlotWidgetView, i: int, vertical: bool)
    requires
        0 <= i < (if vertical { v.vlines.len() } else { v.hlines.len() }),
        has_visible_label((if vertical { v.vlines } else { v.hlines })[i].1.label),
    ensures
        exists|j: int|
            0 <= j < v.legend().len() && (#[trigger] v.legend()[j]).id.0 == (if vertical {
                v.vlines
            } else {
                v.hlines
            })[i].0 && v.legend()[j].hidden == v.hidden.contains(v.legend()[j].id.0) && v.legend()[j].has_line
                && v.legend()[j].marker == NO_MARKER,
{
    let t = if vertical { v.vlines } else { v.hlines };
    let a = series_legend(v.series, v.hidden);
    let b = line_legend(v.vlines, v.hidden);
    let c = line_legend(v.hlines, v.hidden);
    law_line_legend_rows(t, v.hidden);
    let f = t.filter(labelled());
    broadcast use Seq::lemma_filter_contains;
    assert(labelled()(t[i]));
    assert(f.contains(t[i]));
    let k = choose|k: int| 0 <= k < f.len() && f[k] == t[i];
    let rows = line_legend(t, v.hidden);
    let row = rows[k];
    assert(row.id.0 == t[i].0);
    let j = if vertical { a.len() + k } else { a.len() + b.len() + k };
    assert(v.legend() == a + b + c);
    if vertical {
        assert(v.legend()[j] == b[k]);
    } else {
        assert(v.legend()[j] == c[k]);
    }
    assert(v.legend()[j] == row);
}

/// The spans of the point buffer are exactly the visible series with
/// positions, in order: each carries its series' id, marker code and line
/// flag, and all of its points when it draws markers or a line (none
/// otherwise).
pub proof fn law_spans_follow_series(s: Seq<(u64, ShapeInfo)>, hidden: Set<u64>)
    ensures
        spans_of(s, hidden).len() == s.filter(shown_with_points(hidden)).len(),
        forall|k: int|
            0 <= k < spans_of(s, hidden).len() ==> {
                let sp = #[trigger] spans_of(s, hidden)[k];
                let e = s.filter(shown_with_points(hidden))[k];
                &&& sp.id == ShapeId(e.0)
                &&& sp.has_line == e.1.has_line
                &&& sp.marker == optional_marker_code(e.1.marker)
                &&& sp.len == (if e.1.marker is Some || e.1.has_line {
                    e.1.point_count
                } else {
                    0
                })
            },
    decreases s.len(),
{
    reveal(Seq::filter);
    if s.len() > 0 {
        law_spans_follow_series(s.drop_last(), hidden);
        let f = s.filter(shown_with_points(hidden));
        let pf = s.drop_last().filter(shown_with_points(hidden));
        let r = spans_of(s, hidden);
        let pr = spans_of(s.drop_last(), hidden);
        assert forall|k: int| 0 <= k < r.len() implies {
            let sp = #[trigger] r[k];
            let e = f[k];
            &&& sp.id == ShapeId(e.0)
            &&& sp.has_line == e.1.has_line
            &&& sp.marker == optional_marker_code(e.1.marker)
            &&& sp.len == (if e.1.marker is Some || e.1.has_line {
                e.1.point_count
            } else {
                0
            })
        } by {
            if k < pr.len() {
                assert(r[k] == pr[k]);
                assert(f[k] == pf[k]);
            }
        }
    }
}

/// The line strips are exactly the spans that draw a line through at least
/// two points, whatever their marker, in order: one strip per such span,
/// with as many vertices as the span has points.
pub proof fn law_strips_follow_spans(spans: Seq<SeriesSpan>)
    ensures
        line_segments_of(spans).len() == spans.filter(strip_spans()).len(),
        forall|k: int|
            0 <= k < line_segments_of(spans).len() ==> (#[trigger] line_segments_of(spans)[k]).vertex_count
                == spans.filter(strip_spans())[k].len as u32,
    decreases spans.len(),
{
    reveal(Seq::filter);
    if spans.len() > 0 {
        law_strips_follow_spans(spans.drop_last());
        let f = spans.filter(strip_spans());
        let pf = spans.drop_last().filter(strip_spans());
        let r = line_segments_of(spans);
        let pr = line_segments_of(spans.drop_last());
        assert forall|k: int| 0 <= k < r.len() implies (#[trigger] r[k]).vertex_count == f[k].len as u32 by {
            if k < pr.len() {
                assert(r[k] == pr[k]);
                assert(f[k] == pf[k]);
            }
        }
    }
}

/// Whether the entry (`i`, `j`) occurs in a picking map.
pub open spec fn map_has(m: Seq<(u32, u32)>, i: int, j: int) -> bool {
    exists|k: int| 0 <= k < m.len() && #[trigger] m[k] == (i as u32, j as u32)
}

/// The marker picking map holds exactly the points of the spans that have a
/// marker and fit in the buffer, in buffer order: every point of such a span
/// has an entry (its span's index, its index in the span); every entry is
/// such a point; and the entries strictly increase, so none is repeated.
pub proof fn law_marker_map_exact(spans: Seq<SeriesSpan>, point_count: usize)
    requires
        spans.len() <= u32::MAX,
        forall|i: int| 0 <= i < spans.len() ==> #[trigger] spans[i].len <= u32::MAX,
    ensures
        forall|i: int, j: int|
            0 <= i < spans.len() && spans[i].marker != NO_MARKER && spans[i].start + spans[i].len <= point_count
                && 0 <= j < spans[i].len ==> #[trigger] map_has(marker_id_map(spans, point_count), i, j),
        forall|k: int|
            0 <= k < marker_id_map(spans, point_count).len() ==> {
                let e = #[trigger] marker_id_map(spans, point_count)[k];
                &&& (e.0 as int) < spans.len()
                &&& spans[e.0 as int].marker != NO_MARKER
                &&& spans[e.0 as int].start + spans[e.0 as int].len <= point_count
                &&& (e.1 as int) < spans[e.0 as int].len
            },
        forall|k1: int, k2: int|
            0 <= k1 < k2 < marker_id_map(spans, point_count).len() ==> {
                let a = #[trigger] marker_id_map(spans, point_count)[k1];
                let b = #[trigger] marker_id_map(spans, point_count)[k2];
                a.0 < b.0 || (a.0 == b.0 && a.1 < b.1)
            },
    decreases spans.len(),
{
    if spans.len() > 0 {
        let prev = spans.drop_last();
        law_marker_map_exact(prev, point_count);
        let pm = marker_id_map(prev, point_count);
        let m = marker_id_map(spans, point_count);
        let n = spans.len() - 1;
        let s = spans.last();
        let idx = n as u32;
        assert(idx as int == n);
        assert forall|i: int, j: int|
            0 <= i < spans.len() && spans[i].marker != NO_MARKER && spans[i].start + spans[i].len <= point_count
                && 0 <= j < spans[i].len implies #[trigger] map_has(m, i, j) by {
            if i < n {
                assert(prev[i] == spans[i]);
                assert(map_has(pm, i, j));
                let k = choose|k: int| 0 <= k < pm.len() && #[trigger] pm[k] == (i as u32, j as u32);
                assert(m[k] == pm[k]);
            } else {
                assert(marker_span_drawn(s, point_count));
                let k = pm.len() + j;
                assert(m[k] == (idx, j as u32));
            }
        }
        assert forall|k: int| 0 <= k < m.len() implies {
            let e = #[trigger] m[k];
            &&& (e.0 as int) < spans.len()
            &&& spans[e.0 as int].marker != NO_MARKER
            &&& spans[e.0 as int].start + spans[e.0 as int].len <= point_count
            &&& (e.1 as int) < spans[e.0 as int].len
        } by {
            if k < pm.len() {
                assert(m[k] == pm[k]);
                assert(prev[pm[k].0 as int] == spans[pm[k].0 as int]);
            } else {
                let j = k - pm.len();
                assert(m[k] == (idx, j as u32));
                assert((j as u32) as int == j);
            }
        }
        assert forall|k1: int, k2: int| 0 <= k1 < k2 < m.len() implies {
            let a = #[trigger] m[k1];
            let b = #[trigger] m[k2];
            a.0 < b.0 || (a.0 == b.0 && a.1 < b.1)
        } by {
            if k2 < pm.len() {
                assert(m[k1] == pm[k1] && m[k2] == pm[k2]);
            } else if k1 < pm.len() {
                assert(m[k1] == pm[k1]);
                assert((pm[k1].0 as int) < prev.len());
                let j2 = k2 - pm.len();
                assert(m[k2] == (idx, j2 as u32));
            } else {
                let j1 = k1 - pm.len();
                let j2 = k2 - pm.len();
                assert(m[k1] == (idx, j1 as u32));
                assert(m[k2] == (idx, j2 as u32));
                assert((j1 as u32) as int == j1);
                assert((j2 as u32) as int == j2);
            }
        }
    }
}

/// A series is refused for its label exactly when another series (one with
/// a different id, at any position of the table) already carries the same
/// non-empty label.
pub proof fn law_duplicate_label_refused(s: Seq<(u64, ShapeInfo)>, id: u64, label: Option<String>)
    ensures
        label_taken(s, id, label) <==> (label is Some && label->0@.len() > 0 && exists|i: int|
            0 <= i < s.len() && s[i].0 != id && (#[trigger] s[i].1.label) is Some && s[i].1.label->0@
                == label->0@),
{
    if label_taken(s, id, label) {
        let i = choose|i: int| 0 <= i < s.len() && s[i].0 != id && #[trigger] same_label(s[i].1.label, label);
        assert(s[i].1.label is Some);
    }
    if label is Some && label->0@.len() > 0 && exists|i: int|
        0 <= i < s.len() && s[i].0 != id && (#[trigger] s[i].1.label) is Some && s[i].1.label->0@ == label->0@ {
        let i = choose|i: int|
            0 <= i < s.len() && s[i].0 != id && (#[trigger] s[i].1.label) is Some && s[i].1.label->0@ == label->0@;
        assert(same_label(s[i].1.label, label));
    }
}

/// Selects the series that have a row in the legend: a non-empty label, at
/// least one position, and markers or a line to draw.
pub open spec fn legend_series() -> spec_fn((u64, ShapeInfo)) -> bool {
    |e: (u64, ShapeInfo)|
        has_visible_label(e.1.label) && e.1.point_count > 0 && (e.1.marker is Some || e.1.has_line)
}

/// Selects the shapes that are not hidden.
pub open spec fn not_hidden(hidden: Set<u64>) -> spec_fn((u64, ShapeInfo)) -> bool {
    |e: (u64, ShapeInfo)| !hidden.contains(e.0)
}

/// Selects the highlighted points whose series is not hidden.
pub open spec fn point_shown(hidden: Set<u64>) -> spec_fn(((u64, usize), bool)) -> bool {
    |e: ((u64, usize), bool)| !hidden.contains(e.0.0)
}

/// The legend rows of the series are exactly the labelled series with
/// positions that draw something, in order, hidden or not: each with its
/// id, label, marker code and line flag, marked hidden exactly when hidden.
pub proof fn law_series_legend_rows(s: Seq<(u64, ShapeInfo)>, hidden: Set<u64>)
    ensures
        series_legend(s, hidden).len() == s.filter(legend_series()).len(),
        forall|k: int|
            0 <= k < series_legend(s, hidden).len() ==> {
                let row = #[trigger] series_legend(s, hidden)[k];
                let e = s.filter(legend_series())[k];
                &&& row.id == ShapeId(e.0)
                &&& e.1.label == Some(row.label)
                &&& row.marker == optional_marker_code(e.1.marker)
                &&& row.has_line == e.1.has_line
                &&& row.hidden == hidden.contains(e.0)
            },
    decreases s.len(),
{
    reveal(Seq::filter);
    if s.len() > 0 {
        law_series_legend_rows(s.drop_last(), hidden);
        let f = s.filter(legend_series());
        let pf = s.drop_last().filter(legend_series());
        let r = series_legend(s, hidden);
        let pr = series_legend(s.drop_last(), hidden);
        assert forall|k: int| 0 <= k < r.len() implies {
            let row = #[trigger] r[k];
            let e = f[k];
            &&& row.id == ShapeId(e.0)
            &&& e.1.label == Some(row.label)
            &&& row.marker == optional_marker_code(e.1.marker)
            &&& row.has_line == e.1.has_line
            &&& row.hidden == hidden.contains(e.0)
        } by {
            if k < pr.len() {
                assert(r[k] == pr[k]);
                assert(f[k] == pf[k]);
            }
        }
    }
}

/// The visible shapes of a table are exactly its shapes that are not
/// hidden, in order.
pub proof fn law_visible_ids_exact(s: Seq<(u64, ShapeInfo)>, hidden: Set<u64>)
    ensures
        visible_ids(s, hidden).len() == s.filter(not_hidden(hidden)).len(),
        forall|k: int|
            0 <= k < visible_ids(s, hidden).len() ==> #[trigger] visible_ids(s, hidden)[k] == ShapeId(
                s.filter(not_hidden(hidden))[k].0,
            ),
    decreases s.len(),
{
    reveal(Seq::filter);
    if s.len() > 0 {
        law_visible_ids_exact(s.drop_last(), hidden);
        let f = s.filter(not_hidden(hidden));
        let pf = s.drop_last().filter(not_hidden(hidden));
        let r = visible_ids(s, hidden);
        let pr = visible_ids(s.drop_last(), hidden);
        assert forall|k: int| 0 <= k < r.len() implies #[trigger] r[k] == ShapeId(f[k].0) by {
            if k < pr.len() {
                assert(r[k] == pr[k]);
                assert(f[k] == pf[k]);
            }
        }
    }
}

/// The highlighted points shown from a table are exactly its points whose
/// series is not hidden, in order.
pub proof fn law_shown_points_exact(s: Seq<((u64, usize), bool)>, hidden: Set<u64>)
    ensures
        visible_points(s, hidden).len() == s.filter(point_shown(hidden)).len(),
        forall|k: int|
            0 <= k < visible_points(s, hidden).len() ==> #[trigger] point_key(visible_points(s, hidden)[k])
                == s.filter(point_shown(hidden))[k].0,
    decreases s.len(),
{
    reveal(Seq::filter);
    if s.len() > 0 {
        law_shown_points_exact(s.drop_last(), hidden);
        let f = s.filter(point_shown(hidden));
        let pf = s.drop_last().filter(point_shown(hidden));
        let r = visible_points(s, hidden);
        let pr = visible_points(s.drop_last(), hidden);
        assert forall|k: int| 0 <= k < r.len() implies #[trigger] point_key(r[k]) == f[k].0 by {
            if k < pr.len() {
                assert(r[k] == pr[k]);
                assert(f[k] == pf[k]);
            }
        }
    }
}

/// When every span with a marker fits in the buffer, the picking map has
/// one entry per announced marker instance.
pub proof fn law_marker_count_matches_map(spans: Seq<SeriesSpan>, point_count: usize)
    requires
        forall|i: int|
            0 <= i < spans.len() && (#[trigger] spans[i]).marker != NO_MARKER ==> spans[i].start + spans[i].len
                <= point_count,
    ensures
        marker_id_map(spans, point_count).len() == marker_instances(spans),
    decreases spans.len(),
{
    if spans.len() > 0 {
        let prev = spans.drop_last();
        assert forall|i: int| 0 <= i < prev.len() && (#[trigger] prev[i]).marker != NO_MARKER implies prev[i].start
            + prev[i].len <= point_count by {
            assert(prev[i] == spans[i]);
        }
        law_marker_count_matches_map(prev, point_count);
        assert(spans.last() == spans[spans.len() - 1]);
    }
}

} // verus!
