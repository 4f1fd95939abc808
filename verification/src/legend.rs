//! Legend entries of a plot.
use vstd::prelude::*;

use crate::point::NO_MARKER;
use crate::shape::{has_visible_label, ShapeId, ShapeInfo};

verus! {

/// One row of the legend: a labelled series or reference line.
#[derive(Debug, Clone)]
pub struct LegendEntry {
    /// The shape the row stands for; clicking it toggles its visibility.
    pub id: ShapeId,
    /// The label shown.
    pub label: String,
    /// Marker code of the shape, [`NO_MARKER`] when it draws none.
    pub marker: u32,
    /// Whether the shape draws a line.
    pub has_line: bool,
    /// Whether the shape is currently hidden.
    pub hidden: bool,
}

/// A series appears in the legend when it has a non-empty label, at least
/// one position, and draws markers or a line.
pub open spec fn series_in_legend(info: ShapeInfo) -> bool {
    has_visible_label(info.label) && info.point_count > 0 && info.draws()
}

/// The legend row of a series.
pub open spec fn series_entry(k: u64, info: ShapeInfo, hidden: Set<u64>) -> LegendEntry {
    LegendEntry {
        id: ShapeId(k),
        label: info.label.unwrap(),
        marker: info.marker_code(),
        has_line: info.has_line,
        hidden: hidden.contains(k),
    }
}

/// The legend row of a reference line: no marker, always a line.
pub open spec fn line_entry(k: u64, info: ShapeInfo, hidden: Set<u64>) -> LegendEntry {
    LegendEntry {
        id: ShapeId(k),
        label: info.label.unwrap(),
        marker: NO_MARKER,
        has_line: true,
        hidden: hidden.contains(k),
    }
}

/// The legend rows of a table of series, in order.
pub open spec fn series_legend(s: Seq<(u64, ShapeInfo)>, hidden: Set<u64>) -> Seq<LegendEntry>
    decreases s.len(),
{
    if s.len() == 0 {
        Seq::empty()
    } else {
        let prev = series_legend(s.drop_last(), hidden);
        let e = s.last();
        if series_in_legend(e.1) {
            prev.push(series_entry(e.0, e.1, hidden))
        } else {
            prev
        }
    }
}

/// The legend rows of a table of reference lines (those with a non-empty
/// label), in order.
pub open spec fn line_legend(s: Seq<(u64, ShapeInfo)>, hidden: Set<u64>) -> Seq<LegendEntry>
    decreases s.len(),
{
    if s.len() == 0 {
        Seq::empty()
    } else {
        let prev = line_legend(s.drop_last(), hidden);
        let e = s.last();
        if has_visible_label(e.1.label) {
            prev.push(line_entry(e.0, e.1, hidden))
        } else {
            prev
        }
    }
}

} // verus!
