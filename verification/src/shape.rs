use vstd::prelude::*;

use crate::point::{optional_marker_code, MarkerType};

verus! {

/// Identifier of a series or a reference line.
#[derive(Debug, Clone, Copy, PartialEq, Eq, Hash, Structural)]
pub struct ShapeId(pub u64);

impl ShapeId {
    /// An identifier with the given raw value.
    pub fn from_raw(raw: u64) -> (id: ShapeId)
        ensures
            id.0 == raw,
    {
        ShapeId(raw)
    }

    /// The raw value of this identifier.
    pub fn raw(self) -> (raw: u64)
        ensures
            raw == self.0,
    {
        self.0
    }
}

/// Errors reported when shapes are added, changed or removed.
#[derive(Debug, Clone, PartialEq, Eq)]
pub enum SeriesError {
    /// No series with this identifier exists.
    NotFound(ShapeId),
    /// Axis limits whose minimum is not below their maximum.
    InvalidAxisLimits,
    /// Another series already carries this label.
    DuplicateLabel(String),
    /// The series failed the checks of its own data (positions, colours,
    /// styles); the text says which.
    InvalidSeries(String),
}

/// What the bookkeeping knows of a series or a reference line.
///
/// For a series: its label, how many positions it has, its marker (if it draws
/// markers) and whether it draws a connecting line. A reference line has no
/// positions of its own, no marker, and always draws a line.
#[derive(Debug)]
pub struct ShapeInfo {
    /// Label shown in the legend, if any.
    pub label: Option<String>,
    /// Number of data positions of a series.
    pub point_count: usize,
    /// Marker drawn at each position, if any.
    pub marker: Option<MarkerType>,
    /// Whether a line is drawn through the positions.
    pub has_line: bool,
}

/// Whether an optional label is present and non-empty.
pub open spec fn has_visible_label(label: Option<String>) -> bool {
    match label {
        Some(l) => l@.len() > 0,
        None => false,
    }
}

/// The label that results from asking to set `new_label` over `current`:
/// an empty label leaves the current one in place.
pub open spec fn labeled(current: Option<String>, new_label: String) -> Option<String> {
    if new_label@.len() > 0 {
        Some(new_label)
    } else {
        current
    }
}

impl ShapeInfo {
    /// A series with the given label, number of positions, marker and line.
    pub fn series(
        label: Option<String>,
        point_count: usize,
        marker: Option<MarkerType>,
        has_line: bool,
    ) -> (s: ShapeInfo)
        ensures
            s.label == label,
            s.point_count == point_count,
            s.marker == marker,
            s.has_line == has_line,
    {
        ShapeInfo { label, point_count, marker, has_line }
    }

    /// A reference line with the given label.
    pub fn line(label: Option<String>) -> (s: ShapeInfo)
        ensures
            s.label == label,
            s.point_count == 0,
            s.marker.is_none(),
            s.has_line,
    {
        ShapeInfo { label, point_count: 0, marker: None, has_line: true }
    }

    /// Whether a series draws anything at its positions: markers or a line.
    pub open spec fn draws(self) -> bool {
        self.marker.is_some() || self.has_line
    }

    /// The marker code the renderer reads for this shape.
    pub open spec fn marker_code(self) -> u32 {
        optional_marker_code(self.marker)
    }

    /// An equal copy of this shape description.
    pub fn copy_info(&self) -> (c: ShapeInfo)
        ensures
            c == *self,
    {
        let label = match &self.label {
            Some(l) => Some(l.clone()),
            None => None,
        };
        ShapeInfo {
            label,
            point_count: self.point_count,
            marker: self.marker,
            has_line: self.has_line,
        }
    }
}

/// Whether a label is present and non-empty.
pub fn label_is_visible(label: &Option<String>) -> (b: bool)
    ensures
        b == has_visible_label(*label),
{
    match label {
        Some(l) => !l.as_str().is_empty(),
        None => false,
    }
}

/// Apply a requested label: a non-empty label replaces the current one, an
/// empty one leaves the current label unchanged.
pub fn apply_label(current: Option<String>, new_label: String) -> (r: Option<String>)
    ensures
        r == labeled(current, new_label),
{
    if !new_label.as_str().is_empty() {
        Some(new_label)
    } else {
        current
    }
}

} // verus!
