//! Identifiers and events exchanged between the widget and the application.
use vstd::prelude::*;

use crate::shape::ShapeId;

verus! {

/// Input handling policy for the plot widget.
#[derive(Debug, Clone, Copy, PartialEq, Eq, Structural)]
pub enum InputPolicy {
    /// Use the built-in pan/zoom/hover/pick interactions.
    Default,
    /// Emit input events and suppress built-in interactions.
    Override,
}

/// Identifier for a point in a series.
#[derive(Debug, Clone, Copy, PartialEq, Eq, Hash, Structural)]
pub struct PointId {
    /// ID of the series
    pub series_id: ShapeId,
    /// Index within the series [0..len)
    pub point_index: usize,
}

/// The hover or pick event.
#[derive(Debug, Clone, Copy, PartialEq, Eq, Structural)]
pub enum HoverPickEvent {
    /// Hover a point.
    Hover(PointId),
    /// Clear all hovered points.
    ClearHover,
    /// Pick a point.
    Pick(PointId),
    /// Clear all picked points.
    ClearPick,
}

/// Context passed to hover/pick highlight callbacks.
///
/// Contains information identifying the point being highlighted.
#[derive(Debug, Clone, Copy)]
pub struct TooltipContext<'a> {
    /// ID of the series
    pub series_id: ShapeId,
    /// Label of the series, if any (empty string means none)
    pub series_label: &'a str,
    /// Index within the series [0..len)
    pub point_index: usize,
}

} // verus!
