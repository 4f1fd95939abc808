//! Placement of the axis labels around the plot.
use vstd::prelude::*;

verus! {

/// Which axis labels surround the plot.
#[derive(Debug, Clone, Copy, PartialEq, Eq, Structural)]
pub enum LabelLayout {
    /// No labels: the plot alone.
    PlotOnly,
    /// The y label on the left of the plot.
    YLabelOnly,
    /// The x label below the plot.
    XLabelOnly,
    /// The y label on the left of a column of the plot above the x label.
    Both,
}

/// Stack the plot with the labels on the bottom and left: an empty label is
/// left out.
pub fn label_layout(x_label: &str, y_label: &str) -> (r: LabelLayout)
    ensures
        r == if x_label@.len() == 0 && y_label@.len() == 0 {
            LabelLayout::PlotOnly
        } else if x_label@.len() == 0 {
            LabelLayout::YLabelOnly
        } else if y_label@.len() == 0 {
            LabelLayout::XLabelOnly
        } else {
            LabelLayout::Both
        },
{
    if x_label.is_empty() && y_label.is_empty() {
        LabelLayout::PlotOnly
    } else if x_label.is_empty() {
        LabelLayout::YLabelOnly
    } else if y_label.is_empty() {
        LabelLayout::XLabelOnly
    } else {
        LabelLayout::Both
    }
}

/// The lines of the controls/help panel: the title, the mouse controls
/// (scroll-to-pan only when enabled), the keyboard control, and the legend
/// hint only when a legend is shown.
pub fn controls_help_lines(scroll_enabled: bool, has_legend: bool) -> (lines: Vec<&'static str>)
    ensures
        lines@.len() == 7 + (if scroll_enabled { 1int } else { 0int }) + (if has_legend { 1int } else { 0int }),
        lines@[0]@ == "Controls"@,
        lines@[1]@ == "Left-drag: pan"@,
        lines@[2]@ == "Right-drag: box zoom"@,
        lines@[3]@ == "Ctrl + scroll: zoom at cursor"@,
        scroll_enabled ==> lines@[4]@ == "Scroll: pan"@,
        lines@[if scroll_enabled { 5int } else { 4int }]@ == "Double-click: reset / autoscale"@,
        lines@[if scroll_enabled { 6int } else { 5int }]@ == "Left-click point: pick"@,
        lines@[if scroll_enabled { 7int } else { 6int }]@ == "Esc: clear picked points"@,
        has_legend ==> lines@[if scroll_enabled { 8int } else { 7int }]@
            == "Click icon in legend to toggle visibility."@,
{
    let mut lines: Vec<&'static str> = Vec::new();
    lines.push("Controls");
    lines.push("Left-drag: pan");
    lines.push("Right-drag: box zoom");
    lines.push("Ctrl + scroll: zoom at cursor");
    if scroll_enabled {
        lines.push("Scroll: pan");
    }
    lines.push("Double-click: reset / autoscale");
    lines.push("Left-click point: pick");
    lines.push("Esc: clear picked points");
    if has_legend {
        lines.push("Click icon in legend to toggle visibility.");
    }
    lines
}

} // verus!
