//! Interaction and shape-bookkeeping core of a GPU plotting widget.
//!
//! The library keeps the discrete state of a plot: which series and reference
//! lines exist and in what order, which are hidden, which points are hovered or
//! picked, the legend that results, the layout of point spans handed to the
//! renderer, and the decisions taken on pointer input.
pub mod point;
pub mod shape;
pub mod table;
pub mod message;
pub mod plot_widget;
pub mod legend;
pub mod plot_state;
pub mod interaction;
pub mod plot_renderer;
pub mod axes_labels;
pub mod laws;
