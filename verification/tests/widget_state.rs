use iced_plot::legend::LegendEntry;
use iced_plot::message::{HoverPickEvent, InputPolicy, PointId};
use iced_plot::plot_widget::{Highlight, PlotWidget};
use iced_plot::point::{MarkerType, NO_MARKER};
use iced_plot::shape::{apply_label, label_is_visible, SeriesError, ShapeId, ShapeInfo};

fn series(label: Option<&str>, n: usize, marker: Option<MarkerType>, line: bool) -> ShapeInfo {
    ShapeInfo::series(label.map(|l| l.to_string()), n, marker, line)
}

fn line(label: Option<&str>) -> ShapeInfo {
    ShapeInfo::line(label.map(|l| l.to_string()))
}

fn pid(series: u64, index: usize) -> PointId {
    PointId { series_id: ShapeId(series), point_index: index }
}

fn built(tip: bool) -> Highlight {
    Highlight::Built { has_tooltip: tip, same_as_stored: false }
}

fn ids(v: &[ShapeId]) -> Vec<u64> {
    v.iter().map(|i| i.0).collect()
}

#[test]
fn new_widget_defaults() {
    let w = PlotWidget::new();
    assert!(w.series_ids().is_empty());
    assert_eq!(w.data_version(), 1);
    assert_eq!(w.highlight_version(), 0);
    assert!(!w.legend_collapsed());
    assert!(!w.controls_overlay_open());
    assert!(w.autoscales_on_updates());
    assert!(!w.cursor_overlay());
    assert!(!w.crosshairs_enabled());
    assert_eq!(w.input_policy(), InputPolicy::Default);
    assert!(w.legend_entries().is_empty());
    assert!(w.visible_highlighted_points().is_empty());
    assert!(!w.has_any_tooltips());
}

#[test]
fn add_series_keeps_insertion_order_and_replaces_in_place() {
    let mut w = PlotWidget::new();
    w.add_series(ShapeId(7), series(Some("a"), 3, Some(MarkerType::Square), false), Ok(())).unwrap();
    w.add_series(ShapeId(2), series(Some("b"), 1, None, true), Ok(())).unwrap();
    w.add_series(ShapeId(9), series(Some("c"), 4, None, true), Ok(())).unwrap();
    assert_eq!(ids(&w.series_ids()), vec![7, 2, 9]);
    assert_eq!(w.data_version(), 4);
    // Replacing id 2 keeps its place and takes the new description.
    w.add_series(ShapeId(2), series(Some("b2"), 5, None, true), Ok(())).unwrap();
    assert_eq!(ids(&w.series_ids()), vec![7, 2, 9]);
    let labels: Vec<String> = w.legend_entries().into_iter().map(|e| e.label).collect();
    assert_eq!(labels, vec!["a", "b2", "c"]);
    assert!(w.valid_point_id(&pid(2, 4)));
    assert!(!w.valid_point_id(&pid(2, 5)));
}

#[test]
fn remove_series_found_and_not_found() {
    let mut w = PlotWidget::new();
    w.add_series(ShapeId(1), series(Some("a"), 2, None, true), Ok(())).unwrap();
    w.add_series(ShapeId(2), series(Some("b"), 2, None, true), Ok(())).unwrap();
    w.add_series(ShapeId(3), series(Some("c"), 2, None, true), Ok(())).unwrap();
    assert!(w.toggle_visibility(&ShapeId(2)));
    assert!(w.is_hidden(&ShapeId(2)));
    let v = w.data_version();
    assert_eq!(w.remove_series(&ShapeId(2)), Ok(()));
    assert_eq!(ids(&w.series_ids()), vec![1, 3]);
    assert!(!w.is_hidden(&ShapeId(2)));
    assert_eq!(w.data_version(), v + 1);
    assert_eq!(w.remove_series(&ShapeId(2)), Err(SeriesError::NotFound(ShapeId(2))));
    assert_eq!(w.data_version(), v + 1);
}

#[test]
fn add_then_remove_restores_table() {
    let mut w = PlotWidget::new();
    w.add_series(ShapeId(1), series(Some("a"), 2, None, true), Ok(())).unwrap();
    w.add_series(ShapeId(5), series(Some("tmp"), 2, None, true), Ok(())).unwrap();
    assert_eq!(w.data_version(), 3);
    assert_eq!(w.remove_series(&ShapeId(5)), Ok(()));
    assert_eq!(ids(&w.series_ids()), vec![1]);
    assert_eq!(w.data_version(), 4);
    assert_eq!(w.legend_entries().len(), 1);
    assert_eq!(w.legend_entries()[0].label, "a");
}

#[test]
fn add_then_remove_unhides_the_id() {
    let mut w = PlotWidget::new();
    w.add_series(ShapeId(1), series(Some("a"), 2, None, true), Ok(())).unwrap();
    w.add_series(ShapeId(2), series(Some("b"), 2, None, true), Ok(())).unwrap();
    assert!(w.toggle_visibility(&ShapeId(2)));
    assert!(w.is_hidden(&ShapeId(2)));
    assert_eq!(w.remove_series(&ShapeId(2)), Ok(()));
    assert!(!w.is_hidden(&ShapeId(2)));
    assert_eq!(w.data_version(), 5);
}

#[test]
fn add_series_refuses_a_failed_check() {
    let mut w = PlotWidget::new();
    let err = SeriesError::InvalidSeries("colors".to_string());
    assert_eq!(
        w.add_series(ShapeId(1), series(Some("a"), 2, None, true), Err(err.clone())),
        Err(err)
    );
    assert!(w.series_ids().is_empty());
    assert_eq!(w.data_version(), 1);
}

#[test]
fn add_series_refuses_a_duplicate_label() {
    let mut w = PlotWidget::new();
    w.add_series(ShapeId(1), series(Some("a"), 2, None, true), Ok(())).unwrap();
    assert_eq!(
        w.add_series(ShapeId(2), series(Some("a"), 3, None, true), Ok(())),
        Err(SeriesError::DuplicateLabel("a".to_string()))
    );
    assert_eq!(ids(&w.series_ids()), vec![1]);
    assert_eq!(w.data_version(), 2);
    // The series being replaced does not count, and neither do empty or
    // missing labels.
    assert_eq!(w.add_series(ShapeId(1), series(Some("a"), 5, None, true), Ok(())), Ok(()));
    w.add_series(ShapeId(3), series(Some(""), 1, None, true), Ok(())).unwrap();
    w.add_series(ShapeId(4), series(Some(""), 1, None, true), Ok(())).unwrap();
    w.add_series(ShapeId(5), series(None, 1, None, true), Ok(())).unwrap();
    w.add_series(ShapeId(6), series(None, 1, None, true), Ok(())).unwrap();
    assert_eq!(ids(&w.series_ids()), vec![1, 3, 4, 5, 6]);
    // A failed check comes before the label check.
    let err = SeriesError::InvalidSeries("size".to_string());
    assert_eq!(w.add_series(ShapeId(7), series(Some("a"), 1, None, true), Err(err.clone())), Err(err));
}

#[test]
fn update_series_and_positions() {
    let mut w = PlotWidget::new();
    assert_eq!(
        w.update_series(&ShapeId(4), series(None, 1, None, true)),
        Err(SeriesError::NotFound(ShapeId(4)))
    );
    assert_eq!(w.data_version(), 1);
    w.add_series(ShapeId(4), series(Some("s"), 2, None, true), Ok(())).unwrap();
    assert_eq!(w.update_series(&ShapeId(4), series(Some("t"), 3, None, true)), Ok(()));
    assert_eq!(w.legend_entries()[0].label, "t");
    assert!(w.valid_point_id(&pid(4, 2)));
    w.set_series_positions(&ShapeId(4), 10);
    assert!(w.valid_point_id(&pid(4, 9)));
    assert_eq!(w.data_version(), 4);
    // Unknown ids change nothing.
    w.set_series_positions(&ShapeId(99), 10);
    w.set_series_point_colors(&ShapeId(99));
    assert_eq!(w.data_version(), 4);
    w.set_series_point_colors(&ShapeId(4));
    assert_eq!(w.data_version(), 5);
}

#[test]
fn toggle_visibility_unknown_and_twice() {
    let mut w = PlotWidget::new();
    assert!(!w.toggle_visibility(&ShapeId(3)));
    assert_eq!(w.data_version(), 1);
    w.add_vline(ShapeId(3), line(Some("v")));
    assert!(w.toggle_visibility(&ShapeId(3)));
    assert!(w.is_hidden(&ShapeId(3)));
    assert!(w.toggle_visibility(&ShapeId(3)));
    assert!(!w.is_hidden(&ShapeId(3)));
    assert_eq!(w.data_version(), 4);
    assert_eq!(w.legend_entries().len(), 1);
    assert!(!w.legend_entries()[0].hidden);
    // Without highlights of the shape the highlight counter stays.
    assert_eq!(w.highlight_version(), 0);
}

#[test]
fn toggle_visibility_bumps_highlight_when_points_of_shape_are_highlighted() {
    let mut w = PlotWidget::new();
    w.add_series(ShapeId(1), series(Some("a"), 3, Some(MarkerType::FilledCircle), false), Ok(())).unwrap();
    w.add_hover_point(pid(1, 0), built(false));
    assert_eq!(w.highlight_version(), 1);
    assert!(w.toggle_visibility(&ShapeId(1)));
    assert_eq!(w.highlight_version(), 2);
    // The hovered point of a hidden series is not shown.
    assert!(w.visible_highlighted_points().is_empty());
    assert!(w.is_hovered(&pid(1, 0)));
}

#[test]
fn legend_rows_in_order_with_filters() {
    let mut w = PlotWidget::new();
    w.add_series(ShapeId(1), series(Some("markers"), 3, Some(MarkerType::Star), false), Ok(())).unwrap();
    w.add_series(ShapeId(2), series(Some(""), 3, None, true), Ok(())).unwrap();
    w.add_series(ShapeId(3), series(None, 3, None, true), Ok(())).unwrap();
    w.add_series(ShapeId(4), series(Some("empty"), 0, None, true), Ok(())).unwrap();
    w.add_series(ShapeId(5), series(Some("nothing drawn"), 3, None, false), Ok(())).unwrap();
    w.add_series(ShapeId(6), series(Some("line"), 2, None, true), Ok(())).unwrap();
    w.add_vline(ShapeId(7), line(Some("v")));
    w.add_vline(ShapeId(8), line(None));
    w.add_hline(ShapeId(9), line(Some("h")));
    assert!(w.toggle_visibility(&ShapeId(6)));
    let rows: Vec<LegendEntry> = w.legend_entries();
    let summary: Vec<(u64, String, u32, bool, bool)> =
        rows.iter().map(|e| (e.id.0, e.label.clone(), e.marker, e.has_line, e.hidden)).collect();
    assert_eq!(
        summary,
        vec![
            (1, "markers".to_string(), 3, false, false),
            (6, "line".to_string(), NO_MARKER, true, true),
            (7, "v".to_string(), NO_MARKER, true, false),
            (9, "h".to_string(), NO_MARKER, true, false),
        ]
    );
}

#[test]
fn pick_toggles_and_unhovers() {
    let mut w = PlotWidget::new();
    w.add_series(ShapeId(1), series(Some("a"), 3, Some(MarkerType::FilledCircle), false), Ok(())).unwrap();
    let p = pid(1, 2);
    w.add_hover_point(p, built(true));
    assert!(w.is_hovered(&p));
    assert!(w.has_any_tooltips());
    w.add_pick_point(p, built(false));
    assert!(w.is_picked(&p));
    assert!(!w.is_hovered(&p));
    assert!(!w.has_any_tooltips());
    assert!(!w.needs_highlight(&p));
    assert_eq!(w.highlight_version(), 2);
    // Picking again un-picks.
    w.add_pick_point(p, built(false));
    assert!(!w.is_picked(&p));
    assert!(!w.is_hovered(&p));
    assert_eq!(w.highlight_version(), 3);
}

#[test]
fn hover_of_picked_point_is_refused() {
    let mut w = PlotWidget::new();
    w.add_series(ShapeId(1), series(Some("a"), 3, Some(MarkerType::FilledCircle), false), Ok(())).unwrap();
    let p = pid(1, 1);
    w.add_pick_point(p, built(false));
    let v = w.highlight_version();
    w.add_hover_point(p, built(true));
    assert!(!w.is_hovered(&p));
    assert!(w.is_picked(&p));
    assert_eq!(w.highlight_version(), v);
}

#[test]
fn unavailable_or_invalid_highlight_stores_nothing() {
    let mut w = PlotWidget::new();
    w.add_series(ShapeId(1), series(Some("a"), 2, Some(MarkerType::FilledCircle), false), Ok(())).unwrap();
    w.add_hover_point(pid(1, 0), Highlight::Unavailable);
    assert!(!w.is_hovered(&pid(1, 0)));
    w.add_hover_point(pid(1, 5), built(true));
    assert!(!w.is_hovered(&pid(1, 5)));
    w.add_pick_point(pid(2, 0), built(true));
    assert!(!w.is_picked(&pid(2, 0)));
    assert_eq!(w.highlight_version(), 0);
}

#[test]
fn same_highlight_is_not_a_change() {
    let mut w = PlotWidget::new();
    w.add_series(ShapeId(1), series(Some("a"), 2, Some(MarkerType::FilledCircle), false), Ok(())).unwrap();
    w.add_hover_point(pid(1, 0), built(false));
    assert_eq!(w.highlight_version(), 1);
    w.add_hover_point(pid(1, 0), Highlight::Built { has_tooltip: false, same_as_stored: true });
    assert_eq!(w.highlight_version(), 1);
    w.add_hover_point(pid(1, 0), Highlight::Built { has_tooltip: true, same_as_stored: false });
    assert_eq!(w.highlight_version(), 2);
    assert!(w.has_any_tooltips());
}

#[test]
fn clear_hover_and_pick() {
    let mut w = PlotWidget::new();
    w.add_series(ShapeId(1), series(Some("a"), 4, Some(MarkerType::FilledCircle), false), Ok(())).unwrap();
    w.clear_hover();
    w.clear_pick();
    assert_eq!(w.highlight_version(), 0);
    w.add_hover_point(pid(1, 0), built(false));
    w.add_pick_point(pid(1, 1), built(false));
    w.clear_hover();
    assert!(!w.is_hovered(&pid(1, 0)));
    assert!(w.is_picked(&pid(1, 1)));
    w.clear_pick();
    assert!(!w.is_picked(&pid(1, 1)));
    assert_eq!(w.highlight_version(), 4);
}

#[test]
fn hover_pick_events() {
    let mut w = PlotWidget::new();
    w.add_series(ShapeId(1), series(Some("a"), 4, Some(MarkerType::FilledCircle), false), Ok(())).unwrap();
    w.add_hover_point(pid(1, 0), built(false));
    w.add_hover_point(pid(1, 1), built(false));
    // A hover event replaces the hovered points.
    w.apply_hover_pick_event(Some(HoverPickEvent::Hover(pid(1, 2))), built(false));
    assert!(!w.is_hovered(&pid(1, 0)));
    assert!(!w.is_hovered(&pid(1, 1)));
    assert!(w.is_hovered(&pid(1, 2)));
    assert_eq!(w.highlight_version(), 3);
    w.apply_hover_pick_event(Some(HoverPickEvent::Pick(pid(1, 3))), built(true));
    assert!(w.is_picked(&pid(1, 3)));
    let shown: Vec<(u64, usize)> =
        w.visible_highlighted_points().iter().map(|p| (p.series_id.0, p.point_index)).collect();
    assert_eq!(shown, vec![(1, 2), (1, 3)]);
    w.apply_hover_pick_event(Some(HoverPickEvent::ClearHover), Highlight::Unavailable);
    assert!(!w.is_hovered(&pid(1, 2)));
    w.apply_hover_pick_event(Some(HoverPickEvent::ClearPick), Highlight::Unavailable);
    assert!(!w.is_picked(&pid(1, 3)));
    assert_eq!(w.highlight_version(), 6);
    w.apply_hover_pick_event(None, Highlight::Unavailable);
    w.apply_hover_pick_event(Some(HoverPickEvent::ClearPick), Highlight::Unavailable);
    assert_eq!(w.highlight_version(), 6);
}

#[test]
fn hover_event_clearing_without_new_hover_keeps_counter() {
    let mut w = PlotWidget::new();
    w.add_series(ShapeId(1), series(Some("a"), 4, Some(MarkerType::FilledCircle), false), Ok(())).unwrap();
    w.add_hover_point(pid(1, 0), built(false));
    let v = w.highlight_version();
    // The hovered point is dropped, but nothing new could be built.
    w.apply_hover_pick_event(Some(HoverPickEvent::Hover(pid(1, 1))), Highlight::Unavailable);
    assert!(!w.is_hovered(&pid(1, 0)));
    assert_eq!(w.highlight_version(), v);
}

#[test]
fn flags_and_toggles() {
    let mut w = PlotWidget::new();
    w.toggle_legend();
    assert!(w.legend_collapsed());
    w.toggle_legend();
    assert!(!w.legend_collapsed());
    w.toggle_controls_overlay();
    assert!(w.controls_overlay_open());
    w.set_input_policy(InputPolicy::Override);
    assert_eq!(w.input_policy(), InputPolicy::Override);
    w.autoscale_on_updates(false);
    assert!(!w.autoscales_on_updates());
    w.set_cursor_overlay(true);
    assert!(w.cursor_overlay());
    w.set_crosshairs(true);
    assert!(w.crosshairs_enabled());
    assert!(!w.contains_shape(&ShapeId(1)));
    w.add_hline(ShapeId(1), line(None));
    assert!(w.contains_shape(&ShapeId(1)));
}

#[test]
fn labels_apply_only_when_non_empty() {
    assert_eq!(apply_label(None, "x".to_string()), Some("x".to_string()));
    assert_eq!(apply_label(Some("old".to_string()), String::new()), Some("old".to_string()));
    assert_eq!(apply_label(Some("old".to_string()), "new".to_string()), Some("new".to_string()));
    assert_eq!(apply_label(None, String::new()), None);
    assert!(label_is_visible(&Some("a".to_string())));
    assert!(!label_is_visible(&Some(String::new())));
    assert!(!label_is_visible(&None));
}

#[test]
fn shape_id_raw_roundtrip() {
    assert_eq!(ShapeId::from_raw(42).raw(), 42);
    let info = series(Some("s"), 3, Some(MarkerType::Triangle), true);
    let copy = info.copy_info();
    assert_eq!(copy.label.as_deref(), Some("s"));
    assert_eq!(copy.point_count, 3);
    assert_eq!(copy.marker, Some(MarkerType::Triangle));
    assert!(copy.has_line);
}

#[test]
fn a_point_is_shown_highlighted_once() {
    let mut w = PlotWidget::new();
    w.add_series(ShapeId(1), series(Some("a"), 3, Some(MarkerType::FilledCircle), false), Ok(())).unwrap();
    w.add_hover_point(pid(1, 1), built(false));
    w.add_pick_point(pid(1, 1), built(false));
    w.add_hover_point(pid(1, 1), built(false));
    let shown: Vec<(u64, usize)> =
        w.visible_highlighted_points().iter().map(|p| (p.series_id.0, p.point_index)).collect();
    assert_eq!(shown, vec![(1, 1)]);
}
