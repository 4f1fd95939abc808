use iced_plot::axes_labels::{controls_help_lines, label_layout, LabelLayout};
use iced_plot::interaction::{
    apply_input_event, clear_hover_effect, command_plan, CommandHover, CommandKind, CommandPlan, gpu_pick_effect, hover_answer_effect, hover_request,
    input_routing, key_hover_pick, mouse_interaction, sync_plan, tick_publication, update_action,
    wants_gpu_pick_result, CameraMove, CursorInteraction, DragState, GpuPickResult, HoverAnswer,
    HoverRequest, MouseButton, PointerContext, PointerKind, UpdateAction, UpdateOutput,
};
use iced_plot::message::{HoverPickEvent, InputPolicy, PointId};
use iced_plot::plot_renderer::{build_line_segments, build_marker_id_map, marker_instance_count, LineSegment};
use iced_plot::plot_state::SeriesSpan;
use iced_plot::plot_widget::PlotWidget;
use iced_plot::point::{marker_type_from_u32, optional_marker_to_u32, MarkerType, NO_MARKER};
use iced_plot::shape::{ShapeId, ShapeInfo};

fn span(id: u64, start: usize, len: usize, marker: u32, has_line: bool) -> SeriesSpan {
    SeriesSpan { id: ShapeId(id), start, len, marker, has_line }
}

fn idle() -> DragState {
    DragState { pan_active: false, selection_active: false, selection_moved: false }
}

fn ctx() -> PointerContext {
    PointerContext {
        interactions_enabled: true,
        scroll_to_pan_enabled: true,
        hover_enabled: true,
        crosshairs_enabled: false,
        inside: true,
        ctrl_held: false,
        double_click: false,
        dragged: false,
    }
}

#[test]
fn marker_codes_roundtrip() {
    let all = [
        MarkerType::FilledCircle,
        MarkerType::EmptyCircle,
        MarkerType::Square,
        MarkerType::Star,
        MarkerType::Triangle,
    ];
    for (i, m) in all.iter().enumerate() {
        assert_eq!(m.to_u32(), i as u32);
        assert_eq!(marker_type_from_u32(m.to_u32()), *m);
    }
    assert_eq!(marker_type_from_u32(5), MarkerType::FilledCircle);
    assert_eq!(marker_type_from_u32(u32::MAX), MarkerType::FilledCircle);
    assert_eq!(optional_marker_to_u32(None), NO_MARKER);
    assert_eq!(optional_marker_to_u32(Some(MarkerType::Star)), 3);
}

#[test]
fn series_spans_are_contiguous() {
    let mut w = PlotWidget::new();
    w.add_series(ShapeId(1), ShapeInfo::series(None, 3, Some(MarkerType::Square), false), Ok(())).unwrap();
    w.add_series(ShapeId(2), ShapeInfo::series(None, 0, None, true), Ok(())).unwrap();
    w.add_series(ShapeId(3), ShapeInfo::series(None, 4, None, false), Ok(())).unwrap();
    w.add_series(ShapeId(4), ShapeInfo::series(None, 5, None, true), Ok(())).unwrap();
    w.add_series(ShapeId(5), ShapeInfo::series(None, 2, None, true), Ok(())).unwrap();
    assert!(w.toggle_visibility(&ShapeId(5)));
    let spans = w.series_spans();
    assert_eq!(w.try_series_spans(), Some(spans.clone()));
    assert_eq!(
        spans,
        vec![
            span(1, 0, 3, 2, false),
            span(3, 3, 0, NO_MARKER, false),
            span(4, 3, 5, NO_MARKER, true),
        ]
    );
}

#[test]
fn span_totals_that_overflow_are_refused() {
    let mut w = PlotWidget::new();
    w.add_series(ShapeId(1), ShapeInfo::series(None, usize::MAX, None, true), Ok(())).unwrap();
    w.add_series(ShapeId(2), ShapeInfo::series(None, 1, None, true), Ok(())).unwrap();
    assert_eq!(w.try_series_spans(), None);
    assert!(w.toggle_visibility(&ShapeId(2)));
    assert_eq!(w.try_series_spans(), Some(vec![span(1, 0, usize::MAX, NO_MARKER, true)]));
}

#[test]
fn visible_reference_lines() {
    let mut w = PlotWidget::new();
    w.add_vline(ShapeId(1), ShapeInfo::line(None));
    w.add_vline(ShapeId(2), ShapeInfo::line(None));
    w.add_hline(ShapeId(3), ShapeInfo::line(None));
    assert!(w.toggle_visibility(&ShapeId(1)));
    let v: Vec<u64> = w.visible_vlines().iter().map(|i| i.0).collect();
    let h: Vec<u64> = w.visible_hlines().iter().map(|i| i.0).collect();
    assert_eq!(v, vec![2]);
    assert_eq!(h, vec![3]);
}

#[test]
fn marker_buffer_layout() {
    let spans = vec![
        span(1, 0, 2, 0, false),
        span(2, 2, 3, NO_MARKER, true),
        span(3, 5, 2, 4, false),
        span(4, 7, 5, 1, false),
    ];
    // The last span does not fit in a buffer of 8 points; it is still counted.
    assert_eq!(marker_instance_count(&spans), 9);
    let map = build_marker_id_map(&spans, 8);
    assert_eq!(map, vec![(0, 0), (0, 1), (2, 0), (2, 1)]);
}

#[test]
fn line_buffer_layout() {
    let spans = vec![
        span(1, 0, 4, NO_MARKER, true),
        span(2, 4, 1, NO_MARKER, true),
        span(3, 5, 3, 0, false),
        span(4, 8, 2, NO_MARKER, true),
    ];
    assert_eq!(
        build_line_segments(&spans),
        vec![
            LineSegment { first_vertex: 0, vertex_count: 4 },
            LineSegment { first_vertex: 4, vertex_count: 2 },
        ]
    );
}

#[test]
fn label_layouts() {
    assert_eq!(label_layout("", ""), LabelLayout::PlotOnly);
    assert_eq!(label_layout("", "y"), LabelLayout::YLabelOnly);
    assert_eq!(label_layout("x", ""), LabelLayout::XLabelOnly);
    assert_eq!(label_layout("x", "y"), LabelLayout::Both);
}

#[test]
fn help_lines() {
    assert_eq!(controls_help_lines(false, false).len(), 7);
    let all = controls_help_lines(true, true);
    assert_eq!(all.len(), 9);
    assert_eq!(all[4], "Scroll: pan");
    assert_eq!(all[8], "Click icon in legend to toggle visibility.");
    let some = controls_help_lines(false, true);
    assert_eq!(some[4], "Double-click: reset / autoscale");
    assert_eq!(some[7], "Click icon in legend to toggle visibility.");
}

#[test]
fn left_press_starts_pan_and_requests_pick() {
    let r = apply_input_event(idle(), PointerKind::ButtonPressed(MouseButton::Left), ctx());
    assert!(r.drag.pan_active);
    assert!(r.start_pan);
    assert!(r.record_click);
    assert!(r.effects.request_pick_on_click);
    assert_eq!(r.camera, CameraMove::Stay);
    let released = apply_input_event(r.drag, PointerKind::ButtonReleased(MouseButton::Left), ctx());
    assert!(!released.drag.pan_active);
}

#[test]
fn double_click_autoscales() {
    let c = PointerContext { double_click: true, ..ctx() };
    let r = apply_input_event(idle(), PointerKind::ButtonPressed(MouseButton::Left), c);
    assert_eq!(r.camera, CameraMove::Autoscale);
    assert!(!r.drag.pan_active);
    assert!(r.record_click);
    assert!(r.effects.needs_redraw);
}

#[test]
fn press_outside_does_nothing() {
    let c = PointerContext { inside: false, ..ctx() };
    let r = apply_input_event(idle(), PointerKind::ButtonPressed(MouseButton::Left), c);
    assert!(!r.record_click);
    assert!(!r.drag.pan_active);
    let r = apply_input_event(idle(), PointerKind::ButtonPressed(MouseButton::Right), c);
    assert!(!r.drag.selection_active);
}

#[test]
fn right_drag_zooms_to_selection() {
    let r = apply_input_event(idle(), PointerKind::ButtonPressed(MouseButton::Right), ctx());
    assert!(r.drag.selection_active && r.start_selection && !r.drag.selection_moved);
    let m = apply_input_event(r.drag, PointerKind::CursorMoved, ctx());
    assert!(m.extend_selection && m.drag.selection_moved && m.effects.needs_redraw);
    let c = PointerContext { dragged: true, ..ctx() };
    let rel = apply_input_event(m.drag, PointerKind::ButtonReleased(MouseButton::Right), c);
    assert_eq!(rel.camera, CameraMove::ZoomToSelection);
    assert!(!rel.drag.selection_active && !rel.drag.selection_moved);
    let short = apply_input_event(m.drag, PointerKind::ButtonReleased(MouseButton::Right), ctx());
    assert_eq!(short.camera, CameraMove::Stay);
    assert!(short.effects.needs_redraw);
}

#[test]
fn pan_follows_moves() {
    let drag = DragState { pan_active: true, selection_active: false, selection_moved: false };
    let m = apply_input_event(drag, PointerKind::CursorMoved, ctx());
    assert_eq!(m.camera, CameraMove::DragPan);
    assert!(m.track_cursor && m.effects.cursor_moved);
}

#[test]
fn wheel_zooms_with_ctrl_and_pans_otherwise() {
    let c = PointerContext { ctrl_held: true, ..ctx() };
    assert_eq!(apply_input_event(idle(), PointerKind::WheelScrolled, c).camera, CameraMove::ZoomAtCursor);
    assert_eq!(apply_input_event(idle(), PointerKind::WheelScrolled, ctx()).camera, CameraMove::ScrollPan);
    let no_pan = PointerContext { scroll_to_pan_enabled: false, ..ctx() };
    let r = apply_input_event(idle(), PointerKind::WheelScrolled, no_pan);
    assert_eq!(r.camera, CameraMove::Stay);
    assert!(!r.effects.needs_redraw);
}

#[test]
fn override_policy_is_passive() {
    let routing = input_routing(InputPolicy::Override);
    assert!(!routing.interactions_enabled && routing.report_input);
    let c = PointerContext { interactions_enabled: routing.interactions_enabled, ..ctx() };
    let drag = DragState { pan_active: true, selection_active: true, selection_moved: true };
    for kind in [
        PointerKind::CursorMoved,
        PointerKind::ButtonPressed(MouseButton::Left),
        PointerKind::ButtonReleased(MouseButton::Left),
        PointerKind::ButtonReleased(MouseButton::Right),
        PointerKind::WheelScrolled,
    ] {
        let r = apply_input_event(drag, kind, c);
        assert_eq!(r.drag, drag);
        assert_eq!(r.camera, CameraMove::Stay);
    }
    let d = input_routing(InputPolicy::Default);
    assert!(d.interactions_enabled && !d.report_input);
}

#[test]
fn cursor_leave_and_crosshairs() {
    let r = apply_input_event(idle(), PointerKind::CursorLeft, ctx());
    assert!(r.effects.cursor_left && !r.effects.cursor_moved && !r.track_cursor);
    let c = PointerContext { crosshairs_enabled: true, interactions_enabled: false, ..ctx() };
    let m = apply_input_event(idle(), PointerKind::CursorMoved, c);
    assert!(m.effects.needs_redraw);
    let outside = PointerContext { inside: false, ..ctx() };
    assert!(apply_input_event(idle(), PointerKind::CursorEntered, outside).effects.cursor_left);
}

#[test]
fn cursor_shapes() {
    let pan = DragState { pan_active: true, selection_active: true, selection_moved: false };
    assert_eq!(mouse_interaction(pan, true), CursorInteraction::Grabbing);
    let sel = DragState { pan_active: false, selection_active: true, selection_moved: false };
    assert_eq!(mouse_interaction(sel, true), CursorInteraction::Crosshair);
    assert_eq!(mouse_interaction(idle(), true), CursorInteraction::Pointer);
    assert_eq!(mouse_interaction(idle(), false), CursorInteraction::Idle);
}

#[test]
fn hover_clearing() {
    let p = PointId { series_id: ShapeId(1), point_index: 0 };
    let r = clear_hover_effect(true, false, None);
    assert!(r.clear_cache);
    assert_eq!(r.hover_pick, Some(HoverPickEvent::ClearHover));
    let r = clear_hover_effect(false, false, None);
    assert!(!r.clear_cache && r.hover_pick.is_none());
    let r = clear_hover_effect(true, true, Some(HoverPickEvent::Pick(p)));
    assert!(!r.clear_cache);
    assert_eq!(r.hover_pick, Some(HoverPickEvent::Pick(p)));
}

#[test]
fn hover_queries() {
    let p = PointId { series_id: ShapeId(1), point_index: 3 };
    assert_eq!(hover_request(false, idle(), true, None), HoverRequest::Skip);
    let pan = DragState { pan_active: true, selection_active: false, selection_moved: false };
    assert_eq!(hover_request(true, pan, true, None), HoverRequest::Skip);
    assert_eq!(hover_request(true, idle(), false, None), HoverRequest::Clear);
    assert_eq!(hover_request(true, idle(), true, Some(HoverPickEvent::ClearPick)), HoverRequest::Skip);
    assert_eq!(hover_request(true, idle(), true, None), HoverRequest::Query);
    let hit = hover_answer_effect(HoverAnswer::CpuHit(p), false, false, None);
    assert_eq!(hit.hover_pick, Some(HoverPickEvent::Hover(p)));
    let miss = hover_answer_effect(HoverAnswer::CpuMiss, false, true, None);
    assert_eq!(miss.hover_pick, Some(HoverPickEvent::ClearHover));
    let gpu = hover_answer_effect(HoverAnswer::RequestedGpu, false, false, None);
    assert!(gpu.needs_redraw && gpu.hover_pick.is_none());
}

#[test]
fn gpu_results() {
    let p = PointId { series_id: ShapeId(2), point_index: 1 };
    assert!(wants_gpu_pick_result(true, 100, 50, None));
    assert!(!wants_gpu_pick_result(true, 10, 50, None));
    assert!(!wants_gpu_pick_result(false, 100, 50, None));
    assert!(!wants_gpu_pick_result(true, 100, 50, Some(HoverPickEvent::ClearPick)));
    assert_eq!(gpu_pick_effect(Some(GpuPickResult::Pick(p)), false, false, None).hover_pick, Some(HoverPickEvent::Pick(p)));
    assert_eq!(gpu_pick_effect(Some(GpuPickResult::Hover(p)), false, false, None).hover_pick, Some(HoverPickEvent::Hover(p)));
    let miss = gpu_pick_effect(Some(GpuPickResult::HoverMiss), true, false, None);
    assert!(miss.clear_cache);
    assert_eq!(miss.hover_pick, Some(HoverPickEvent::ClearHover));
    assert!(gpu_pick_effect(None, true, true, None).hover_pick.is_none());
}

#[test]
fn sync_plans() {
    let first = sync_plan(1, 0, false, false);
    assert!(first.rebuild && first.autoscale && !first.update_axis_links && first.needs_redraw);
    let data = sync_plan(3, 2, false, false);
    assert!(data.rebuild && !data.autoscale);
    let data_auto = sync_plan(3, 2, true, false);
    assert!(data_auto.autoscale && data_auto.update_axis_links);
    let limits = sync_plan(3, 3, false, true);
    assert!(!limits.rebuild && limits.adopt_limits && limits.autoscale && limits.update_axis_links);
    let quiet = sync_plan(3, 3, true, false);
    assert!(!quiet.rebuild && !quiet.autoscale && !quiet.needs_redraw);
}

#[test]
fn key_events() {
    assert_eq!(key_hover_pick(true, InputPolicy::Default, None), Some(HoverPickEvent::ClearPick));
    assert_eq!(key_hover_pick(true, InputPolicy::Override, None), None);
    assert_eq!(key_hover_pick(false, InputPolicy::Default, Some(HoverPickEvent::ClearHover)), Some(HoverPickEvent::ClearHover));
}

#[test]
fn ticks_and_publishing() {
    let t = tick_publication(false, true, true, true, true);
    assert!(!t.x_ticks && !t.y_ticks && !t.camera_bounds);
    let t = tick_publication(true, true, false, true, true);
    assert!(t.x_ticks && !t.y_ticks && !t.camera_bounds);
    let t = tick_publication(true, false, false, true, true);
    assert!(t.camera_bounds);
    let quiet = UpdateOutput {
        hover_pick: false,
        cursor_ui: false,
        x_ticks: false,
        y_ticks: false,
        clear_cursor_position: false,
        camera_bounds: false,
        input_event: false,
        needs_redraw: false,
    };
    assert_eq!(update_action(quiet), UpdateAction::Quiet);
    assert_eq!(update_action(UpdateOutput { needs_redraw: true, ..quiet }), UpdateAction::Redraw);
    assert_eq!(
        update_action(UpdateOutput { input_event: true, ..quiet }),
        UpdateAction::Publish { render: false, camera_bounds: false }
    );
    assert_eq!(
        update_action(UpdateOutput { cursor_ui: true, ..quiet }),
        UpdateAction::Publish { render: true, camera_bounds: false }
    );
    assert_eq!(
        update_action(UpdateOutput { hover_pick: true, ..quiet }),
        UpdateAction::Publish { render: true, camera_bounds: true }
    );
}

fn plan(input: Option<bool>, hover: CommandHover, moves_camera: bool, autoscale: bool, clear_pick: bool, pick: bool, redraw: bool) -> CommandPlan {
    CommandPlan { input, hover, moves_camera, autoscale, clear_pick, pick, redraw }
}

#[test]
fn command_plans() {
    assert_eq!(
        command_plan(CommandKind::ApplyInputEvent { interactions_enabled: false }),
        plan(Some(false), CommandHover::Keep, false, false, false, false, false)
    );
    assert_eq!(
        command_plan(CommandKind::ApplyDefaultMouseEvent(PointerKind::CursorMoved)),
        plan(Some(true), CommandHover::RequestAndTrack, false, false, false, false, false)
    );
    assert_eq!(
        command_plan(CommandKind::ApplyDefaultMouseEvent(PointerKind::CursorEntered)),
        plan(Some(true), CommandHover::RequestAndTrack, false, false, false, false, false)
    );
    assert_eq!(
        command_plan(CommandKind::ApplyDefaultMouseEvent(PointerKind::CursorLeft)),
        plan(Some(true), CommandHover::Clear, false, false, false, false, false)
    );
    assert_eq!(
        command_plan(CommandKind::ApplyDefaultMouseEvent(PointerKind::WheelScrolled)),
        plan(Some(true), CommandHover::Keep, false, false, false, false, false)
    );
    for k in [CommandKind::PanByWorld, CommandKind::ZoomBy, CommandKind::ZoomToWorldRect] {
        assert_eq!(command_plan(k), plan(None, CommandHover::Keep, true, false, false, false, true));
    }
    assert_eq!(command_plan(CommandKind::Autoscale), plan(None, CommandHover::Keep, false, true, false, false, true));
    assert_eq!(command_plan(CommandKind::ClearHover), plan(None, CommandHover::Clear, false, false, false, false, true));
    assert_eq!(command_plan(CommandKind::ClearPick), plan(None, CommandHover::Keep, false, false, true, false, true));
    assert_eq!(command_plan(CommandKind::RequestHover), plan(None, CommandHover::Request, false, false, false, false, false));
    assert_eq!(command_plan(CommandKind::RequestPick), plan(None, CommandHover::Keep, false, false, false, true, false));
}
