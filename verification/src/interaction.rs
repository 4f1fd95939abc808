//! Decisions taken on pointer input and on each update of the widget.
//!
//! The widget's camera, cursor position and selection rectangle are floating
//! point values kept by the renderer side; the functions here decide, from
//! the discrete state and the kind of input, what happens to them.
use vstd::prelude::*;

use crate::message::{HoverPickEvent, InputPolicy, PointId};

verus! {

/// A mouse button.
#[derive(Debug, Clone, Copy, PartialEq, Eq, Structural)]
pub enum MouseButton {
    /// The left button: pans, picks, and autoscales on double click.
    Left,
    /// The right button: draws a zoom rectangle.
    Right,
    /// Any other button: ignored.
    Other,
}

/// The kind of a pointer event.
#[derive(Debug, Clone, Copy, PartialEq, Eq, Structural)]
pub enum PointerKind {
    /// The cursor moved.
    CursorMoved,
    /// The cursor entered the plot.
    CursorEntered,
    /// The cursor left the plot.
    CursorLeft,
    /// A button was pressed.
    ButtonPressed(MouseButton),
    /// A button was released.
    ButtonReleased(MouseButton),
    /// The wheel was scrolled.
    WheelScrolled,
}

/// Drag state of the plot.
#[derive(Debug, Clone, Copy, PartialEq, Eq, Structural)]
pub struct DragState {
    /// A left-button pan is in progress.
    pub pan_active: bool,
    /// A right-button zoom rectangle is being drawn.
    pub selection_active: bool,
    /// The zoom rectangle has been moved since it started.
    pub selection_moved: bool,
}

/// Settings and facts about one pointer event that the decision needs.
#[derive(Debug, Clone, Copy, PartialEq, Eq, Structural)]
pub struct PointerContext {
    /// Whether the built-in interactions are on for this event.
    pub interactions_enabled: bool,
    /// Whether scrolling without Ctrl pans the plot.
    pub scroll_to_pan_enabled: bool,
    /// Whether hovering and picking are on.
    pub hover_enabled: bool,
    /// Whether crosshairs follow the cursor.
    pub crosshairs_enabled: bool,
    /// Whether the pointer is inside the plot bounds.
    pub inside: bool,
    /// Whether Ctrl is held.
    pub ctrl_held: bool,
    /// Whether a left press now would be the second click of a double click.
    pub double_click: bool,
    /// Whether the zoom rectangle spans more than the drag threshold.
    pub dragged: bool,
}

/// How the camera moves in response to an event.
#[derive(Debug, Clone, Copy, PartialEq, Eq, Structural)]
pub enum CameraMove {
    /// The camera stays.
    Stay,
    /// Follow a left-button drag from where it started.
    DragPan,
    /// Fit the data (and update the axis links).
    Autoscale,
    /// Zoom to the rectangle that was drawn.
    ZoomToSelection,
    /// Zoom around the cursor (Ctrl + wheel).
    ZoomAtCursor,
    /// Pan by the wheel delta.
    ScrollPan,
}

/// Effects of an input event that the widget reports to the update loop.
#[derive(Debug, Clone, Copy, PartialEq, Eq, Structural)]
pub struct InputEffects {
    /// The plot must be drawn again.
    pub needs_redraw: bool,
    /// The cursor moved.
    pub cursor_moved: bool,
    /// The cursor left the plot.
    pub cursor_left: bool,
    /// A click should pick the point under the cursor.
    pub request_pick_on_click: bool,
}

/// Everything that one pointer event changes.
///
/// The keyboard modifiers are always taken from the event.
#[derive(Debug, Clone, Copy, PartialEq, Eq, Structural)]
pub struct InputStep {
    /// The drag state afterwards.
    pub drag: DragState,
    /// The effects reported.
    pub effects: InputEffects,
    /// The cursor position (and the crosshairs, when on) follow the pointer.
    pub track_cursor: bool,
    /// The end of the zoom rectangle moves to the cursor.
    pub extend_selection: bool,
    /// A zoom rectangle starts, collapsed, at the cursor.
    pub start_selection: bool,
    /// A pan starts from the pointer and the current camera centre.
    pub start_pan: bool,
    /// The time of this click is recorded for double-click detection.
    pub record_click: bool,
    /// How the camera moves.
    pub camera: CameraMove,
}

/// Whether an event is a cursor move or enter.
pub open spec fn is_motion(kind: PointerKind) -> bool {
    kind == PointerKind::CursorMoved || kind == PointerKind::CursorEntered
}

/// Decide what a pointer event does to the plot.
///
/// Moves track the cursor; with interactions on they extend an active zoom
/// rectangle, follow an active pan, and ask for a redraw so that hovering is
/// refreshed. A left press inside records the click and either autoscales
/// (double click) or starts a pan, asking for a pick when idle. A right
/// press inside starts a zoom rectangle. Releasing the left button ends the
/// pan; releasing the right button ends the rectangle, zooming to it when it
/// was dragged far enough. Ctrl + wheel inside zooms at the cursor; the
/// wheel alone pans when scroll-to-pan is on.
pub fn apply_input_event(drag: DragState, kind: PointerKind, c: PointerContext) -> (r: InputStep)
    ensures
        !c.interactions_enabled ==> r.drag == drag && r.camera == CameraMove::Stay && !r.record_click
            && !r.start_pan && !r.start_selection && !r.extend_selection && !r.effects.request_pick_on_click,
        r.track_cursor == is_motion(kind),
        r.effects.cursor_moved == is_motion(kind),
        r.effects.cursor_left == ((is_motion(kind) && !c.inside) || kind == PointerKind::CursorLeft),
        r.record_click == (kind == PointerKind::ButtonPressed(MouseButton::Left) && c.interactions_enabled && c.inside),
        r.start_pan == (r.record_click && !c.double_click),
        r.effects.request_pick_on_click == (r.start_pan && c.hover_enabled && !drag.pan_active
            && !drag.selection_active),
        r.start_selection == (kind == PointerKind::ButtonPressed(MouseButton::Right) && c.interactions_enabled
            && c.inside),
        r.extend_selection == (c.interactions_enabled && drag.selection_active && (is_motion(kind)
            || kind == PointerKind::ButtonReleased(MouseButton::Right))),
        r.drag.pan_active == if r.start_pan {
            true
        } else if kind == PointerKind::ButtonReleased(MouseButton::Left) && c.interactions_enabled {
            false
        } else {
            drag.pan_active
        },
        r.drag.selection_active == if r.start_selection {
            true
        } else if kind == PointerKind::ButtonReleased(MouseButton::Right) && c.interactions_enabled {
            false
        } else {
            drag.selection_active
        },
        r.drag.selection_moved == if r.start_selection {
            false
        } else if is_motion(kind) && c.interactions_enabled && drag.selection_active {
            true
        } else if kind == PointerKind::ButtonReleased(MouseButton::Right) && c.interactions_enabled
            && drag.selection_active {
            false
        } else {
            drag.selection_moved
        },
        r.camera == if is_motion(kind) && c.interactions_enabled && drag.pan_active {
            CameraMove::DragPan
        } else if r.record_click && c.double_click {
            CameraMove::Autoscale
        } else if kind == PointerKind::ButtonReleased(MouseButton::Right) && c.interactions_enabled
            && drag.selection_active && c.dragged {
            CameraMove::ZoomToSelection
        } else if kind == PointerKind::WheelScrolled && c.interactions_enabled && c.inside && c.ctrl_held {
            CameraMove::ZoomAtCursor
        } else if kind == PointerKind::WheelScrolled && c.interactions_enabled && c.inside
            && c.scroll_to_pan_enabled {
            CameraMove::ScrollPan
        } else {
            CameraMove::Stay
        },
        r.effects.needs_redraw == ((is_motion(kind) && c.crosshairs_enabled) || (is_motion(kind)
            && c.interactions_enabled && (drag.selection_active || drag.pan_active || (c.hover_enabled
            && c.inside))) || r.start_selection || (r.record_click && c.double_click) || (kind
            == PointerKind::ButtonReleased(MouseButton::Right) && c.interactions_enabled
            && drag.selection_active) || r.camera == CameraMove::ZoomAtCursor || r.camera
            == CameraMove::ScrollPan),
{
    let mut effects = InputEffects {
        needs_redraw: false,
        cursor_moved: false,
        cursor_left: false,
        request_pick_on_click: false,
    };
    let mut step = InputStep {
        drag,
        effects,
        track_cursor: false,
        extend_selection: false,
        start_selection: false,
        start_pan: false,
        record_click: false,
        camera: CameraMove::Stay,
    };
    match kind {
        PointerKind::CursorMoved | PointerKind::CursorEntered => {
            step.track_cursor = true;
            if c.crosshairs_enabled {
                effects.needs_redraw = true;
            }
            effects.cursor_moved = true;
            effects.cursor_left = !c.inside;
            if c.interactions_enabled {
                if drag.selection_active {
                    step.extend_selection = true;
                    step.drag.selection_moved = true;
                    effects.needs_redraw = true;
                }
                if drag.pan_active {
                    step.camera = CameraMove::DragPan;
                    effects.needs_redraw = true;
                }
                if !drag.pan_active && !drag.selection_active && c.hover_enabled && c.inside {
                    effects.needs_redraw = true;
                }
            }
        },
        PointerKind::CursorLeft => {
            effects.cursor_left = true;
        },
        PointerKind::ButtonPressed(button) => {
            if c.interactions_enabled && c.inside {
                match button {
                    MouseButton::Left => {
                        step.record_click = true;
                        if c.double_click {
                            step.camera = CameraMove::Autoscale;
                            effects.needs_redraw = true;
                        } else {
                            if c.hover_enabled && !drag.pan_active && !drag.selection_active {
                                effects.request_pick_on_click = true;
                            }
                            step.drag.pan_active = true;
                            step.start_pan = true;
                        }
                    },
                    MouseButton::Right => {
                        step.drag.selection_active = true;
                        step.start_selection = true;
                        step.drag.selection_moved = false;
                        effects.needs_redraw = true;
                    },
                    MouseButton::Other => {},
                }
            }
        },
        PointerKind::ButtonReleased(button) => {
            if c.interactions_enabled {
                match button {
                    MouseButton::Left => {
                        step.drag.pan_active = false;
                    },
                    MouseButton::Right => {
                        if drag.selection_active {
                            step.extend_selection = true;
                            if c.dragged {
                                step.camera = CameraMove::ZoomToSelection;
                            }
                            step.drag.selection_active = false;
                            step.drag.selection_moved = false;
                            effects.needs_redraw = true;
                        }
                    },
                    MouseButton::Other => {},
                }
            }
        },
        PointerKind::WheelScrolled => {
            if c.interactions_enabled && c.inside {
                if c.ctrl_held {
                    step.camera = CameraMove::ZoomAtCursor;
                    effects.needs_redraw = true;
                } else if c.scroll_to_pan_enabled {
                    step.camera = CameraMove::ScrollPan;
                    effects.needs_redraw = true;
                }
            }
        },
    }
    step.effects = effects;
    step
}

/// The mouse cursor shown over the plot.
#[derive(Debug, Clone, Copy, PartialEq, Eq, Structural)]
pub enum CursorInteraction {
    /// A pan is in progress.
    Grabbing,
    /// A zoom rectangle is being drawn.
    Crosshair,
    /// The cursor is over a point.
    Pointer,
    /// Nothing in particular.
    Idle,
}

/// The cursor to show: grabbing while panning, a crosshair while drawing a
/// zoom rectangle, a pointer over a hovered point, the default otherwise.
pub fn mouse_interaction(drag: DragState, hovering_point: bool) -> (r: CursorInteraction)
    ensures
        r == if drag.pan_active {
            CursorInteraction::Grabbing
        } else if drag.selection_active {
            CursorInteraction::Crosshair
        } else if hovering_point {
            CursorInteraction::Pointer
        } else {
            CursorInteraction::Idle
        },
{
    if drag.pan_active {
        CursorInteraction::Grabbing
    } else if drag.selection_active {
        CursorInteraction::Crosshair
    } else if hovering_point {
        CursorInteraction::Pointer
    } else {
        CursorInteraction::Idle
    }
}

/// Changes to the hover bookkeeping of one update.
#[derive(Debug, Clone, Copy, PartialEq, Eq, Structural)]
pub struct HoverUpdate {
    /// Forget the point last found under the cursor.
    pub clear_cache: bool,
    /// The hover/pick event to report.
    pub hover_pick: Option<HoverPickEvent>,
    /// Keep drawing (a GPU pick is pending).
    pub needs_redraw: bool,
}

/// The result of clearing the hover: when no event is pending yet and
/// something is hovered (a cached hit or hovered points), forget the cache
/// and report `ClearHover`; otherwise change nothing.
pub open spec fn cleared_hover(cache_present: bool, hovered_any: bool, pending: Option<HoverPickEvent>) -> HoverUpdate {
    if pending.is_none() && (cache_present || hovered_any) {
        HoverUpdate { clear_cache: true, hover_pick: Some(HoverPickEvent::ClearHover), needs_redraw: false }
    } else {
        HoverUpdate { clear_cache: false, hover_pick: pending, needs_redraw: false }
    }
}

/// Clear the hover, if anything is hovered and no event is pending.
pub fn clear_hover_effect(cache_present: bool, hovered_any: bool, pending: Option<HoverPickEvent>) -> (r: HoverUpdate)
    ensures
        r == cleared_hover(cache_present, hovered_any, pending),
{
    if pending.is_none() && (cache_present || hovered_any) {
        HoverUpdate { clear_cache: true, hover_pick: Some(HoverPickEvent::ClearHover), needs_redraw: false }
    } else {
        HoverUpdate { clear_cache: false, hover_pick: pending, needs_redraw: false }
    }
}

/// What to do about hovering in this update.
#[derive(Debug, Clone, Copy, PartialEq, Eq, Structural)]
pub enum HoverRequest {
    /// Nothing: hovering is off, a drag is in progress, or an event is
    /// already pending.
    Skip,
    /// The cursor is outside: clear the hover.
    Clear,
    /// Look for a point under the cursor.
    Query,
}

/// Decide whether to look for a hovered point: not while hovering is off
/// or a drag is in progress; clear the hover when the cursor is outside;
/// otherwise look, unless an event is already pending.
pub fn hover_request(
    hover_enabled: bool,
    drag: DragState,
    cursor_inside: bool,
    pending: Option<HoverPickEvent>,
) -> (r: HoverRequest)
    ensures
        r == if !hover_enabled || drag.pan_active || drag.selection_active {
            HoverRequest::Skip
        } else if !cursor_inside {
            HoverRequest::Clear
        } else if pending.is_some() {
            HoverRequest::Skip
        } else {
            HoverRequest::Query
        },
{
    if !hover_enabled || drag.pan_active || drag.selection_active {
        HoverRequest::Skip
    } else if !cursor_inside {
        HoverRequest::Clear
    } else if pending.is_some() {
        HoverRequest::Skip
    } else {
        HoverRequest::Query
    }
}

/// The answer of the point picker to a hover query.
#[derive(Debug, Clone, Copy, PartialEq, Eq, Structural)]
pub enum HoverAnswer {
    /// A point was found on the CPU.
    CpuHit(PointId),
    /// No point was found on the CPU.
    CpuMiss,
    /// The query was handed to the GPU; the answer comes later.
    RequestedGpu,
}

/// Act on the answer to a hover query: a hit is reported as `Hover`, a miss
/// clears the hover, and a GPU query keeps the plot drawing.
pub fn hover_answer_effect(
    answer: HoverAnswer,
    cache_present: bool,
    hovered_any: bool,
    pending: Option<HoverPickEvent>,
) -> (r: HoverUpdate)
    ensures
        r == match answer {
            HoverAnswer::CpuHit(p) => HoverUpdate {
                clear_cache: false,
                hover_pick: Some(HoverPickEvent::Hover(p)),
                needs_redraw: false,
            },
            HoverAnswer::CpuMiss => cleared_hover(cache_present, hovered_any, pending),
            HoverAnswer::RequestedGpu => HoverUpdate {
                clear_cache: false,
                hover_pick: pending,
                needs_redraw: true,
            },
        },
{
    match answer {
        HoverAnswer::CpuHit(p) => HoverUpdate {
            clear_cache: false,
            hover_pick: Some(HoverPickEvent::Hover(p)),
            needs_redraw: false,
        },
        HoverAnswer::CpuMiss => clear_hover_effect(cache_present, hovered_any, pending),
        HoverAnswer::RequestedGpu => HoverUpdate { clear_cache: false, hover_pick: pending, needs_redraw: true },
    }
}

/// A finished GPU pick.
#[derive(Debug, Clone, Copy, PartialEq, Eq, Structural)]
pub enum GpuPickResult {
    /// A click picked this point.
    Pick(PointId),
    /// The cursor hovers this point.
    Hover(PointId),
    /// The cursor hovers no point.
    HoverMiss,
}

/// Whether finished GPU picks are collected in this update: only when
/// hovering is on, there are enough points for GPU picking, and no event is
/// pending.
pub fn wants_gpu_pick_result(
    hover_enabled: bool,
    point_count: usize,
    gpu_threshold: usize,
    pending: Option<HoverPickEvent>,
) -> (b: bool)
    ensures
        b == (hover_enabled && point_count >= gpu_threshold && pending.is_none()),
{
    hover_enabled && point_count >= gpu_threshold && pending.is_none()
}

/// Act on a collected GPU pick: picks and hovers are reported, a hover miss
/// clears the hover, no result changes nothing.
pub fn gpu_pick_effect(
    result: Option<GpuPickResult>,
    cache_present: bool,
    hovered_any: bool,
    pending: Option<HoverPickEvent>,
) -> (r: HoverUpdate)
    ensures
        r == match result {
            Some(GpuPickResult::Pick(p)) => HoverUpdate {
                clear_cache: false,
                hover_pick: Some(HoverPickEvent::Pick(p)),
                needs_redraw: false,
            },
            Some(GpuPickResult::Hover(p)) => HoverUpdate {
                clear_cache: false,
                hover_pick: Some(HoverPickEvent::Hover(p)),
                needs_redraw: false,
            },
            Some(GpuPickResult::HoverMiss) => cleared_hover(cache_present, hovered_any, pending),
            None => HoverUpdate { clear_cache: false, hover_pick: pending, needs_redraw: false },
        },
{
    match result {
        Some(GpuPickResult::Pick(p)) => HoverUpdate {
            clear_cache: false,
            hover_pick: Some(HoverPickEvent::Pick(p)),
            needs_redraw: false,
        },
        Some(GpuPickResult::Hover(p)) => HoverUpdate {
            clear_cache: false,
            hover_pick: Some(HoverPickEvent::Hover(p)),
            needs_redraw: false,
        },
        Some(GpuPickResult::HoverMiss) => clear_hover_effect(cache_present, hovered_any, pending),
        None => HoverUpdate { clear_cache: false, hover_pick: pending, needs_redraw: false },
    }
}

/// How the render state catches up with the widget's data.
#[derive(Debug, Clone, Copy, PartialEq, Eq, Structural)]
pub struct SyncPlan {
    /// Rebuild the render data from the widget (and refresh the hover).
    pub rebuild: bool,
    /// Take over the widget's axis limits without a rebuild.
    pub adopt_limits: bool,
    /// Fit the camera to the data and limits.
    pub autoscale: bool,
    /// Whether that fit is propagated to the linked axes.
    pub update_axis_links: bool,
    /// The plot must be drawn again.
    pub needs_redraw: bool,
}

/// Decide how to catch up with the widget. When the data changed, rebuild,
/// and fit the camera on the first sync (without touching the axis links),
/// when autoscaling on updates, or when the limits changed. When only the
/// limits changed, adopt them and fit the camera. Otherwise do nothing.
pub fn sync_plan(data_version: u64, synced_version: u64, autoscale_on_updates: bool, limits_changed: bool) -> (r: SyncPlan)
    ensures
        r.rebuild == (data_version != synced_version),
        r.adopt_limits == (data_version == synced_version && limits_changed),
        r.autoscale == (limits_changed || (r.rebuild && (autoscale_on_updates || synced_version == 0))),
        r.autoscale ==> r.update_axis_links == !(r.rebuild && synced_version == 0),
        !r.autoscale ==> !r.update_axis_links,
        r.needs_redraw == (r.rebuild || limits_changed),
{
    if data_version != synced_version {
        let first = synced_version == 0;
        let autoscale = autoscale_on_updates || first || limits_changed;
        SyncPlan {
            rebuild: true,
            adopt_limits: false,
            autoscale,
            update_axis_links: autoscale && !first,
            needs_redraw: true,
        }
    } else if limits_changed {
        SyncPlan { rebuild: false, adopt_limits: true, autoscale: true, update_axis_links: true, needs_redraw: true }
    } else {
        SyncPlan {
            rebuild: false,
            adopt_limits: false,
            autoscale: false,
            update_axis_links: false,
            needs_redraw: false,
        }
    }
}

/// How pointer events are routed under an input policy.
#[derive(Debug, Clone, Copy, PartialEq, Eq, Structural)]
pub struct InputRouting {
    /// The built-in pan/zoom/hover/pick interactions run.
    pub interactions_enabled: bool,
    /// The event is reported to the application.
    pub report_input: bool,
}

/// Under the default policy the built-in interactions run; under the
/// override policy they are off and events are reported instead.
pub fn input_routing(policy: InputPolicy) -> (r: InputRouting)
    ensures
        r.interactions_enabled == (policy == InputPolicy::Default),
        r.report_input == (policy == InputPolicy::Override),
{
    match policy {
        InputPolicy::Default => InputRouting { interactions_enabled: true, report_input: false },
        InputPolicy::Override => InputRouting { interactions_enabled: false, report_input: true },
    }
}

/// The hover/pick event after a key press: Escape clears the picked points
/// under the default policy; other keys change nothing.
pub fn key_hover_pick(escape: bool, policy: InputPolicy, pending: Option<HoverPickEvent>) -> (r: Option<HoverPickEvent>)
    ensures
        r == if escape && policy == InputPolicy::Default {
            Some(HoverPickEvent::ClearPick)
        } else {
            pending
        },
{
    if escape && policy == InputPolicy::Default {
        Some(HoverPickEvent::ClearPick)
    } else {
        pending
    }
}

/// Which tick lists and snapshot to publish after an update.
#[derive(Debug, Clone, Copy, PartialEq, Eq, Structural)]
pub struct TickPublication {
    /// Publish the x ticks.
    pub x_ticks: bool,
    /// Publish the y ticks.
    pub y_ticks: bool,
    /// Publish the camera snapshot although no ticks changed.
    pub camera_bounds: bool,
}

/// Ticks are recomputed only when the plot is redrawn; changed tick lists
/// are published. When neither changed but tooltips are shown and the camera
/// snapshot moved, the snapshot is published so tooltips follow.
pub fn tick_publication(
    needs_redraw: bool,
    x_changed: bool,
    y_changed: bool,
    has_tooltips: bool,
    snapshot_moved: bool,
) -> (r: TickPublication)
    ensures
        r.x_ticks == (needs_redraw && x_changed),
        r.y_ticks == (needs_redraw && y_changed),
        r.camera_bounds == (needs_redraw && !x_changed && !y_changed && has_tooltips && snapshot_moved),
{
    if !needs_redraw {
        TickPublication { x_ticks: false, y_ticks: false, camera_bounds: false }
    } else {
        TickPublication {
            x_ticks: x_changed,
            y_ticks: y_changed,
            camera_bounds: !x_changed && !y_changed && has_tooltips && snapshot_moved,
        }
    }
}

/// What an update produced, as flags.
#[derive(Debug, Clone, Copy, PartialEq, Eq, Structural)]
pub struct UpdateOutput {
    /// A hover/pick event is pending.
    pub hover_pick: bool,
    /// A cursor-position overlay payload is pending.
    pub cursor_ui: bool,
    /// The x ticks are to be published.
    pub x_ticks: bool,
    /// The y ticks are to be published.
    pub y_ticks: bool,
    /// The cursor-position overlay is to be cleared.
    pub clear_cursor_position: bool,
    /// The camera snapshot is to be published.
    pub camera_bounds: bool,
    /// A raw input event is to be reported.
    pub input_event: bool,
    /// The plot must be drawn again.
    pub needs_redraw: bool,
}

/// The action that ends an update.
#[derive(Debug, Clone, Copy, PartialEq, Eq, Structural)]
pub enum UpdateAction {
    /// Publish a message to the application.
    Publish {
        /// The message carries a render update.
        render: bool,
        /// The render update carries a camera snapshot.
        camera_bounds: bool,
    },
    /// Only ask for a redraw.
    Redraw,
    /// Nothing.
    Quiet,
}

/// Publish when anything is to be published: a render update when anything
/// but a raw input event is pending, with a camera snapshot when a hover or
/// pick, new ticks, or a snapshot are pending. Otherwise ask for a redraw
/// when one is needed.
pub fn update_action(o: UpdateOutput) -> (r: UpdateAction)
    ensures
        r == if o.hover_pick || o.cursor_ui || o.x_ticks || o.y_ticks || o.clear_cursor_position
            || o.camera_bounds || o.input_event {
            UpdateAction::Publish {
                render: o.hover_pick || o.cursor_ui || o.x_ticks || o.y_ticks || o.clear_cursor_position
                    || o.camera_bounds,
                camera_bounds: o.hover_pick || o.x_ticks || o.y_ticks || o.camera_bounds,
            }
        } else if o.needs_redraw {
            UpdateAction::Redraw
        } else {
            UpdateAction::Quiet
        },
{
    let needs_publish = o.hover_pick || o.cursor_ui || o.x_ticks || o.y_ticks || o.clear_cursor_position
        || o.camera_bounds || o.input_event;
    if needs_publish {
        let camera_bounds = o.hover_pick || o.x_ticks || o.y_ticks || o.camera_bounds;
        let render = o.hover_pick || o.cursor_ui || o.x_ticks || o.y_ticks || o.clear_cursor_position
            || o.camera_bounds;
        UpdateAction::Publish { render, camera_bounds }
    } else if o.needs_redraw {
        UpdateAction::Redraw
    } else {
        UpdateAction::Quiet
    }
}

/// The kind of a plot command; its floating-point payload (deltas, factors,
/// rectangles) stays with the caller.
#[derive(Debug, Clone, Copy, PartialEq, Eq, Structural)]
pub enum CommandKind {
    /// Apply a pointer event with the interactions on or off.
    ApplyInputEvent {
        /// Whether the built-in interactions are on for the event.
        interactions_enabled: bool,
    },
    /// Apply a pointer event as the built-in handling would.
    ApplyDefaultMouseEvent(PointerKind),
    /// Pan the camera by a world-space delta.
    PanByWorld,
    /// Zoom the camera by a factor.
    ZoomBy,
    /// Zoom the camera to a world-space rectangle.
    ZoomToWorldRect,
    /// Fit the camera to the data.
    Autoscale,
    /// Clear the hovered points.
    ClearHover,
    /// Clear the picked points.
    ClearPick,
    /// Look for a point under the cursor to hover.
    RequestHover,
    /// Pick the point under the cursor, if any.
    RequestPick,
}

/// How hovering follows a command.
#[derive(Debug, Clone, Copy, PartialEq, Eq, Structural)]
pub enum CommandHover {
    /// Hovering is left alone.
    Keep,
    /// A hover is requested at the cursor.
    Request,
    /// A hover is requested and the cursor-position overlay follows the
    /// cursor.
    RequestAndTrack,
    /// Hovering is cleared.
    Clear,
}

/// What a plot command does.
#[derive(Debug, Clone, Copy, PartialEq, Eq, Structural)]
pub struct CommandPlan {
    /// The command's pointer event goes through [`apply_input_event`], with
    /// the interactions on (`Some(true)`) or off.
    pub input: Option<bool>,
    /// How hovering follows, after the pointer event if there is one.
    pub hover: CommandHover,
    /// The camera moves by the command's payload, and the axis links follow.
    pub moves_camera: bool,
    /// The camera is fitted to the data.
    pub autoscale: bool,
    /// The picked points are cleared.
    pub clear_pick: bool,
    /// The point under the cursor is picked, if there is one.
    pub pick: bool,
    /// The plot is drawn again, whatever the pointer event or the pick gives.
    pub redraw: bool,
}

/// Decide what a plot command does. Pointer events go through the input
/// handling, the built-in one then hovering at a moved or entering cursor
/// and clearing the hover when the cursor leaves. Camera commands move the
/// camera; autoscaling fits it; clearing commands clear hover or picks;
/// requests look for a point to hover or pick. Everything but pointer
/// events and requests redraws.
pub fn command_plan(kind: CommandKind) -> (r: CommandPlan)
    ensures
        r.input == match kind {
            CommandKind::ApplyInputEvent { interactions_enabled } => Some(interactions_enabled),
            CommandKind::ApplyDefaultMouseEvent(_) => Some(true),
            _ => None::<bool>,
        },
        r.hover == match kind {
            CommandKind::ApplyDefaultMouseEvent(p) => if is_motion(p) {
                CommandHover::RequestAndTrack
            } else if p == PointerKind::CursorLeft {
                CommandHover::Clear
            } else {
                CommandHover::Keep
            },
            CommandKind::ClearHover => CommandHover::Clear,
            CommandKind::RequestHover => CommandHover::Request,
            _ => CommandHover::Keep,
        },
        r.moves_camera == (kind == CommandKind::PanByWorld || kind == CommandKind::ZoomBy || kind
            == CommandKind::ZoomToWorldRect),
        r.autoscale == (kind == CommandKind::Autoscale),
        r.clear_pick == (kind == CommandKind::ClearPick),
        r.pick == (kind == CommandKind::RequestPick),
        r.redraw == (r.moves_camera || r.autoscale || r.clear_pick || kind == CommandKind::ClearHover),
{
    let quiet = CommandPlan {
        input: None,
        hover: CommandHover::Keep,
        moves_camera: false,
        autoscale: false,
        clear_pick: false,
        pick: false,
        redraw: false,
    };
    match kind {
        CommandKind::ApplyInputEvent { interactions_enabled } => CommandPlan {
            input: Some(interactions_enabled),
            ..quiet
        },
        CommandKind::ApplyDefaultMouseEvent(p) => {
            let hover = match p {
                PointerKind::CursorMoved | PointerKind::CursorEntered => CommandHover::RequestAndTrack,
                PointerKind::CursorLeft => CommandHover::Clear,
                _ => CommandHover::Keep,
            };
            CommandPlan { input: Some(true), hover, ..quiet }
        },
        CommandKind::PanByWorld | CommandKind::ZoomBy | CommandKind::ZoomToWorldRect => CommandPlan {
            moves_camera: true,
            redraw: true,
            ..quiet
        },
        CommandKind::Autoscale => CommandPlan { autoscale: true, redraw: true, ..quiet },
        CommandKind::ClearHover => CommandPlan { hover: CommandHover::Clear, redraw: true, ..quiet },
        CommandKind::ClearPick => CommandPlan { clear_pick: true, redraw: true, ..quiet },
        CommandKind::RequestHover => CommandPlan { hover: CommandHover::Request, ..quiet },
        CommandKind::RequestPick => CommandPlan { pick: true, ..quiet },
    }
}

} // verus!
