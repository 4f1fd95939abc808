//! The bookkeeping state of a plot widget: its shapes, hidden shapes,
//! highlighted points, configuration flags and change counters.
use vstd::prelude::*;

use std::collections::HashSet;

use indexmap::IndexMap;

use crate::legend::{line_entry, line_legend, series_entry, series_in_legend, series_legend, LegendEntry};
use crate::message::{HoverPickEvent, InputPolicy, PointId};
use crate::plot_state::{
    drawn_points, gets_span, lemma_drawn_points_prefix, span_len, spans_of, visible_ids, SeriesSpan,
};
use crate::point::{optional_marker_to_u32, NO_MARKER};
use crate::shape::{has_visible_label, label_is_visible, SeriesError, ShapeId, ShapeInfo};
use crate::table::{
    has_key, inserted, lemma_inserted_unique, lemma_removed_unique, point_entries,
    points_contains_key, points_get_index, points_insert, points_len, points_new, points_shift_remove,
    removed, shape_entries, shapes_contains_key, shapes_get, shapes_get_index, shapes_insert, shapes_len,
    shapes_new, shapes_shift_remove, unique_keys, value_of,
};

verus! {

broadcast use vstd::std_specs::hash::group_hash_axioms;

/// Abstract state of a [`PlotWidget`].
pub struct PlotWidgetView {
    /// Series, in insertion order, by raw id.
    pub series: Seq<(u64, ShapeInfo)>,
    /// Vertical reference lines, in insertion order, by raw id.
    pub vlines: Seq<(u64, ShapeInfo)>,
    /// Horizontal reference lines, in insertion order, by raw id.
    pub hlines: Seq<(u64, ShapeInfo)>,
    /// Raw ids of the shapes hidden from rendering.
    pub hidden: Set<u64>,
    /// Hovered points, in order, with whether each carries a tooltip.
    pub hovered: Seq<((u64, usize), bool)>,
    /// Picked points, in order, with whether each carries a tooltip.
    pub picked: Seq<((u64, usize), bool)>,
    /// Bumped whenever the plotted data changes.
    pub data_version: u64,
    /// Bumped whenever the highlighted points change.
    pub highlight_version: u64,
    /// Whether the legend is collapsed.
    pub legend_collapsed: bool,
    /// Whether the controls/help overlay is open.
    pub controls_overlay_open: bool,
    /// Whether the camera is refitted whenever the data changes.
    pub autoscale_on_updates: bool,
    /// Whether the cursor-position overlay is shown.
    pub cursor_overlay: bool,
    /// Whether crosshairs follow the cursor.
    pub crosshairs_enabled: bool,
    /// How pointer input is handled.
    pub input_policy: InputPolicy,
}

/// A plot widget's shapes, visibility, highlighted points and settings.
pub struct PlotWidget {
    series: IndexMap<u64, ShapeInfo>,
    vlines: IndexMap<u64, ShapeInfo>,
    hlines: IndexMap<u64, ShapeInfo>,
    hidden_shapes: HashSet<u64>,
    hovered_points: IndexMap<(u64, usize), bool>,
    picked_points: IndexMap<(u64, usize), bool>,
    data_version: u64,
    highlight_version: u64,
    legend_collapsed: bool,
    controls_overlay_open: bool,
    autoscale_on_updates: bool,
    cursor_overlay: bool,
    crosshairs_enabled: bool,
    input_policy: InputPolicy,
}

impl View for PlotWidget {
    type V = PlotWidgetView;

    closed spec fn view(&self) -> PlotWidgetView {
        PlotWidgetView {
            series: shape_entries(self.series),
            vlines: shape_entries(self.vlines),
            hlines: shape_entries(self.hlines),
            hidden: self.hidden_shapes@,
            hovered: point_entries(self.hovered_points),
            picked: point_entries(self.picked_points),
            data_version: self.data_version,
            highlight_version: self.highlight_version,
            legend_collapsed: self.legend_collapsed,
            controls_overlay_open: self.controls_overlay_open,
            autoscale_on_updates: self.autoscale_on_updates,
            cursor_overlay: self.cursor_overlay,
            crosshairs_enabled: self.crosshairs_enabled,
            input_policy: self.input_policy,
        }
    }
}

/// The raw key of a point identifier in the point tables.
pub open spec fn point_key(p: PointId) -> (u64, usize) {
    (p.series_id.0, p.point_index)
}

/// A set with `x` removed if it held it, added otherwise.
pub open spec fn toggled(s: Set<u64>, x: u64) -> Set<u64> {
    if s.contains(x) {
        s.remove(x)
    } else {
        s.insert(x)
    }
}

/// A change counter after a wrapping increment.
pub open spec fn bumped(v: u64) -> u64 {
    if v == u64::MAX {
        0
    } else {
        (v + 1) as u64
    }
}

/// What the application built for a point about to be hovered or picked.
///
/// Building a highlight runs the application's highlight provider, so the
/// widget first says whether one is needed (see
/// [`PlotWidget::needs_highlight`]).
#[derive(Debug, Clone, Copy, PartialEq, Eq, Structural)]
pub enum Highlight {
    /// No highlight could be built: no provider, an unknown point, or no
    /// camera snapshot yet.
    Unavailable,
    /// A highlight was built.
    Built {
        /// Whether the highlight carries tooltip text.
        has_tooltip: bool,
        /// Whether it equals the highlight already stored for the point.
        same_as_stored: bool,
    },
}

/// The points of `s` whose series is not hidden, in order.
pub open spec fn visible_points(s: Seq<((u64, usize), bool)>, hidden: Set<u64>) -> Seq<PointId>
    decreases s.len(),
{
    if s.len() == 0 {
        Seq::empty()
    } else {
        let prev = visible_points(s.drop_last(), hidden);
        let e = s.last();
        if hidden.contains(e.0.0) {
            prev
        } else {
            prev.push(PointId { series_id: ShapeId(e.0.0), point_index: e.0.1 })
        }
    }
}

/// No point is a key of both tables.
pub open spec fn disjoint_keys(a: Seq<((u64, usize), bool)>, b: Seq<((u64, usize), bool)>) -> bool {
    forall|k: (u64, usize)| !(has_key(a, k) && has_key(b, k))
}

/// The hovered and picked points after hovering (`pick == false`) or
/// picking the point `k`, given the highlight that can be stored for it
/// (its tooltip flag, and whether it equals the stored one), and whether
/// they changed.
///
/// Picking an already picked point un-picks it. Picking another point
/// stops hovering it and, when a highlight can be stored, picks it.
/// Hovering a picked point does nothing; hovering another point stores the
/// highlight unless an equal one is stored already.
pub open spec fn hover_pick_tables(
    hovered: Seq<((u64, usize), bool)>,
    picked: Seq<((u64, usize), bool)>,
    k: (u64, usize),
    pick: bool,
    usable: Option<(bool, bool)>,
) -> (Seq<((u64, usize), bool)>, Seq<((u64, usize), bool)>, bool) {
    if pick {
        if has_key(picked, k) {
            (hovered, removed(picked, k), true)
        } else {
            match usable {
                Some((tip, _)) => (removed(hovered, k), inserted(picked, k, tip), true),
                None => (removed(hovered, k), picked, has_key(hovered, k)),
            }
        }
    } else {
        if has_key(picked, k) {
            (hovered, picked, false)
        } else {
            match usable {
                Some((tip, same)) => if has_key(hovered, k) && same {
                    (hovered, picked, false)
                } else {
                    (inserted(hovered, k, tip), picked, true)
                },
                None => (hovered, picked, false),
            }
        }
    }
}

/// Whether two optional labels are both present with the same text.
pub open spec fn same_label(a: Option<String>, b: Option<String>) -> bool {
    match (a, b) {
        (Some(x), Some(y)) => x@ == y@,
        _ => false,
    }
}

/// Whether `label` is visible and a shape of `s` other than `id` already
/// carries it.
pub open spec fn label_taken(s: Seq<(u64, ShapeInfo)>, id: u64, label: Option<String>) -> bool {
    has_visible_label(label) && exists|i: int|
        0 <= i < s.len() && s[i].0 != id && #[trigger] same_label(s[i].1.label, label)
}

/// Whether some entry of `s` carries a tooltip.
pub open spec fn any_tooltip(s: Seq<((u64, usize), bool)>) -> bool {
    exists|i: int| 0 <= i < s.len() && #[trigger] s[i].1
}

/// Whether some entry of `s` belongs to the series `id`.
pub open spec fn mentions_series(s: Seq<((u64, usize), bool)>, id: u64) -> bool {
    exists|i: int| 0 <= i < s.len() && #[trigger] s[i].0.0 == id
}

impl PlotWidgetView {
    /// The invariant every widget keeps: ids are unique in each table, and no
    /// point is hovered and picked at once.
    pub open spec fn wf(self) -> bool {
        &&& unique_keys(self.series)
        &&& unique_keys(self.vlines)
        &&& unique_keys(self.hlines)
        &&& unique_keys(self.hovered)
        &&& unique_keys(self.picked)
        &&& disjoint_keys(self.hovered, self.picked)
    }

    /// The state of a new widget: no shapes, nothing hidden or highlighted,
    /// data counter 1, highlight counter 0, the legend expanded, the
    /// controls overlay closed, autoscaling on updates enabled, the cursor
    /// overlay off, crosshairs off, built-in input handling.
    pub open spec fn is_initial(self) -> bool {
        &&& self.wf()
        &&& self.series.len() == 0
        &&& self.vlines.len() == 0
        &&& self.hlines.len() == 0
        &&& self.hidden == Set::<u64>::empty()
        &&& self.hovered.len() == 0
        &&& self.picked.len() == 0
        &&& self.data_version == 1
        &&& self.highlight_version == 0
        &&& !self.legend_collapsed
        &&& !self.controls_overlay_open
        &&& self.autoscale_on_updates
        &&& !self.cursor_overlay
        &&& !self.crosshairs_enabled
        &&& self.input_policy == InputPolicy::Default
    }

    /// The state after adding the series `id`: inserted into the series
    /// table (an existing id keeps its place), data counter bumped.
    pub open spec fn with_series(self, id: u64, info: ShapeInfo) -> PlotWidgetView {
        PlotWidgetView {
            series: inserted(self.series, id, info),
            data_version: (self.data_version + 1) as u64,
            ..self
        }
    }

    /// The state after removing the existing series `id`: dropped from the
    /// series table and from the hidden shapes, data counter bumped.
    pub open spec fn without_series(self, id: u64) -> PlotWidgetView {
        PlotWidgetView {
            series: removed(self.series, id),
            hidden: self.hidden.remove(id),
            data_version: (self.data_version + 1) as u64,
            ..self
        }
    }

    /// The state after toggling the visibility of the existing shape `id`:
    /// its membership of the hidden set flipped, the data counter bumped, and
    /// the highlight counter bumped when a hovered or picked point belongs
    /// to it.
    pub open spec fn with_toggled(self, id: u64) -> PlotWidgetView {
        PlotWidgetView {
            hidden: toggled(self.hidden, id),
            data_version: (self.data_version + 1) as u64,
            highlight_version: if self.highlights_series(id) {
                (self.highlight_version + 1) as u64
            } else {
                self.highlight_version
            },
            ..self
        }
    }

    /// Whether a shape with this raw id exists in any table.
    pub open spec fn shape_exists(self, id: u64) -> bool {
        has_key(self.series, id) || has_key(self.vlines, id) || has_key(self.hlines, id)
    }

    /// Whether some hovered or picked point belongs to the series `id`.
    pub open spec fn highlights_series(self, id: u64) -> bool {
        (exists|i: int| 0 <= i < self.hovered.len() && #[trigger] self.hovered[i].0.0 == id) || (
        exists|i: int| 0 <= i < self.picked.len() && #[trigger] self.picked[i].0.0 == id)
    }

    /// Whether a point refers to an existing series and a valid index in it.
    pub open spec fn valid_point(self, p: PointId) -> bool {
        match value_of(self.series, p.series_id.0) {
            Some(info) => p.point_index < info.point_count,
            None => false,
        }
    }

    /// The tooltip flag of a highlight that can be stored for `p`, and whether
    /// it equals the stored one: `None` when nothing was built or `p` is not a
    /// valid point.
    pub open spec fn usable(self, p: PointId, h: Highlight) -> Option<(bool, bool)> {
        match h {
            Highlight::Built { has_tooltip, same_as_stored } => if self.valid_point(p) {
                Some((has_tooltip, same_as_stored))
            } else {
                None
            },
            Highlight::Unavailable => None,
        }
    }

    /// The state after hovering (`pick == false`) or picking `p`, and whether
    /// the highlighted points changed (see [`hover_pick_tables`]).
    pub open spec fn after_hover_pick(self, p: PointId, pick: bool, h: Highlight) -> (PlotWidgetView, bool) {
        let (hovered, picked, changed) = hover_pick_tables(
            self.hovered,
            self.picked,
            point_key(p),
            pick,
            self.usable(p, h),
        );
        (PlotWidgetView { hovered, picked, ..self }, changed)
    }

    /// The state after hovering or picking `p` through the public methods:
    /// as [`Self::after_hover_pick`], with the highlight counter bumped when
    /// something changed.
    pub open spec fn after_highlight_request(self, p: PointId, pick: bool, h: Highlight) -> PlotWidgetView {
        let (s, changed) = self.after_hover_pick(p, pick, h);
        if changed {
            PlotWidgetView { highlight_version: bumped(self.highlight_version), ..s }
        } else {
            s
        }
    }

    /// The state after a hover/pick event reported by the renderer.
    pub open spec fn after_event(self, event: Option<HoverPickEvent>, h: Highlight) -> PlotWidgetView {
        let (s, changed) = match event {
            Some(HoverPickEvent::Hover(p)) => PlotWidgetView {
                hovered: Seq::empty(),
                ..self
            }.after_hover_pick(p, false, h),
            Some(HoverPickEvent::Pick(p)) => self.after_hover_pick(p, true, h),
            Some(HoverPickEvent::ClearHover) => (
                PlotWidgetView { hovered: Seq::empty(), ..self },
                self.hovered.len() > 0,
            ),
            Some(HoverPickEvent::ClearPick) => (
                PlotWidgetView { picked: Seq::empty(), ..self },
                self.picked.len() > 0,
            ),
            None => (self, false),
        };
        if changed {
            PlotWidgetView { highlight_version: bumped(self.highlight_version), ..s }
        } else {
            s
        }
    }

    /// The legend: labelled series that draw something, then labelled
    /// vertical lines, then labelled horizontal lines.
    pub open spec fn legend(self) -> Seq<LegendEntry> {
        series_legend(self.series, self.hidden) + line_legend(self.vlines, self.hidden) + line_legend(
            self.hlines,
            self.hidden,
        )
    }

    /// The points shown highlighted: hovered, then picked, leaving out those
    /// of hidden series.
    pub open spec fn visible_highlights(self) -> Seq<PointId> {
        visible_points(self.hovered, self.hidden) + visible_points(self.picked, self.hidden)
    }

    /// Whether a point is currently hovered or picked.
    pub open spec fn is_highlighted(self, p: PointId) -> bool {
        has_key(self.hovered, point_key(p)) || has_key(self.picked, point_key(p))
    }
}

impl PlotWidget {
    /// Every widget keeps the invariant of its abstract state.
    #[verifier::type_invariant]
    spec fn inv(self) -> bool {
        self@.wf()
    }

    /// Create a new plot widget with default settings: no shapes, nothing
    /// hidden or highlighted, the legend expanded, the cursor overlay off,
    /// crosshairs off, autoscaling on updates enabled, built-in input
    /// handling.
    pub fn new() -> (w: PlotWidget)
        ensures
            w@.is_initial(),
    {
        PlotWidget {
            series: shapes_new(),
            vlines: shapes_new(),
            hlines: shapes_new(),
            hidden_shapes: HashSet::new(),
            hovered_points: points_new(),
            picked_points: points_new(),
            data_version: 1,
            highlight_version: 0,
            legend_collapsed: false,
            controls_overlay_open: false,
            autoscale_on_updates: true,
            cursor_overlay: false,
            crosshairs_enabled: false,
            input_policy: InputPolicy::Default,
        }
    }

    /// Whether `label` is already carried by a series of `m` other than `id`,
    /// and if so a copy of it.
    fn taken_label(m: &IndexMap<u64, ShapeInfo>, id: u64, label: &Option<String>) -> (r: Option<String>)
        ensures
            r is Some <==> label_taken(shape_entries(*m), id, *label),
            r matches Some(l) ==> *label == Some(l),
    {
        if !label_is_visible(label) {
            return None;
        }
        let l = match label {
            Some(l) => l,
            None => {
                return None;
            },
        };
        let n = shapes_len(m);
        let ghost entries = shape_entries(*m);
        let mut i: usize = 0;
        while i < n
            invariant
                n == entries.len(),
                entries == shape_entries(*m),
                i <= n,
                has_visible_label(*label),
                *label == Some(*l),
                forall|j: int|
                    0 <= j < i ==> !(entries[j].0 != id && #[trigger] same_label(entries[j].1.label, *label)),
            decreases n - i,
        {
            match shapes_get_index(m, i) {
                Some((k, info)) => {
                    if k != id {
                        match &info.label {
                            Some(l2) => {
                                if l2.eq(l) {
                                    assert(same_label(entries[i as int].1.label, *label));
                                    return Some(l.clone());
                                }
                            },
                            None => {},
                        }
                    }
                },
                None => {},
            }
            i = i + 1;
        }
        None
    }

    /// Add a data series, after the checks of its own data (`checked`, the
    /// outcome of validating its positions, colours and styles) and of its
    /// label. A failed check is returned as is; a visible label that another
    /// series already carries gives `DuplicateLabel`; either way nothing
    /// changes. Otherwise the series is added, one with the same id being
    /// replaced in place.
    pub fn add_series(&mut self, id: ShapeId, info: ShapeInfo, checked: Result<(), SeriesError>) -> (r: Result<
        (),
        SeriesError,
    >)
        requires
            old(self)@.data_version < u64::MAX,
        ensures
            final(self)@.wf(),
            checked is Err ==> r == checked && final(self)@ == old(self)@,
            checked is Ok && label_taken(old(self)@.series, id.0, info.label) ==> r == Err::<(), SeriesError>(
                SeriesError::DuplicateLabel(info.label->0),
            ) && final(self)@ == old(self)@,
            checked is Ok && !label_taken(old(self)@.series, id.0, info.label) ==> r is Ok && final(self)@
                == old(self)@.with_series(id.0, info),
    {
        proof {
            use_type_invariant(&*self);
        }
        match checked {
            Err(e) => {
                return Err(e);
            },
            Ok(()) => {},
        }
        match Self::taken_label(&self.series, id.0, &info.label) {
            Some(l) => {
                return Err(SeriesError::DuplicateLabel(l));
            },
            None => {},
        }
        proof {
            lemma_inserted_unique(shape_entries(self.series), id.0, info);
        }
        let mut series = shapes_new();
        std::mem::swap(&mut series, &mut self.series);
        shapes_insert(&mut series, id.0, info);
        self.series = series;
        self.data_version = self.data_version + 1;
        Ok(())
    }

    /// Remove a data series by id. Fails with `NotFound` when no series has
    /// this id; otherwise the series is dropped and no longer hidden.
    pub fn remove_series(&mut self, id: &ShapeId) -> (r: Result<(), SeriesError>)
        requires
            old(self)@.data_version < u64::MAX,
        ensures
            final(self)@.wf(),
            has_key(old(self)@.series, id.0) ==> r is Ok && final(self)@ == old(self)@.without_series(id.0),
            !has_key(old(self)@.series, id.0) ==> r == Err::<(), SeriesError>(SeriesError::NotFound(*id))
                && final(self)@ == old(self)@,
    {
        proof {
            use_type_invariant(&*self);
            lemma_removed_unique(shape_entries(self.series), id.0);
        }
        let raw = id.0;
        if !shapes_contains_key(&self.series, &raw) {
            return Err(SeriesError::NotFound(*id));
        }
        let mut series = shapes_new();
        std::mem::swap(&mut series, &mut self.series);
        shapes_shift_remove(&mut series, &raw);
        self.series = series;
        let mut hidden = HashSet::new();
        std::mem::swap(&mut hidden, &mut self.hidden_shapes);
        hidden.remove(&raw);
        self.hidden_shapes = hidden;
        self.data_version = self.data_version + 1;
        Ok(())
    }
    /// Replace what is known of an existing series (its label, number of
    /// positions, marker and line), keeping its place. Fails with `NotFound`,
    /// changing nothing, when no series has this id.
    pub fn update_series(&mut self, id: &ShapeId, info: ShapeInfo) -> (r: Result<(), SeriesError>)
        requires
            old(self)@.data_version < u64::MAX,
        ensures
            final(self)@.wf(),
            has_key(old(self)@.series, id.0) ==> r is Ok && final(self)@ == (PlotWidgetView {
                series: inserted(old(self)@.series, id.0, info),
                data_version: (old(self)@.data_version + 1) as u64,
                ..old(self)@
            }),
            !has_key(old(self)@.series, id.0) ==> r == Err::<(), SeriesError>(SeriesError::NotFound(*id))
                && final(self)@ == old(self)@,
    {
        proof {
            use_type_invariant(&*self);
        }
        let raw = id.0;
        if shapes_contains_key(&self.series, &raw) {
            proof {
                lemma_inserted_unique(shape_entries(self.series), raw, info);
            }
            let mut series = shapes_new();
            std::mem::swap(&mut series, &mut self.series);
            shapes_insert(&mut series, raw, info);
            self.series = series;
            self.data_version = self.data_version + 1;
            Ok(())
        } else {
            Err(SeriesError::NotFound(*id))
        }
    }

    /// Record a new number of positions for an existing series; an unknown
    /// id changes nothing.
    pub fn set_series_positions(&mut self, id: &ShapeId, point_count: usize)
        requires
            old(self)@.data_version < u64::MAX,
        ensures
            final(self)@.wf(),
            match value_of(old(self)@.series, id.0) {
                Some(info) => final(self)@ == (PlotWidgetView {
                    series: inserted(old(self)@.series, id.0, ShapeInfo { point_count, ..info }),
                    data_version: (old(self)@.data_version + 1) as u64,
                    ..old(self)@
                }),
                None => final(self)@ == old(self)@,
            },
    {
        proof {
            use_type_invariant(&*self);
        }
        let raw = id.0;
        let updated = match shapes_get(&self.series, &raw) {
            Some(info) => {
                let mut c = info.copy_info();
                c.point_count = point_count;
                Some(c)
            },
            None => None,
        };
        match updated {
            Some(c) => {
                proof {
                    lemma_inserted_unique(shape_entries(self.series), raw, c);
                }
                let mut series = shapes_new();
                std::mem::swap(&mut series, &mut self.series);
                shapes_insert(&mut series, raw, c);
                self.series = series;
                self.data_version = self.data_version + 1;
            },
            None => {},
        }
    }

    /// Note that an existing series received new per-point colors; an unknown
    /// id changes nothing.
    pub fn set_series_point_colors(&mut self, id: &ShapeId)
        requires
            old(self)@.data_version < u64::MAX,
        ensures
            has_key(old(self)@.series, id.0) ==> final(self)@ == (PlotWidgetView {
                data_version: (old(self)@.data_version + 1) as u64,
                ..old(self)@
            }),
            !has_key(old(self)@.series, id.0) ==> final(self)@ == old(self)@,
    {
        proof {
            use_type_invariant(&*self);
        }
        if shapes_contains_key(&self.series, &id.0) {
            self.data_version = self.data_version + 1;
        }
    }

    /// Add a vertical reference line. A line with the same id is replaced in
    /// place.
    pub fn add_vline(&mut self, id: ShapeId, info: ShapeInfo)
        requires
            old(self)@.data_version < u64::MAX,
        ensures
            final(self)@ == (PlotWidgetView {
                vlines: inserted(old(self)@.vlines, id.0, info),
                data_version: (old(self)@.data_version + 1) as u64,
                ..old(self)@
            }),
            final(self)@.wf(),
    {
        proof {
            use_type_invariant(&*self);
            lemma_inserted_unique(shape_entries(self.vlines), id.0, info);
        }
        let mut vlines = shapes_new();
        std::mem::swap(&mut vlines, &mut self.vlines);
        shapes_insert(&mut vlines, id.0, info);
        self.vlines = vlines;
        self.data_version = self.data_version + 1;
    }

    /// Add a horizontal reference line. A line with the same id is replaced
    /// in place.
    pub fn add_hline(&mut self, id: ShapeId, info: ShapeInfo)
        requires
            old(self)@.data_version < u64::MAX,
        ensures
            final(self)@ == (PlotWidgetView {
                hlines: inserted(old(self)@.hlines, id.0, info),
                data_version: (old(self)@.data_version + 1) as u64,
                ..old(self)@
            }),
            final(self)@.wf(),
    {
        proof {
            use_type_invariant(&*self);
            lemma_inserted_unique(shape_entries(self.hlines), id.0, info);
        }
        let mut hlines = shapes_new();
        std::mem::swap(&mut hlines, &mut self.hlines);
        shapes_insert(&mut hlines, id.0, info);
        self.hlines = hlines;
        self.data_version = self.data_version + 1;
    }

    /// The ids of the series, in their order.
    pub fn series_ids(&self) -> (ids: Vec<ShapeId>)
        ensures
            ids@.len() == self@.series.len(),
            forall|i: int| 0 <= i < ids@.len() ==> #[trigger] ids@[i].0 == self@.series[i].0,
    {
        let n = shapes_len(&self.series);
        let mut ids: Vec<ShapeId> = Vec::new();
        let mut i: usize = 0;
        while i < n
            invariant
                n == self@.series.len(),
                i <= n,
                ids@.len() == i,
                forall|j: int| 0 <= j < i ==> #[trigger] ids@[j].0 == self@.series[j].0,
            decreases n - i,
        {
            match shapes_get_index(&self.series, i) {
                Some((k, _)) => {
                    ids.push(ShapeId(k));
                },
                None => {},
            }
            i = i + 1;
        }
        ids
    }

    /// Hover (`pick == false`) or pick the point `k` in the tables of hovered
    /// and picked points, given the highlight that can be stored for it.
    /// Returns whether the tables changed.
    fn update_highlight_tables(
        hovered: &mut IndexMap<(u64, usize), bool>,
        picked: &mut IndexMap<(u64, usize), bool>,
        k: (u64, usize),
        pick: bool,
        usable: Option<(bool, bool)>,
    ) -> (changed: bool)
        requires
            unique_keys(point_entries(*old(hovered))),
            unique_keys(point_entries(*old(picked))),
            disjoint_keys(point_entries(*old(hovered)), point_entries(*old(picked))),
        ensures
            (point_entries(*final(hovered)), point_entries(*final(picked)), changed) == hover_pick_tables(
                point_entries(*old(hovered)),
                point_entries(*old(picked)),
                k,
                pick,
                usable,
            ),
            unique_keys(point_entries(*final(hovered))),
            unique_keys(point_entries(*final(picked))),
            disjoint_keys(point_entries(*final(hovered)), point_entries(*final(picked))),
    {
        let ghost h0 = point_entries(*hovered);
        let ghost p0 = point_entries(*picked);
        proof {
            lemma_removed_unique(p0, k);
            lemma_removed_unique(h0, k);
        }
        let mut changed = false;
        if pick {
            if points_shift_remove(picked, &k).is_some() {
                return true;
            }
            changed = points_shift_remove(hovered, &k).is_some();
        } else {
            if points_contains_key(picked, &k) {
                return false;
            }
        }
        match usable {
            Some((tip, same)) => {
                if pick {
                    proof {
                        lemma_inserted_unique(point_entries(*picked), k, tip);
                    }
                    points_insert(picked, k, tip);
                    changed = true;
                } else {
                    proof {
                        lemma_inserted_unique(point_entries(*hovered), k, tip);
                    }
                    if points_contains_key(hovered, &k) {
                        if !same {
                            points_insert(hovered, k, tip);
                            changed = true;
                        }
                    } else {
                        points_insert(hovered, k, tip);
                        changed = true;
                    }
                }
            },
            None => {},
        }
        proof {
            let hv = point_entries(*hovered);
            let pk = point_entries(*picked);
            assert forall|k2: (u64, usize)| !(has_key(hv, k2) && has_key(pk, k2)) by {
                if k2 != k {
                    assert(has_key(hv, k2) ==> has_key(h0, k2));
                    assert(has_key(pk, k2) ==> has_key(p0, k2));
                }
            }
        }
        changed
    }

    /// Hover (`pick == false`) or pick a point, given what the application
    /// built for it. Returns whether the highlighted points changed.
    fn handle_hover_pick(&mut self, point_id: PointId, pick: bool, highlight: Highlight) -> (changed: bool)
        ensures
            (final(self)@, changed) == old(self)@.after_hover_pick(point_id, pick, highlight),
    {
        proof {
            use_type_invariant(&*self);
        }
        let k = (point_id.series_id.0, point_id.point_index);
        assert(k == point_key(point_id));
        let usable = match highlight {
            Highlight::Built { has_tooltip, same_as_stored } => {
                if self.valid_point_id(&point_id) {
                    Some((has_tooltip, same_as_stored))
                } else {
                    None
                }
            },
            Highlight::Unavailable => None,
        };
        let mut hovered = points_new();
        std::mem::swap(&mut hovered, &mut self.hovered_points);
        let mut picked = points_new();
        std::mem::swap(&mut picked, &mut self.picked_points);
        let changed = Self::update_highlight_tables(&mut hovered, &mut picked, k, pick, usable);
        self.hovered_points = hovered;
        self.picked_points = picked;
        changed
    }

    /// Whether hovering or picking `point_id` would store a highlight, so
    /// that the application has to build one: true unless the point is
    /// already picked.
    pub fn needs_highlight(&self, point_id: &PointId) -> (b: bool)
        ensures
            b == !has_key(self@.picked, point_key(*point_id)),
    {
        !points_contains_key(&self.picked_points, &(point_id.series_id.0, point_id.point_index))
    }

    /// Add a hover point to the plot.
    pub fn add_hover_point(&mut self, point_id: PointId, highlight: Highlight)
        ensures
            final(self)@ == old(self)@.after_highlight_request(point_id, false, highlight),
            final(self)@.wf(),
    {
        proof {
            use_type_invariant(&*self);
        }
        let changed = self.handle_hover_pick(point_id, false, highlight);
        proof {
            use_type_invariant(&*self);
        }
        if changed {
            self.highlight_version = self.highlight_version.wrapping_add(1);
        }
    }

    /// Add a pick point to the plot; picking a picked point un-picks it.
    pub fn add_pick_point(&mut self, point_id: PointId, highlight: Highlight)
        ensures
            final(self)@ == old(self)@.after_highlight_request(point_id, true, highlight),
            final(self)@.wf(),
    {
        proof {
            use_type_invariant(&*self);
        }
        let changed = self.handle_hover_pick(point_id, true, highlight);
        proof {
            use_type_invariant(&*self);
        }
        if changed {
            self.highlight_version = self.highlight_version.wrapping_add(1);
        }
    }

    /// Clear all hover points from the plot.
    pub fn clear_hover(&mut self)
        ensures
            final(self)@.wf(),
            old(self)@.hovered.len() > 0 ==> final(self)@ == (PlotWidgetView {
                hovered: Seq::empty(),
                highlight_version: bumped(old(self)@.highlight_version),
                ..old(self)@
            }),
            old(self)@.hovered.len() == 0 ==> final(self)@ == old(self)@,
    {
        proof {
            use_type_invariant(&*self);
        }
        if points_len(&self.hovered_points) != 0 {
            self.hovered_points = points_new();
            self.highlight_version = self.highlight_version.wrapping_add(1);
        }
    }

    /// Clear all pick points from the plot.
    pub fn clear_pick(&mut self)
        ensures
            final(self)@.wf(),
            old(self)@.picked.len() > 0 ==> final(self)@ == (PlotWidgetView {
                picked: Seq::empty(),
                highlight_version: bumped(old(self)@.highlight_version),
                ..old(self)@
            }),
            old(self)@.picked.len() == 0 ==> final(self)@ == old(self)@,
    {
        proof {
            use_type_invariant(&*self);
        }
        if points_len(&self.picked_points) != 0 {
            self.picked_points = points_new();
            self.highlight_version = self.highlight_version.wrapping_add(1);
        }
    }

    /// Apply the hover/pick event of a render update: hovering replaces the
    /// hovered points, picking toggles a pick, clearing empties a set. The
    /// highlight counter is bumped when the highlighted points changed.
    pub fn apply_hover_pick_event(&mut self, event: Option<HoverPickEvent>, highlight: Highlight)
        ensures
            final(self)@ == old(self)@.after_event(event, highlight),
            final(self)@.wf(),
    {
        proof {
            use_type_invariant(&*self);
        }
        let changed = match event {
            Some(HoverPickEvent::Hover(point_id)) => {
                self.hovered_points = points_new();
                self.handle_hover_pick(point_id, false, highlight)
            },
            Some(HoverPickEvent::Pick(point_id)) => self.handle_hover_pick(point_id, true, highlight),
            Some(HoverPickEvent::ClearHover) => {
                let c = points_len(&self.hovered_points) != 0;
                self.hovered_points = points_new();
                c
            },
            Some(HoverPickEvent::ClearPick) => {
                let c = points_len(&self.picked_points) != 0;
                self.picked_points = points_new();
                c
            },
            None => false,
        };
        proof {
            use_type_invariant(&*self);
        }
        if changed {
            self.highlight_version = self.highlight_version.wrapping_add(1);
        }
    }

    /// Whether some point of `m` belongs to the series `id`.
    fn table_mentions_series(m: &IndexMap<(u64, usize), bool>, id: u64) -> (b: bool)
        ensures
            b == mentions_series(point_entries(*m), id),
    {
        let n = points_len(m);
        let mut i: usize = 0;
        while i < n
            invariant
                n == point_entries(*m).len(),
                i <= n,
                forall|j: int| 0 <= j < i ==> (#[trigger] point_entries(*m)[j]).0.0 != id,
            decreases n - i,
        {
            match points_get_index(m, i) {
                Some((k, _)) => {
                    if k.0 == id {
                        return true;
                    }
                },
                None => {},
            }
            i = i + 1;
        }
        false
    }

    /// Show a hidden shape or hide a shown one. Returns false, changing
    /// nothing, when no series or reference line has this id. Otherwise the
    /// data counter is bumped, and the highlight counter too when a hovered
    /// or picked point belongs to the shape.
    pub fn toggle_visibility(&mut self, id: &ShapeId) -> (found: bool)
        requires
            old(self)@.data_version < u64::MAX,
            old(self)@.highlights_series(id.0) ==> old(self)@.highlight_version < u64::MAX,
        ensures
            found == old(self)@.shape_exists(id.0),
            found ==> final(self)@ == old(self)@.with_toggled(id.0),
            !found ==> final(self)@ == old(self)@,
    {
        proof {
            use_type_invariant(&*self);
        }
        if !self.contains_shape(id) {
            return false;
        }
        let raw = id.0;
        let mut hidden = HashSet::new();
        std::mem::swap(&mut hidden, &mut self.hidden_shapes);
        if !hidden.remove(&raw) {
            hidden.insert(raw);
        }
        self.hidden_shapes = hidden;
        let contains_highlight = Self::table_mentions_series(&self.hovered_points, raw)
            || Self::table_mentions_series(&self.picked_points, raw);
        if contains_highlight {
            self.highlight_version = self.highlight_version + 1;
        }
        self.data_version = self.data_version + 1;
        proof {
            assert(self.hidden_shapes@ =~= toggled(old(self)@.hidden, raw));
        }
        true
    }

    /// Append to `out` the points of `m` whose series is not hidden.
    fn collect_visible_points(&self, m: &IndexMap<(u64, usize), bool>, out: &mut Vec<PointId>)
        ensures
            final(out)@ == old(out)@ + visible_points(point_entries(*m), self@.hidden),
    {
        let n = points_len(m);
        let ghost entries = point_entries(*m);
        let ghost start = out@;
        let mut i: usize = 0;
        while i < n
            invariant
                n == entries.len(),
                entries == point_entries(*m),
                i <= n,
                out@ == start + visible_points(entries.take(i as int), self@.hidden),
            decreases n - i,
        {
            proof {
                assert(entries.take(i + 1).drop_last() =~= entries.take(i as int));
            }
            match points_get_index(m, i) {
                Some((k, _)) => {
                    if !self.hidden_shapes.contains(&k.0) {
                        out.push(PointId { series_id: ShapeId(k.0), point_index: k.1 });
                    }
                    proof {
                        assert(entries.take(i + 1).last() == entries[i as int]);
                    }
                },
                None => {},
            }
            i = i + 1;
        }
        proof {
            assert(entries.take(n as int) =~= entries);
        }
    }

    /// The points shown highlighted: the hovered ones, then the picked ones,
    /// leaving out the points of hidden series.
    pub fn visible_highlighted_points(&self) -> (r: Vec<PointId>)
        ensures
            r@ == self@.visible_highlights(),
    {
        let mut out: Vec<PointId> = Vec::new();
        self.collect_visible_points(&self.hovered_points, &mut out);
        self.collect_visible_points(&self.picked_points, &mut out);
        proof {
            assert(out@ =~= self@.visible_highlights());
        }
        out
    }

    /// Whether some entry of `m` carries a tooltip.
    fn table_has_tooltip(m: &IndexMap<(u64, usize), bool>) -> (b: bool)
        ensures
            b == any_tooltip(point_entries(*m)),
    {
        let n = points_len(m);
        let mut i: usize = 0;
        while i < n
            invariant
                n == point_entries(*m).len(),
                i <= n,
                forall|j: int| 0 <= j < i ==> !(#[trigger] point_entries(*m)[j]).1,
            decreases n - i,
        {
            match points_get_index(m, i) {
                Some((_, tip)) => {
                    if tip {
                        return true;
                    }
                },
                None => {},
            }
            i = i + 1;
        }
        false
    }

    /// Whether some hovered or picked point carries a tooltip.
    pub fn has_any_tooltips(&self) -> (b: bool)
        ensures
            b == (any_tooltip(self@.hovered) || any_tooltip(self@.picked)),
    {
        Self::table_has_tooltip(&self.hovered_points) || Self::table_has_tooltip(&self.picked_points)
    }

    /// Append to `out` the legend rows of a table of shapes; `lines` selects
    /// the rows of reference lines rather than those of series.
    fn collect_legend(&self, m: &IndexMap<u64, ShapeInfo>, lines: bool, out: &mut Vec<LegendEntry>)
        ensures
            final(out)@ == old(out)@ + if lines {
                line_legend(shape_entries(*m), self@.hidden)
            } else {
                series_legend(shape_entries(*m), self@.hidden)
            },
    {
        let n = shapes_len(m);
        let ghost entries = shape_entries(*m);
        let ghost hidden = self@.hidden;
        let ghost start = out@;
        let mut i: usize = 0;
        while i < n
            invariant
                n == entries.len(),
                entries == shape_entries(*m),
                hidden == self@.hidden,
                i <= n,
                out@ == start + if lines {
                    line_legend(entries.take(i as int), hidden)
                } else {
                    series_legend(entries.take(i as int), hidden)
                },
            decreases n - i,
        {
            proof {
                assert(entries.take(i + 1).drop_last() =~= entries.take(i as int));
            }
            match shapes_get_index(m, i) {
                Some((k, info)) => {
                    proof {
                        assert(entries.take(i + 1).last() == entries[i as int]);
                    }
                    let shown = if lines {
                        label_is_visible(&info.label)
                    } else {
                        label_is_visible(&info.label) && info.point_count > 0 && (info.marker.is_some()
                            || info.has_line)
                    };
                    if shown {
                        let label = match &info.label {
                            Some(l) => l.clone(),
                            None => String::new(),
                        };
                        let entry = if lines {
                            LegendEntry {
                                id: ShapeId(k),
                                label,
                                marker: NO_MARKER,
                                has_line: true,
                                hidden: self.hidden_shapes.contains(&k),
                            }
                        } else {
                            LegendEntry {
                                id: ShapeId(k),
                                label,
                                marker: optional_marker_to_u32(info.marker),
                                has_line: info.has_line,
                                hidden: self.hidden_shapes.contains(&k),
                            }
                        };
                        proof {
                            if lines {
                                assert(entry == line_entry(k, *info, hidden));
                            } else {
                                assert(series_in_legend(*info));
                                assert(entry == series_entry(k, *info, hidden));
                            }
                        }
                        out.push(entry);
                    }
                },
                None => {},
            }
            i = i + 1;
        }
        proof {
            assert(entries.take(n as int) =~= entries);
        }
    }

    /// The legend rows: labelled series with positions that draw markers or
    /// a line, then labelled vertical lines, then labelled horizontal lines,
    /// each in insertion order and marked hidden when its shape is hidden.
    pub fn legend_entries(&self) -> (r: Vec<LegendEntry>)
        ensures
            r@ == self@.legend(),
    {
        let mut out: Vec<LegendEntry> = Vec::new();
        self.collect_legend(&self.series, false, &mut out);
        self.collect_legend(&self.vlines, true, &mut out);
        self.collect_legend(&self.hlines, true, &mut out);
        proof {
            assert(out@ =~= self@.legend());
        }
        out
    }

    /// The point-buffer layout of the series: one span per visible series
    /// with positions, in order, each starting where the points of the
    /// earlier spans end; a series that draws neither markers nor a line gets
    /// an empty span.
    pub fn series_spans(&self) -> (r: Vec<SeriesSpan>)
        requires
            drawn_points(self@.series, self@.hidden) <= usize::MAX,
        ensures
            r@ == spans_of(self@.series, self@.hidden),
    {
        let n = shapes_len(&self.series);
        let ghost entries = shape_entries(self.series);
        let ghost hidden = self@.hidden;
        let mut out: Vec<SeriesSpan> = Vec::new();
        let mut total: usize = 0;
        let mut i: usize = 0;
        while i < n
            invariant
                n == entries.len(),
                entries == shape_entries(self.series),
                hidden == self@.hidden,
                drawn_points(entries, hidden) <= usize::MAX,
                i <= n,
                total == drawn_points(entries.take(i as int), hidden),
                out@ == spans_of(entries.take(i as int), hidden),
            decreases n - i,
        {
            proof {
                assert(entries.take(i + 1).drop_last() =~= entries.take(i as int));
                lemma_drawn_points_prefix(entries, hidden, i + 1);
            }
            match shapes_get_index(&self.series, i) {
                Some((k, info)) => {
                    proof {
                        assert(entries.take(i + 1).last() == entries[i as int]);
                    }
                    if !self.hidden_shapes.contains(&k) && info.point_count > 0 {
                        let len = if info.marker.is_some() || info.has_line {
                            info.point_count
                        } else {
                            0
                        };
                        let span = SeriesSpan {
                            id: ShapeId(k),
                            start: total,
                            len,
                            marker: optional_marker_to_u32(info.marker),
                            has_line: info.has_line,
                        };
                        proof {
                            assert(gets_span(k, *info, hidden));
                            assert(len == span_len(*info));
                        }
                        out.push(span);
                        total = total + len;
                    }
                },
                None => {},
            }
            i = i + 1;
        }
        proof {
            assert(entries.take(n as int) =~= entries);
        }
        out
    }

    /// The point-buffer layout of the series (see [`Self::series_spans`]),
    /// or `None` when the points they draw would not fit in a `usize`.
    pub fn try_series_spans(&self) -> (r: Option<Vec<SeriesSpan>>)
        ensures
            r is Some <==> drawn_points(self@.series, self@.hidden) <= usize::MAX,
            r matches Some(v) ==> v@ == spans_of(self@.series, self@.hidden),
    {
        let n = shapes_len(&self.series);
        let ghost entries = shape_entries(self.series);
        let ghost hidden = self@.hidden;
        let mut total: usize = 0;
        let mut i: usize = 0;
        while i < n
            invariant
                n == entries.len(),
                entries == shape_entries(self.series),
                hidden == self@.hidden,
                i <= n,
                total == drawn_points(entries.take(i as int), hidden),
            decreases n - i,
        {
            proof {
                assert(entries.take(i + 1).drop_last() =~= entries.take(i as int));
                lemma_drawn_points_prefix(entries, hidden, i + 1);
            }
            match shapes_get_index(&self.series, i) {
                Some((k, info)) => {
                    proof {
                        assert(entries.take(i + 1).last() == entries[i as int]);
                    }
                    if !self.hidden_shapes.contains(&k) && info.point_count > 0 && (info.marker.is_some()
                        || info.has_line) {
                        if total > usize::MAX - info.point_count {
                            proof {
                                assert(drawn_points(entries.take(i + 1), hidden) > usize::MAX);
                            }
                            return None;
                        }
                        total = total + info.point_count;
                    }
                },
                None => {},
            }
            i = i + 1;
        }
        proof {
            assert(entries.take(n as int) =~= entries);
        }
        Some(self.series_spans())
    }

    /// The ids of the shapes of a table that are not hidden, in order.
    fn visible_ids_of(&self, m: &IndexMap<u64, ShapeInfo>) -> (r: Vec<ShapeId>)
        ensures
            r@ == visible_ids(shape_entries(*m), self@.hidden),
    {
        let n = shapes_len(m);
        let ghost entries = shape_entries(*m);
        let ghost hidden = self@.hidden;
        let mut out: Vec<ShapeId> = Vec::new();
        let mut i: usize = 0;
        while i < n
            invariant
                n == entries.len(),
                entries == shape_entries(*m),
                hidden == self@.hidden,
                i <= n,
                out@ == visible_ids(entries.take(i as int), hidden),
            decreases n - i,
        {
            proof {
                assert(entries.take(i + 1).drop_last() =~= entries.take(i as int));
            }
            match shapes_get_index(m, i) {
                Some((k, _)) => {
                    proof {
                        assert(entries.take(i + 1).last() == entries[i as int]);
                    }
                    if !self.hidden_shapes.contains(&k) {
                        out.push(ShapeId(k));
                    }
                },
                None => {},
            }
            i = i + 1;
        }
        proof {
            assert(entries.take(n as int) =~= entries);
        }
        out
    }

    /// The vertical reference lines that are not hidden, in order.
    pub fn visible_vlines(&self) -> (r: Vec<ShapeId>)
        ensures
            r@ == visible_ids(self@.vlines, self@.hidden),
    {
        self.visible_ids_of(&self.vlines)
    }

    /// The horizontal reference lines that are not hidden, in order.
    pub fn visible_hlines(&self) -> (r: Vec<ShapeId>)
        ensures
            r@ == visible_ids(self@.hlines, self@.hidden),
    {
        self.visible_ids_of(&self.hlines)
    }

    /// Whether a point is hovered.
    pub fn is_hovered(&self, point_id: &PointId) -> (b: bool)
        ensures
            b == has_key(self@.hovered, point_key(*point_id)),
    {
        points_contains_key(&self.hovered_points, &(point_id.series_id.0, point_id.point_index))
    }

    /// Whether a point is picked.
    pub fn is_picked(&self, point_id: &PointId) -> (b: bool)
        ensures
            b == has_key(self@.picked, point_key(*point_id)),
    {
        points_contains_key(&self.picked_points, &(point_id.series_id.0, point_id.point_index))
    }

    /// Whether a point refers to an existing series and an index below its
    /// number of positions.
    pub fn valid_point_id(&self, point_id: &PointId) -> (b: bool)
        ensures
            b == self@.valid_point(*point_id),
    {
        match shapes_get(&self.series, &point_id.series_id.0) {
            Some(info) => point_id.point_index < info.point_count,
            None => false,
        }
    }

    /// Whether a shape with this id exists, as a series or a reference line.
    pub fn contains_shape(&self, id: &ShapeId) -> (b: bool)
        ensures
            b == self@.shape_exists(id.0),
    {
        shapes_contains_key(&self.series, &id.0) || shapes_contains_key(&self.vlines, &id.0)
            || shapes_contains_key(&self.hlines, &id.0)
    }

    /// Whether a shape is hidden.
    pub fn is_hidden(&self, id: &ShapeId) -> (b: bool)
        ensures
            b == self@.hidden.contains(id.0),
    {
        self.hidden_shapes.contains(&id.0)
    }

    /// Note a change of the data aspect ratio: the data counter is bumped
    /// (wrapping), so that the camera is refitted.
    pub fn data_aspect_changed(&mut self)
        ensures
            final(self)@ == (PlotWidgetView { data_version: bumped(old(self)@.data_version), ..old(self)@ }),
    {
        proof {
            use_type_invariant(&*self);
        }
        self.data_version = self.data_version.wrapping_add(1);
    }

    /// Collapse or expand the legend.
    pub fn toggle_legend(&mut self)
        ensures
            final(self)@ == (PlotWidgetView { legend_collapsed: !old(self)@.legend_collapsed, ..old(self)@ }),
    {
        proof {
            use_type_invariant(&*self);
        }
        self.legend_collapsed = !self.legend_collapsed;
    }

    /// Open or close the controls/help overlay.
    pub fn toggle_controls_overlay(&mut self)
        ensures
            final(self)@ == (PlotWidgetView {
                controls_overlay_open: !old(self)@.controls_overlay_open,
                ..old(self)@
            }),
    {
        proof {
            use_type_invariant(&*self);
        }
        self.controls_overlay_open = !self.controls_overlay_open;
    }

    /// Set the input handling policy for the plot widget.
    pub fn set_input_policy(&mut self, policy: InputPolicy)
        ensures
            final(self)@ == (PlotWidgetView { input_policy: policy, ..old(self)@ }),
    {
        proof {
            use_type_invariant(&*self);
        }
        self.input_policy = policy;
    }

    /// Enable or disable autoscaling on updates (enabled by default).
    pub fn autoscale_on_updates(&mut self, enabled: bool)
        ensures
            final(self)@ == (PlotWidgetView { autoscale_on_updates: enabled, ..old(self)@ }),
    {
        proof {
            use_type_invariant(&*self);
        }
        self.autoscale_on_updates = enabled;
    }

    /// Enable or disable the cursor-position overlay (disabled by default).
    pub fn set_cursor_overlay(&mut self, enabled: bool)
        ensures
            final(self)@ == (PlotWidgetView { cursor_overlay: enabled, ..old(self)@ }),
    {
        proof {
            use_type_invariant(&*self);
        }
        self.cursor_overlay = enabled;
    }

    /// Enable or disable crosshairs that follow the cursor position.
    pub fn set_crosshairs(&mut self, enabled: bool)
        ensures
            final(self)@ == (PlotWidgetView { crosshairs_enabled: enabled, ..old(self)@ }),
    {
        proof {
            use_type_invariant(&*self);
        }
        self.crosshairs_enabled = enabled;
    }

    /// The input handling policy.
    pub fn input_policy(&self) -> (p: InputPolicy)
        ensures
            p == self@.input_policy,
    {
        self.input_policy
    }

    /// Whether the legend is collapsed.
    pub fn legend_collapsed(&self) -> (b: bool)
        ensures
            b == self@.legend_collapsed,
    {
        self.legend_collapsed
    }

    /// Whether the controls/help overlay is open.
    pub fn controls_overlay_open(&self) -> (b: bool)
        ensures
            b == self@.controls_overlay_open,
    {
        self.controls_overlay_open
    }

    /// Whether the camera is refitted whenever the data changes.
    pub fn autoscales_on_updates(&self) -> (b: bool)
        ensures
            b == self@.autoscale_on_updates,
    {
        self.autoscale_on_updates
    }

    /// Whether the cursor-position overlay is shown.
    pub fn cursor_overlay(&self) -> (b: bool)
        ensures
            b == self@.cursor_overlay,
    {
        self.cursor_overlay
    }

    /// Whether crosshairs follow the cursor.
    pub fn crosshairs_enabled(&self) -> (b: bool)
        ensures
            b == self@.crosshairs_enabled,
    {
        self.crosshairs_enabled
    }

    /// The data change counter.
    pub fn data_version(&self) -> (v: u64)
        ensures
            v == self@.data_version,
    {
        self.data_version
    }

    /// The highlight change counter.
    pub fn highlight_version(&self) -> (v: u64)
        ensures
            v == self@.highlight_version,
    {
        self.highlight_version
    }
}

impl Default for PlotWidget {
    /// A new widget with default settings (see [`PlotWidget::new`]).
    fn default() -> (w: PlotWidget)
        ensures
            w@.is_initial(),
    {
        PlotWidget::new()
    }
}

} // verus!
