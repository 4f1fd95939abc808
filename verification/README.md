# iced_plot

Interactive 2D plots for iced applications, with a verified core.

## Layout

- `src/` — the library, verified with Verus:
  - `point.rs`: marker types and their numeric codes.
  - `shape.rs`: shape identifiers, what is known of a series or reference
    line, labels, errors.
  - `table.rs`: the insertion-ordered `indexmap::IndexMap` tables, modelled as
    sequences of entries.
  - `plot_widget.rs`: the widget's bookkeeping — series and reference lines in
    order, hidden shapes, hovered and picked points, legend, point-buffer
    spans, change counters and flags.
  - `legend.rs`, `plot_state.rs`, `plot_renderer.rs`: legend rows, series spans
    and the marker/line buffer layout.
  - `interaction.rs`: decisions on pointer input, hovering, picking, syncing
    and publishing.
  - `axes_labels.rs`: placement of axis labels and the help panel's lines.
  - `laws.rs`: properties spanning several operations.
- `tests/` — tests of the library.
- `app/` — the floating-point and iced parts: camera, axis scales and links,
  series data, reference lines, builder, views, and the canvas that draws the
  plot and turns input into the library's decisions.
