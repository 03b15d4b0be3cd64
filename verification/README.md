# Aviate

Aviate reads free FAA assets directly from their zip files: VFR charts (zipped
GeoTIFF rasters) and the 28-day NASR subscription (airport tables as CSV).

This crate is the verified core, written in Verus:

- `src/nasr/` turns airport, runway, runway end, remark, frequency and class
  airspace rows into the rich text shown to the user, recognises telephone
  numbers in free text, orders and searches airports by name, and answers the
  airport reader's requests.
- `src/util.rs` decides what a zip file holds from its folder listings and keeps
  dialogs inside the main window.
- `src/geom.rs` is the integer pixel geometry (fitting rectangles, keeping the
  view on the chart).
- `src/chart.rs` checks a chart's spatial reference and color table.
- `src/main_widget.rs`, `src/app.rs` and the dialog modules hold the decisions
  of the user interface: which dialog answers what, what a key or a reply
  changes.
- `src/touch.rs` tracks touches for long-press detection.

`app/` is ordinary Rust around the library: GDAL access, floating-point chart
geometry, the worker threads. `tests/` exercises the library.
