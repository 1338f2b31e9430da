# pptx2html_core

The verified core of a PPTX-to-HTML converter, written in Verus.

`src/` holds the document model and the logic that turns it into HTML, each public
function with a contract that Verus proves:

- `resolver/` — the slide → layout → master inheritance of backgrounds, fills,
  borders, positions and color maps; placeholder matching; `fillRef`, `lnRef` and
  `fontRef` style references into the theme.
- `renderer/` — whole presentations with slide selection
  (`render_with_options_metadata`, whose HTML, exported images, typeface and provenance
  records and unresolved elements are each stated exactly, and which is deterministic); the global style sheet; whole slides, their frames
  and the list of shapes they draw; whole shapes: the geometry a placeholder inherits,
  the positioned and styled box, pictures, unresolved-element placeholders, group
  children and text bodies; the SVG of preset shapes with their gradient and arrowhead
  definitions; tables; paragraphs with bullet numbering; text runs with their typeface
  chain and script segments; fills and effects as CSS; bullet labels; HTML escaping;
  exported-asset naming; text-body properties along the cascade.
- `text_metrics.rs` — character classes for line breaking and the split of text into
  runs of one script.
- `strings.rs` — string building, decimal and fixed-point number formatting.

Lengths in the model are integers in the units of the document (EMU, hundredths of a
point, thousandths of a percent, 60000ths of a degree); numbers are written the way
Rust's `{:.N}` formatting writes them, rounding half to even.

`app/` holds the parts that compute in floating point: the path data of the preset
geometries and their dispatch by name (the multi-path curved arrows included), the paths
of custom geometries and their text rectangle, a linear gradient's vector, arrowhead
geometry, and shadow offsets from their polar form; `app/convert.rs` draws every shape
of a presentation that way and hands the drawings to the verified renderer. They reach the library in a `ShapeDrawing`
(an `SvgGeometry`, and the drawn paths of a custom geometry), which also carries the
markup of a chart drawn from its series and the drawings of a group's children. A chart
that is not drawn that way is rendered by the library from its preview image (embedded,
or exported under `images/slide-N/`) or as a placeholder.
`tests/` exercises the library on concrete documents.
