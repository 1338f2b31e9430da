//! Rendering of tables: column widths, banded and emphasised rows and columns, cell
//! fills, borders, margins, spans and vertical merges.
use vstd::prelude::*;

use crate::model::fill::{Border, Fill};
use crate::model::shape::VerticalAlign;
use crate::model::hierarchy::FontScheme;
use crate::model::table::{TableCell, TableData, TableRow};
use crate::model::text::TextParagraph;
use crate::renderer::context::{
    base64_encodable, spec_asset_path, spec_color_to_css, RenderCollector, RenderCtx,
};
use crate::renderer::fill_css::{
    exports_image, fill_css_collector, fill_css_ready, fill_mime, image_mime, next_asset_path,
    spec_fill_to_css, HtmlRenderer,
};
use crate::renderer::html::{dash_style_to_css, push_sep, spec_dash_style_to_css};
use crate::renderer::context::ExternalAsset;
use crate::renderer::paragraph::{
    lemma_paragraphs_entries_unique, non_break_count, paragraphs_bullets_fit, paragraphs_entries_ok, paragraphs_html,
};
use crate::renderer::run::{same_but_fonts, sep_push, with_decl};
use crate::strings::{decimal_text, fmt_fixed, push_decimal_u64, push_fixed, push_str};
use crate::text_metrics::{fonts_view, lemma_fonts_view_joined, FontResolutionEntry};

verus! {

// ---------------------------------------------------------------------------
// Columns and rows
// ---------------------------------------------------------------------------

/// Sum of the column widths.
pub open spec fn sum_widths(ws: Seq<i64>) -> int
    decreases ws.len(),
{
    if ws.len() == 0 {
        0
    } else {
        sum_widths(ws.drop_last()) + ws.last()
    }
}

/// A column's share of the total width in percent, with one decimal; `0.0` when the
/// total is not positive.
pub open spec fn col_pct(w: int, total: int) -> Seq<char> {
    if total > 0 {
        fmt_fixed(w * 100, total as nat, 1)
    } else {
        "0.0"@
    }
}

/// The `<col>` elements of the column widths.
pub open spec fn cols_html(ws: Seq<i64>, total: int) -> Seq<char>
    decreases ws.len(),
{
    if ws.len() == 0 {
        Seq::empty()
    } else {
        cols_html(ws.drop_last(), total) + "<col style=\"width:"@ + col_pct(ws.last() as int, total)
            + "%\"/>\n"@
    }
}

/// Whether banding shades the row or column at `idx`: with an emphasised first line,
/// every second line after it starting with the second; otherwise every second line
/// starting with the second.
pub open spec fn band_shaded(band: bool, first: bool, idx: int) -> bool {
    band && if first {
        idx >= 1 && (idx - 1) % 2 == 1
    } else {
        idx % 2 == 1
    }
}

/// Banding alternates: with banding on, of two neighbouring rows (or columns) past an
/// emphasised first one exactly one is shaded, and an emphasised first row (or column)
/// is never shaded.
pub proof fn banding_alternates(first: bool, idx: int)
    requires
        idx >= (if first {
            1int
        } else {
            0int
        }),
    ensures
        band_shaded(true, first, idx) != band_shaded(true, first, idx + 1),
        first ==> !band_shaded(true, first, 0),
        !band_shaded(false, first, idx),
{
}

/// The style attribute of the row at `idx`: its height in pixels, band shading, and the
/// emphasis of the first and last rows.
pub open spec fn spec_row_style(t: TableData, row: TableRow, idx: int) -> Seq<char> {
    "height:"@ + fmt_fixed(row.height as int, 9525, 1) + "px"@ + (if band_shaded(
        t.band_row,
        t.first_row,
        idx,
    ) {
        "; background-color: rgba(0,0,0,0.04)"@
    } else {
        Seq::empty()
    }) + (if t.first_row && idx == 0 {
        "; font-weight: bold; border-bottom: 2px solid rgba(0,0,0,0.2)"@
    } else {
        Seq::empty()
    }) + (if t.last_row && idx == t.rows@.len() - 1 {
        "; font-weight: bold; border-top: 2px solid rgba(0,0,0,0.2)"@
    } else {
        Seq::empty()
    })
}

// ---------------------------------------------------------------------------
// Cells
// ---------------------------------------------------------------------------

/// CSS `vertical-align` keyword of a cell's anchoring.
pub open spec fn spec_cell_valign(v: VerticalAlign) -> Seq<char> {
    match v {
        VerticalAlign::Top => "top"@,
        VerticalAlign::Middle => "middle"@,
        VerticalAlign::Bottom => "bottom"@,
    }
}

/// A cell's `vertical-align` keyword names its anchoring: `top` exactly for a cell
/// anchored at the top, `middle` exactly for one anchored in the middle, `bottom` exactly
/// for one anchored at the bottom; so cells anchored differently get different keywords.
pub proof fn cell_valign_names_its_anchoring(v: VerticalAlign, w: VerticalAlign)
    ensures
        (spec_cell_valign(v) == "top"@) <==> (v == VerticalAlign::Top),
        (spec_cell_valign(v) == "middle"@) <==> (v == VerticalAlign::Middle),
        (spec_cell_valign(v) == "bottom"@) <==> (v == VerticalAlign::Bottom),
        (spec_cell_valign(v) == spec_cell_valign(w)) <==> (v == w),
{
    reveal_strlit("top");
    reveal_strlit("middle");
    reveal_strlit("bottom");
    assert("top"@ != "middle"@) by {
        assert("top"@.len() != "middle"@.len());
    }
    assert("top"@ != "bottom"@) by {
        assert("top"@[0] != "bottom"@[0]);
    }
    assert("middle"@ != "bottom"@) by {
        assert("middle"@[0] != "bottom"@[0]);
    }
}

/// A border declaration for one side of a cell, present when the border has a width:
/// width in points, CSS line style, and color (black when it does not resolve).
pub open spec fn spec_border_decl(ctx: RenderCtx, side: Seq<char>, b: Border) -> Option<Seq<char>> {
    if b.width > 0 {
        Some(
            side + ": "@ + fmt_fixed(b.width as int, 12700, 1) + "pt "@ + spec_dash_style_to_css(
                b.dash_style,
            ) + " "@ + match spec_color_to_css(ctx, b.color) {
                Some(c) => c,
                None => "#000"@,
            },
        )
    } else {
        None
    }
}

/// The padding and vertical-align declaration of a cell (margins in points: top,
/// right, bottom, left).
pub open spec fn spec_cell_padding(cell: TableCell) -> Seq<char> {
    "padding: "@ + fmt_fixed(cell.margin_top as int, 12700, 1) + "pt "@ + fmt_fixed(
        cell.margin_right as int,
        12700,
        1,
    ) + "pt "@ + fmt_fixed(cell.margin_bottom as int, 12700, 1) + "pt "@ + fmt_fixed(
        cell.margin_left as int,
        12700,
        1,
    ) + "pt; vertical-align: "@ + spec_cell_valign(cell.vertical_align)
}

/// The style attribute of the cell at column `col`: column band shading, first and last
/// column emphasis, the fill (`asset_path` is where an exported image goes), the four
/// borders, and the padding and vertical alignment.
pub open spec fn spec_cell_style(
    t: TableData,
    cell: TableCell,
    col: int,
    col_count: int,
    ctx: RenderCtx,
    asset_path: Seq<char>,
) -> Seq<char> {
    let s1: Seq<char> = if band_shaded(t.band_col, t.first_col, col) {
        "background-color: rgba(0,0,0,0.04)"@
    } else {
        Seq::empty()
    };
    let s2 = if t.first_col && col == 0 {
        sep_push(s1, "font-weight: bold"@)
    } else {
        s1
    };
    let s3 = if t.last_col && col == col_count - 1 {
        sep_push(s2, "font-weight: bold"@)
    } else {
        s2
    };
    let fill = spec_fill_to_css(cell.fill, ctx, asset_path);
    let s4 = if fill.len() == 0 {
        s3
    } else {
        sep_push(s3, fill)
    };
    let s5 = with_decl(s4, spec_border_decl(ctx, "border-left"@, cell.border_left));
    let s6 = with_decl(s5, spec_border_decl(ctx, "border-right"@, cell.border_right));
    let s7 = with_decl(s6, spec_border_decl(ctx, "border-top"@, cell.border_top));
    let s8 = with_decl(s7, spec_border_decl(ctx, "border-bottom"@, cell.border_bottom));
    sep_push(s8, spec_cell_padding(cell))
}

/// The paragraphs of a cell.
pub open spec fn cell_paragraphs(cell: TableCell) -> Seq<TextParagraph> {
    match cell.text_body {
        Some(tb) => tb.paragraphs@,
        None => Seq::empty(),
    }
}

/// HTML of a cell: `<td>` with its spans when larger than one, its style, and its
/// paragraphs (numbered from fresh counters).
pub open spec fn spec_cell_html(
    t: TableData,
    cell: TableCell,
    col: int,
    col_count: int,
    ctx: RenderCtx,
    fs: Option<&FontScheme>,
    asset_path: Seq<char>,
) -> Seq<char> {
    spec_cell_open(cell, spec_cell_style(t, cell, col, col_count, ctx, asset_path)) + paragraphs_html(
        ctx,
        cell_paragraphs(cell),
        fs,
    ) + "</td>\n"@
}

// ---------------------------------------------------------------------------
// Exported images and the whole table
// ---------------------------------------------------------------------------

/// The path an exported image fill receives as asset number `n` of the slide with
/// 0-based index `slide_index`.
pub open spec fn asset_path_at(fill: Fill, slide_index: int, n: int) -> Seq<char> {
    match fill {
        Fill::Image(img) => spec_asset_path(
            (slide_index + 1) as nat,
            "background"@,
            n as nat,
            image_mime(img.content_type@),
        ),
        _ => Seq::empty(),
    }
}

/// The rendered cell exports its fill as an image.
pub open spec fn cell_exports(cell: TableCell, ctx: RenderCtx) -> bool {
    !cell.v_merge && exports_image(cell.fill, ctx)
}

/// Number of images the cells export.
pub open spec fn cells_exported(cells: Seq<TableCell>, ctx: RenderCtx) -> nat
    decreases cells.len(),
{
    if cells.len() == 0 {
        0
    } else {
        cells_exported(cells.drop_last(), ctx) + if cell_exports(cells.last(), ctx) {
            1nat
        } else {
            0nat
        }
    }
}

/// Number of images the rows export.
pub open spec fn rows_exported(rows: Seq<TableRow>, ctx: RenderCtx) -> nat
    decreases rows.len(),
{
    if rows.len() == 0 {
        0
    } else {
        rows_exported(rows.drop_last(), ctx) + cells_exported(rows.last().cells@, ctx)
    }
}

/// HTML of the cells of a row (`col_count` of them), skipping vertically merged ones; `n` is the
/// number of images exported before them.
pub open spec fn cells_html(
    t: TableData,
    cells: Seq<TableCell>,
    col_count: int,
    ctx: RenderCtx,
    fs: Option<&FontScheme>,
    slide_index: int,
    n: int,
) -> Seq<char>
    decreases cells.len(),
{
    if cells.len() == 0 {
        Seq::empty()
    } else {
        let prev = cells.drop_last();
        let c = cells.last();
        cells_html(t, prev, col_count, ctx, fs, slide_index, n) + if c.v_merge {
            Seq::empty()
        } else {
            spec_cell_html(
                t,
                c,
                prev.len() as int,
                col_count,
                ctx,
                fs,
                asset_path_at(c.fill, slide_index, n + cells_exported(prev, ctx)),
            )
        }
    }
}

/// HTML of one row at `idx`.
pub open spec fn spec_row_html(
    t: TableData,
    row: TableRow,
    idx: int,
    ctx: RenderCtx,
    fs: Option<&FontScheme>,
    slide_index: int,
    n: int,
) -> Seq<char> {
    "<tr style=\""@ + spec_row_style(t, row, idx) + "\">\n"@ + cells_html(
        t,
        row.cells@,
        row.cells@.len() as int,
        ctx,
        fs,
        slide_index,
        n,
    ) + "</tr>\n"@
}

/// HTML of rows, in order; `n` is the number of images exported before them.
pub open spec fn rows_html(
    t: TableData,
    rows: Seq<TableRow>,
    ctx: RenderCtx,
    fs: Option<&FontScheme>,
    slide_index: int,
    n: int,
) -> Seq<char>
    decreases rows.len(),
{
    if rows.len() == 0 {
        Seq::empty()
    } else {
        let prev = rows.drop_last();
        rows_html(t, prev, ctx, fs, slide_index, n) + spec_row_html(
            t,
            rows.last(),
            prev.len() as int,
            ctx,
            fs,
            slide_index,
            n + rows_exported(prev, ctx),
        )
    }
}

/// HTML of a table: a fixed-layout table, one `<col>` per column with its share of the
/// total width, and the rows. `n` is the number of images exported before it on the
/// slide with 0-based index `slide_index`.
pub open spec fn spec_table_html(
    t: TableData,
    ctx: RenderCtx,
    fs: Option<&FontScheme>,
    slide_index: int,
    n: int,
) -> Seq<char> {
    "<table style=\"width:100%; height:100%; border-collapse:collapse; table-layout:fixed;\">\n<colgroup>\n"@
        + cols_html(t.col_widths@, sum_widths(t.col_widths@)) + "</colgroup>\n"@ + rows_html(
        t,
        t.rows@,
        ctx,
        fs,
        slide_index,
        n,
    ) + "</table>\n"@
}

// ---------------------------------------------------------------------------
// What a table adds to the collector
// ---------------------------------------------------------------------------

/// Path, media type and data of each exported asset.
pub open spec fn asset_views(a: Seq<ExternalAsset>) -> Seq<(Seq<char>, Seq<char>, Seq<u8>)> {
    a.map_values(|x: ExternalAsset| (x.relative_path@, x.content_type@, x.data@))
}

/// The image data of a fill.
pub open spec fn fill_data(fill: Fill) -> Seq<u8> {
    match fill {
        Fill::Image(img) => img.data@,
        _ => Seq::empty(),
    }
}

/// The assets the cells export (path and data), in order, numbered from `n`.
pub open spec fn cells_assets(cells: Seq<TableCell>, ctx: RenderCtx, slide_index: int, n: int) -> Seq<
    (Seq<char>, Seq<char>, Seq<u8>),
>
    decreases cells.len(),
{
    if cells.len() == 0 {
        Seq::empty()
    } else {
        let prev = cells.drop_last();
        let c = cells.last();
        cells_assets(prev, ctx, slide_index, n) + if cell_exports(c, ctx) {
            seq![
                (
                    asset_path_at(c.fill, slide_index, n + cells_exported(prev, ctx)),
                    fill_mime(c.fill),
                    fill_data(c.fill),
                ),
            ]
        } else {
            Seq::empty()
        }
    }
}

/// The assets the rows export, in order, numbered from `n`.
pub open spec fn rows_assets(rows: Seq<TableRow>, ctx: RenderCtx, slide_index: int, n: int) -> Seq<
    (Seq<char>, Seq<char>, Seq<u8>),
>
    decreases rows.len(),
{
    if rows.len() == 0 {
        Seq::empty()
    } else {
        let prev = rows.drop_last();
        rows_assets(prev, ctx, slide_index, n) + cells_assets(
            rows.last().cells@,
            ctx,
            slide_index,
            n + rows_exported(prev, ctx),
        )
    }
}

/// Number of typeface records the paragraphs produce (one per run that is not a break).
pub open spec fn paragraphs_entry_count(paras: Seq<TextParagraph>) -> nat
    decreases paras.len(),
{
    if paras.len() == 0 {
        0
    } else {
        paragraphs_entry_count(paras.drop_last()) + non_break_count(paras.last().runs@)
    }
}

/// Number of typeface records the rendered cells produce.
pub open spec fn cells_entry_count(cells: Seq<TableCell>) -> nat
    decreases cells.len(),
{
    if cells.len() == 0 {
        0
    } else {
        cells_entry_count(cells.drop_last()) + if cells.last().v_merge {
            0nat
        } else {
            paragraphs_entry_count(cell_paragraphs(cells.last()))
        }
    }
}

/// `entries` are the typeface records of the rendered cells' paragraphs, cell by cell.
pub open spec fn cells_entries_ok(
    entries: Seq<FontResolutionEntry>,
    cells: Seq<TableCell>,
    slide_number: int,
    fs: Option<&FontScheme>,
) -> bool
    decreases cells.len(),
{
    if cells.len() == 0 {
        entries.len() == 0
    } else {
        let c = cells.last();
        let k: int = if c.v_merge {
            0
        } else {
            paragraphs_entry_count(cell_paragraphs(c)) as int
        };
        &&& entries.len() >= k
        &&& (!c.v_merge ==> paragraphs_entries_ok(
            entries.subrange(entries.len() - k, entries.len() as int),
            cell_paragraphs(c),
            slide_number,
            fs,
        ))
        &&& cells_entries_ok(
            entries.subrange(0, entries.len() - k),
            cells.drop_last(),
            slide_number,
            fs,
        )
    }
}

/// `entries` are the typeface records of the rows' cells, row by row.
pub open spec fn rows_entries_ok(
    entries: Seq<FontResolutionEntry>,
    rows: Seq<TableRow>,
    slide_number: int,
    fs: Option<&FontScheme>,
) -> bool
    decreases rows.len(),
{
    if rows.len() == 0 {
        entries.len() == 0
    } else {
        let k = cells_entry_count(rows.last().cells@) as int;
        &&& entries.len() >= k
        &&& cells_entries_ok(
            entries.subrange(entries.len() - k, entries.len() as int),
            rows.last().cells@,
            slide_number,
            fs,
        )
        &&& rows_entries_ok(entries.subrange(0, entries.len() - k), rows.drop_last(), slide_number, fs)
    }
}

/// The typeface records of table cells are determined by the cells.
pub(crate) proof fn lemma_cells_entries_unique(
    a: Seq<FontResolutionEntry>,
    b: Seq<FontResolutionEntry>,
    cells: Seq<TableCell>,
    slide_number: int,
    fs: Option<&FontScheme>,
)
    requires
        cells_entries_ok(a, cells, slide_number, fs),
        cells_entries_ok(b, cells, slide_number, fs),
    ensures
        fonts_view(a) == fonts_view(b),
    decreases cells.len(),
{
    if cells.len() == 0 {
        assert(fonts_view(a) =~= fonts_view(b));
    } else {
        let c = cells.last();
        let k: int = if c.v_merge {
            0
        } else {
            paragraphs_entry_count(cell_paragraphs(c)) as int
        };
        if c.v_merge {
            assert(fonts_view(a.subrange(a.len() - k, a.len() as int)) =~= fonts_view(
                b.subrange(b.len() - k, b.len() as int),
            ));
        } else {
            lemma_paragraphs_entries_unique(
                a.subrange(a.len() - k, a.len() as int),
                b.subrange(b.len() - k, b.len() as int),
                cell_paragraphs(c),
                slide_number,
                fs,
            );
        }
        lemma_cells_entries_unique(
            a.subrange(0, a.len() - k),
            b.subrange(0, b.len() - k),
            cells.drop_last(),
            slide_number,
            fs,
        );
        lemma_fonts_view_joined(a, b, a.len() - k, b.len() - k);
    }
}

/// The typeface records of table rows are determined by the rows.
pub(crate) proof fn lemma_rows_entries_unique(
    a: Seq<FontResolutionEntry>,
    b: Seq<FontResolutionEntry>,
    rows: Seq<TableRow>,
    slide_number: int,
    fs: Option<&FontScheme>,
)
    requires
        rows_entries_ok(a, rows, slide_number, fs),
        rows_entries_ok(b, rows, slide_number, fs),
    ensures
        fonts_view(a) == fonts_view(b),
    decreases rows.len(),
{
    if rows.len() == 0 {
        assert(fonts_view(a) =~= fonts_view(b));
    } else {
        let k = cells_entry_count(rows.last().cells@) as int;
        lemma_cells_entries_unique(
            a.subrange(a.len() - k, a.len() as int),
            b.subrange(b.len() - k, b.len() as int),
            rows.last().cells@,
            slide_number,
            fs,
        );
        lemma_rows_entries_unique(a.subrange(0, a.len() - k), b.subrange(0, b.len() - k), rows.drop_last(), slide_number, fs);
        lemma_fonts_view_joined(a, b, a.len() - k, b.len() - k);
    }
}

/// What rendering did to the collector: `assets` exported (and the asset counter
/// advanced by their number), typeface records appended, nothing else changed.
pub open spec fn coll_step(
    old: RenderCollector,
    new: RenderCollector,
    assets: Seq<(Seq<char>, Seq<char>, Seq<u8>)>,
) -> bool {
    &&& new.current_slide_index == old.current_slide_index
    &&& new.gradient_counter == old.gradient_counter
    &&& new.marker_counter == old.marker_counter
    &&& new.counter == old.counter
    &&& new.elements@ == old.elements@
    &&& new.provenance_entries@ == old.provenance_entries@
    &&& new.asset_counter == old.asset_counter + assets.len()
    &&& asset_views(new.external_assets@) == asset_views(old.external_assets@) + assets
    &&& old.font_resolution_entries@.len() <= new.font_resolution_entries@.len()
    &&& new.font_resolution_entries@.subrange(0, old.font_resolution_entries@.len() as int)
        == old.font_resolution_entries@
}

/// The typeface records appended between two collector states.
pub open spec fn added_entries(old: RenderCollector, new: RenderCollector) -> Seq<FontResolutionEntry> {
    new.font_resolution_entries@.subrange(
        old.font_resolution_entries@.len() as int,
        new.font_resolution_entries@.len() as int,
    )
}

/// The cells can be rendered: image fills of rendered cells can be encoded and their
/// bullets fit the numbering counters.
pub open spec fn cells_ready(cells: Seq<TableCell>) -> bool {
    forall|i: int|
        0 <= i < cells.len() && !(#[trigger] cells[i]).v_merge ==> {
            &&& (cells[i].fill matches Fill::Image(img) ==> base64_encodable(img.data@.len()))
            &&& paragraphs_bullets_fit(cell_paragraphs(cells[i]))
        }
}

/// Every row's cells can be rendered.
pub open spec fn rows_ready(rows: Seq<TableRow>) -> bool {
    forall|i: int| 0 <= i < rows.len() ==> cells_ready((#[trigger] rows[i]).cells@)
}


// ---------------------------------------------------------------------------
// Executable pieces
// ---------------------------------------------------------------------------

fn push_border(buf: &mut String, ctx: &RenderCtx, side: &str, b: &Border)
    ensures
        final(buf)@ == with_decl(old(buf)@, spec_border_decl(*ctx, side@, *b)),
{
    if b.width > 0 {
        let color = match ctx.color_to_css(&b.color) {
            Some(c) => c,
            None => "#000".to_owned(),
        };
        let mut d = String::new();
        push_str(&mut d, side);
        push_str(&mut d, ": ");
        push_fixed(&mut d, b.width as i128, 12700, 1);
        push_str(&mut d, "pt ");
        push_str(&mut d, dash_style_to_css(&b.dash_style));
        push_str(&mut d, " ");
        push_str(&mut d, color.as_str());
        push_sep(buf);
        push_str(buf, d.as_str());
        proof {
            assert(d@ =~= spec_border_decl(*ctx, side@, *b).unwrap());
            assert(buf@ =~= sep_push(old(buf)@, d@));
        }
    }
}

fn push_cell_padding(buf: &mut String, cell: &TableCell)
    ensures
        final(buf)@ == sep_push(old(buf)@, spec_cell_padding(*cell)),
{
    let mut d = String::new();
    push_str(&mut d, "padding: ");
    push_fixed(&mut d, cell.margin_top as i128, 12700, 1);
    push_str(&mut d, "pt ");
    push_fixed(&mut d, cell.margin_right as i128, 12700, 1);
    push_str(&mut d, "pt ");
    push_fixed(&mut d, cell.margin_bottom as i128, 12700, 1);
    push_str(&mut d, "pt ");
    push_fixed(&mut d, cell.margin_left as i128, 12700, 1);
    push_str(&mut d, "pt; vertical-align: ");
    let va = match cell.vertical_align {
        VerticalAlign::Top => "top",
        VerticalAlign::Middle => "middle",
        VerticalAlign::Bottom => "bottom",
    };
    push_str(&mut d, va);
    push_sep(buf);
    push_str(buf, d.as_str());
    proof {
        assert(d@ =~= spec_cell_padding(*cell));
        assert(buf@ =~= sep_push(old(buf)@, d@));
    }
}

fn cell_style(
    t: &TableData,
    cell: &TableCell,
    col: usize,
    col_count: usize,
    ctx: &RenderCtx,
    coll: &mut RenderCollector,
) -> (r: String)
    requires
        col < col_count,
        fill_css_ready(cell.fill, *old(coll)),
    ensures
        r@ == spec_cell_style(
            *t,
            *cell,
            col as int,
            col_count as int,
            *ctx,
            next_asset_path(cell.fill, *old(coll)),
        ),
        fill_css_collector(cell.fill, *ctx, *old(coll), *final(coll)),
{
    let mut st = String::new();
    let shaded = t.band_col && if t.first_col {
        col >= 1 && (col - 1) % 2 == 1
    } else {
        col % 2 == 1
    };
    if shaded {
        push_str(&mut st, "background-color: rgba(0,0,0,0.04)");
    }
    if t.first_col && col == 0 {
        push_sep(&mut st);
        push_str(&mut st, "font-weight: bold");
    }
    if t.last_col && col == col_count - 1 {
        push_sep(&mut st);
        push_str(&mut st, "font-weight: bold");
    }
    let ghost s3 = st@;
    HtmlRenderer::fill_to_css_buf(&cell.fill, ctx, coll, &mut st);
    let ghost s4 = st@;
    push_border(&mut st, ctx, "border-left", &cell.border_left);
    push_border(&mut st, ctx, "border-right", &cell.border_right);
    push_border(&mut st, ctx, "border-top", &cell.border_top);
    push_border(&mut st, ctx, "border-bottom", &cell.border_bottom);
    push_cell_padding(&mut st, cell);
    proof {
        reveal_strlit("border-left");
        reveal_strlit("border-right");
        reveal_strlit("border-top");
        reveal_strlit("border-bottom");
        let s1: Seq<char> = if band_shaded(t.band_col, t.first_col, col as int) {
            "background-color: rgba(0,0,0,0.04)"@
        } else {
            Seq::empty()
        };
        let s2 = if t.first_col && col == 0 {
            sep_push(s1, "font-weight: bold"@)
        } else {
            s1
        };
        let s3s = if t.last_col && col == col_count - 1 {
            sep_push(s2, "font-weight: bold"@)
        } else {
            s2
        };
        assert(s3 =~= s3s);
        let fill = spec_fill_to_css(cell.fill, *ctx, next_asset_path(cell.fill, *old(coll)));
        assert(s4 == if fill.len() == 0 {
            s3s
        } else {
            sep_push(s3s, fill)
        });
    }
    st
}


/// The assets a rendered cell exports.
pub open spec fn cell_assets(cell: TableCell, ctx: RenderCtx, slide_index: int, n: int) -> Seq<
    (Seq<char>, Seq<char>, Seq<u8>),
> {
    if cell_exports(cell, ctx) {
        seq![(asset_path_at(cell.fill, slide_index, n), fill_mime(cell.fill), fill_data(cell.fill))]
    } else {
        Seq::empty()
    }
}

proof fn lemma_fill_step(cell: TableCell, ctx: RenderCtx, c0: RenderCollector, c1: RenderCollector)
    requires
        !cell.v_merge,
        fill_css_collector(cell.fill, ctx, c0, c1),
    ensures
        coll_step(
            c0,
            c1,
            cell_assets(cell, ctx, c0.current_slide_index as int, c0.asset_counter as int),
        ),
        c1.font_resolution_entries@ == c0.font_resolution_entries@,
        next_asset_path(cell.fill, c0) == asset_path_at(
            cell.fill,
            c0.current_slide_index as int,
            c0.asset_counter as int,
        ),
{
    assert(c0.font_resolution_entries@.subrange(0, c0.font_resolution_entries@.len() as int)
        =~= c0.font_resolution_entries@);
    if cell_exports(cell, ctx) {
        assert(c1.external_assets@ =~= c0.external_assets@.push(c1.external_assets@.last()));
        assert(asset_views(c1.external_assets@) =~= asset_views(c0.external_assets@) + cell_assets(
            cell,
            ctx,
            c0.current_slide_index as int,
            c0.asset_counter as int,
        ));
    } else {
        assert(asset_views(c1.external_assets@) =~= asset_views(c0.external_assets@) + cell_assets(
            cell,
            ctx,
            c0.current_slide_index as int,
            c0.asset_counter as int,
        ));
    }
}

proof fn lemma_step_then_fonts(
    c0: RenderCollector,
    c1: RenderCollector,
    c2: RenderCollector,
    assets: Seq<(Seq<char>, Seq<char>, Seq<u8>)>,
)
    requires
        coll_step(c0, c1, assets),
        c1.font_resolution_entries@ == c0.font_resolution_entries@,
        same_but_fonts(c1, c2),
        c1.font_resolution_entries@.len() <= c2.font_resolution_entries@.len(),
        c2.font_resolution_entries@.subrange(0, c1.font_resolution_entries@.len() as int)
            == c1.font_resolution_entries@,
    ensures
        coll_step(c0, c2, assets),
        added_entries(c0, c2) == added_entries(c1, c2),
{
}


proof fn lemma_coll_step_trans(
    a: RenderCollector,
    b: RenderCollector,
    c: RenderCollector,
    x: Seq<(Seq<char>, Seq<char>, Seq<u8>)>,
    y: Seq<(Seq<char>, Seq<char>, Seq<u8>)>,
)
    requires
        coll_step(a, b, x),
        coll_step(b, c, y),
    ensures
        coll_step(a, c, x + y),
        added_entries(a, c) == added_entries(a, b) + added_entries(b, c),
{
    let ea = a.font_resolution_entries@;
    let eb = b.font_resolution_entries@;
    let ec = c.font_resolution_entries@;
    assert(ec.subrange(0, ea.len() as int) =~= eb.subrange(0, ea.len() as int));
    assert(added_entries(a, c) =~= added_entries(a, b) + added_entries(b, c));
    assert(asset_views(c.external_assets@) =~= asset_views(a.external_assets@) + (x + y));
}

proof fn lemma_coll_step_refl(a: RenderCollector)
    ensures
        coll_step(a, a, Seq::empty()),
        added_entries(a, a) == Seq::<FontResolutionEntry>::empty(),
{
    assert(a.font_resolution_entries@.subrange(0, a.font_resolution_entries@.len() as int)
        =~= a.font_resolution_entries@);
    assert(asset_views(a.external_assets@) =~= asset_views(a.external_assets@) + Seq::<
        (Seq<char>, Seq<char>, Seq<u8>),
    >::empty());
    assert(added_entries(a, a) =~= Seq::<FontResolutionEntry>::empty());
}

proof fn lemma_paragraphs_entries_len(
    entries: Seq<FontResolutionEntry>,
    paras: Seq<TextParagraph>,
    slide_number: int,
    fs: Option<&FontScheme>,
)
    requires
        paragraphs_entries_ok(entries, paras, slide_number, fs),
    ensures
        entries.len() == paragraphs_entry_count(paras),
    decreases paras.len(),
{
    if paras.len() > 0 {
        let n = non_break_count(paras.last().runs@);
        lemma_paragraphs_entries_len(
            entries.subrange(0, entries.len() - n),
            paras.drop_last(),
            slide_number,
            fs,
        );
    }
}

proof fn lemma_cells_entries_len(
    entries: Seq<FontResolutionEntry>,
    cells: Seq<TableCell>,
    slide_number: int,
    fs: Option<&FontScheme>,
)
    requires
        cells_entries_ok(entries, cells, slide_number, fs),
    ensures
        entries.len() == cells_entry_count(cells),
    decreases cells.len(),
{
    if cells.len() > 0 {
        let c = cells.last();
        let k: int = if c.v_merge {
            0
        } else {
            paragraphs_entry_count(cell_paragraphs(c)) as int
        };
        lemma_cells_entries_len(entries.subrange(0, entries.len() - k), cells.drop_last(), slide_number, fs);
    }
}

proof fn lemma_cells_entries_step(
    e1: Seq<FontResolutionEntry>,
    e2: Seq<FontResolutionEntry>,
    cells: Seq<TableCell>,
    i: int,
    slide_number: int,
    fs: Option<&FontScheme>,
)
    requires
        0 <= i < cells.len(),
        cells_entries_ok(e1, cells.take(i), slide_number, fs),
        cells[i].v_merge ==> e2.len() == 0,
        !cells[i].v_merge ==> paragraphs_entries_ok(e2, cell_paragraphs(cells[i]), slide_number, fs),
    ensures
        cells_entries_ok(e1 + e2, cells.take(i + 1), slide_number, fs),
{
    let t1 = cells.take(i + 1);
    assert(t1.drop_last() =~= cells.take(i));
    assert(t1.last() == cells[i]);
    let all = e1 + e2;
    if !cells[i].v_merge {
        lemma_paragraphs_entries_len(e2, cell_paragraphs(cells[i]), slide_number, fs);
    }
    let k = e2.len() as int;
    assert(all.subrange(all.len() - k, all.len() as int) =~= e2);
    assert(all.subrange(0, all.len() - k) =~= e1);
}

proof fn lemma_cells_assets_step(cells: Seq<TableCell>, i: int, ctx: RenderCtx, slide_index: int, n: int)
    requires
        0 <= i < cells.len(),
    ensures
        cells_assets(cells.take(i + 1), ctx, slide_index, n) == cells_assets(
            cells.take(i),
            ctx,
            slide_index,
            n,
        ) + cell_assets(cells[i], ctx, slide_index, n + cells_exported(cells.take(i), ctx)),
        cells_exported(cells.take(i + 1), ctx) == cells_exported(cells.take(i), ctx) + if cell_exports(
            cells[i],
            ctx,
        ) {
            1nat
        } else {
            0nat
        },
{
    let t1 = cells.take(i + 1);
    assert(t1.drop_last() =~= cells.take(i));
    assert(t1.last() == cells[i]);
}

proof fn lemma_cells_assets_len(cells: Seq<TableCell>, ctx: RenderCtx, slide_index: int, n: int)
    ensures
        cells_assets(cells, ctx, slide_index, n).len() == cells_exported(cells, ctx),
    decreases cells.len(),
{
    if cells.len() > 0 {
        lemma_cells_assets_len(cells.drop_last(), ctx, slide_index, n);
    }
}

proof fn lemma_cells_exported_prefix(cells: Seq<TableCell>, ctx: RenderCtx, i: int)
    requires
        0 <= i <= cells.len(),
    ensures
        cells_exported(cells.take(i), ctx) <= cells_exported(cells, ctx),
    decreases cells.len() - i,
{
    if i < cells.len() {
        lemma_cells_exported_prefix(cells, ctx, i + 1);
        lemma_cells_assets_step(cells, i, ctx, 0, 0);
    } else {
        assert(cells.take(i) =~= cells);
    }
}

fn push_row_open(html: &mut String, t: &TableData, row: &TableRow, row_idx: usize)
    requires
        row_idx < t.rows@.len(),
    ensures
        final(html)@ == old(html)@ + "<tr style=\""@ + spec_row_style(*t, *row, row_idx as int)
            + "\">\n"@,
{
    let row_count = t.rows.len();
    push_str(html, "<tr style=\"");
    push_str(html, "height:");
    push_fixed(html, row.height as i128, 9525, 1);
    push_str(html, "px");
    let shaded = t.band_row && if t.first_row {
        row_idx >= 1 && (row_idx - 1) % 2 == 1
    } else {
        row_idx % 2 == 1
    };
    if shaded {
        push_str(html, "; background-color: rgba(0,0,0,0.04)");
    }
    if t.first_row && row_idx == 0 {
        push_str(html, "; font-weight: bold; border-bottom: 2px solid rgba(0,0,0,0.2)");
    }
    if t.last_row && row_idx == row_count - 1 {
        push_str(html, "; font-weight: bold; border-top: 2px solid rgba(0,0,0,0.2)");
    }
    push_str(html, "\">\n");
    proof {
        assert(html@ =~= old(html)@ + "<tr style=\""@ + spec_row_style(*t, *row, row_idx as int)
            + "\">\n"@);
    }
}

pub(crate) proof fn lemma_rows_assets_len(rows: Seq<TableRow>, ctx: RenderCtx, slide_index: int, n: int)
    ensures
        rows_assets(rows, ctx, slide_index, n).len() == rows_exported(rows, ctx),
    decreases rows.len(),
{
    if rows.len() > 0 {
        lemma_rows_assets_len(rows.drop_last(), ctx, slide_index, n);
        lemma_cells_assets_len(
            rows.last().cells@,
            ctx,
            slide_index,
            n + rows_exported(rows.drop_last(), ctx),
        );
    }
}

proof fn lemma_rows_step(rows: Seq<TableRow>, i: int, ctx: RenderCtx, slide_index: int, n: int)
    requires
        0 <= i < rows.len(),
    ensures
        rows_assets(rows.take(i + 1), ctx, slide_index, n) == rows_assets(
            rows.take(i),
            ctx,
            slide_index,
            n,
        ) + cells_assets(rows[i].cells@, ctx, slide_index, n + rows_exported(rows.take(i), ctx)),
        rows_exported(rows.take(i + 1), ctx) == rows_exported(rows.take(i), ctx) + cells_exported(
            rows[i].cells@,
            ctx,
        ),
{
    let t1 = rows.take(i + 1);
    assert(t1.drop_last() =~= rows.take(i));
    assert(t1.last() == rows[i]);
}

proof fn lemma_rows_exported_prefix(rows: Seq<TableRow>, ctx: RenderCtx, i: int)
    requires
        0 <= i <= rows.len(),
    ensures
        rows_exported(rows.take(i), ctx) <= rows_exported(rows, ctx),
    decreases rows.len() - i,
{
    if i < rows.len() {
        lemma_rows_exported_prefix(rows, ctx, i + 1);
        lemma_rows_step(rows, i, ctx, 0, 0);
    } else {
        assert(rows.take(i) =~= rows);
    }
}

proof fn lemma_rows_entries_step(
    e1: Seq<FontResolutionEntry>,
    e2: Seq<FontResolutionEntry>,
    rows: Seq<TableRow>,
    i: int,
    slide_number: int,
    fs: Option<&FontScheme>,
)
    requires
        0 <= i < rows.len(),
        rows_entries_ok(e1, rows.take(i), slide_number, fs),
        cells_entries_ok(e2, rows[i].cells@, slide_number, fs),
    ensures
        rows_entries_ok(e1 + e2, rows.take(i + 1), slide_number, fs),
{
    let t1 = rows.take(i + 1);
    assert(t1.drop_last() =~= rows.take(i));
    assert(t1.last() == rows[i]);
    lemma_cells_entries_len(e2, rows[i].cells@, slide_number, fs);
    let all = e1 + e2;
    let k = e2.len() as int;
    assert(all.subrange(all.len() - k, all.len() as int) =~= e2);
    assert(all.subrange(0, all.len() - k) =~= e1);
}

fn total_width(ws: &Vec<i64>) -> (r: i128)
    ensures
        r == sum_widths(ws@),
{
    let mut total: i128 = 0;
    let mut i: usize = 0;
    while i < ws.len()
        invariant
            i <= ws@.len(),
            total == sum_widths(ws@.take(i as int)),
            -0x8000_0000_0000_0000 * i <= total <= 0x8000_0000_0000_0000 * i,
        decreases ws@.len() - i,
    {
        proof {
            let t1 = ws@.take(i as int + 1);
            assert(t1.drop_last() =~= ws@.take(i as int));
            assert(t1.last() == ws@[i as int]);
            assert(i < 0x1_0000_0000_0000_0000);
            assert(0x8000_0000_0000_0000 * (i + 1) <= 0x8000_0000_0000_0000_0000_0000_0000_0000)
                by (nonlinear_arith)
                requires
                    i < 0x1_0000_0000_0000_0000,
            ;
        }
        total = total + ws[i] as i128;
        i = i + 1;
    }
    proof {
        assert(ws@.take(ws@.len() as int) =~= ws@);
    }
    total
}

fn push_cols(html: &mut String, ws: &Vec<i64>, total: i128)
    ensures
        final(html)@ == old(html)@ + cols_html(ws@, total as int),
{
    let mut i: usize = 0;
    proof {
        assert(ws@.take(0) =~= Seq::<i64>::empty());
    }
    while i < ws.len()
        invariant
            i <= ws@.len(),
            html@ == old(html)@ + cols_html(ws@.take(i as int), total as int),
        decreases ws@.len() - i,
    {
        let ghost before = html@;
        let w = ws[i];
        push_str(html, "<col style=\"width:");
        if total > 0 {
            push_fixed(html, (w as i128) * 100, total as u128, 1);
        } else {
            push_str(html, "0.0");
        }
        push_str(html, "%\"/>\n");
        proof {
            let t1 = ws@.take(i as int + 1);
            assert(t1.drop_last() =~= ws@.take(i as int));
            assert(t1.last() == w);
            assert(html@ =~= before + "<col style=\"width:"@ + col_pct(w as int, total as int)
                + "%\"/>\n"@);
        }
        i = i + 1;
    }
    proof {
        assert(ws@.take(ws@.len() as int) =~= ws@);
    }
}

/// The opening `<td>` tag of a cell with the given style.
pub open spec fn spec_cell_open(cell: TableCell, style: Seq<char>) -> Seq<char> {
    "<td"@ + (if cell.col_span > 1 {
        " colspan=\""@ + decimal_text(cell.col_span as int) + "\""@
    } else {
        Seq::empty()
    }) + (if cell.row_span > 1 {
        " rowspan=\""@ + decimal_text(cell.row_span as int) + "\""@
    } else {
        Seq::empty()
    }) + " style=\""@ + style + "\">\n"@
}

fn push_cell_open(html: &mut String, cell: &TableCell, style: &str)
    ensures
        final(html)@ == old(html)@ + spec_cell_open(*cell, style@),
{
    push_str(html, "<td");
    if cell.col_span > 1 {
        push_str(html, " colspan=\"");
        push_decimal_u64(html, cell.col_span as u64);
        push_str(html, "\"");
    }
    if cell.row_span > 1 {
        push_str(html, " rowspan=\"");
        push_decimal_u64(html, cell.row_span as u64);
        push_str(html, "\"");
    }
    push_str(html, " style=\"");
    push_str(html, style);
    push_str(html, "\">\n");
    proof {
        assert(html@ =~= old(html)@ + spec_cell_open(*cell, style@));
    }
}

impl HtmlRenderer {
    /// Render a table: a fixed-layout table whose columns take their share of the total
    /// width; rows with their height, band shading (counted after an emphasised first
    /// row) and first/last-row emphasis; cells (vertically merged ones skipped) with band
    /// shading, first/last-column emphasis, fill, borders, margins, vertical alignment
    /// and spans, and their paragraphs numbered from fresh counters in each cell.
    pub fn render_table(
        table: &TableData,
        ctx: &RenderCtx<'_>,
        font_scheme: Option<&FontScheme>,
        coll: &mut RenderCollector,
        html: &mut String,
    )
        requires
            rows_ready(table.rows@),
            old(coll).current_slide_index < usize::MAX,
            old(coll).asset_counter + rows_exported(table.rows@, *ctx) < usize::MAX,
        ensures
            final(html)@ == old(html)@ + spec_table_html(
                *table,
                *ctx,
                font_scheme,
                old(coll).current_slide_index as int,
                old(coll).asset_counter as int,
            ),
            coll_step(
                *old(coll),
                *final(coll),
                rows_assets(
                    table.rows@,
                    *ctx,
                    old(coll).current_slide_index as int,
                    old(coll).asset_counter as int,
                ),
            ),
            rows_entries_ok(
                added_entries(*old(coll), *final(coll)),
                table.rows@,
                old(coll).current_slide_index + 1,
                font_scheme,
            ),
    {
        let ghost c0 = *old(coll);
        let ghost slide = c0.current_slide_index as int;
        let ghost n = c0.asset_counter as int;
        let total = total_width(&table.col_widths);
        push_str(
            html,
            "<table style=\"width:100%; height:100%; border-collapse:collapse; table-layout:fixed;\">\n<colgroup>\n",
        );
        push_cols(html, &table.col_widths, total);
        push_str(html, "</colgroup>\n");
        let ghost h0 = html@;
        proof {
            lemma_coll_step_refl(c0);
            assert(table.rows@.take(0) =~= Seq::<TableRow>::empty());
        }
        let ghost rows = table.rows@;
        let mut i: usize = 0;
        while i < table.rows.len()
            invariant
                i <= rows.len(),
                rows == table.rows@,
                rows_ready(rows),
                c0.current_slide_index < usize::MAX,
                c0.asset_counter + rows_exported(rows, *ctx) < usize::MAX,
                slide == c0.current_slide_index,
                n == c0.asset_counter,
                html@ == h0 + rows_html(*table, rows.take(i as int), *ctx, font_scheme, slide, n),
                coll_step(c0, *coll, rows_assets(rows.take(i as int), *ctx, slide, n)),
                rows_entries_ok(added_entries(c0, *coll), rows.take(i as int), slide + 1, font_scheme),
            decreases rows.len() - i,
        {
            let row = &table.rows[i];
            let ghost before = *coll;
            proof {
                lemma_rows_step(rows, i as int, *ctx, slide, n);
                lemma_rows_exported_prefix(rows, *ctx, i as int + 1);
                lemma_rows_assets_len(rows.take(i as int), *ctx, slide, n);
                assert(*row == rows[i as int]);
                let t1 = rows.take(i as int + 1);
                assert(t1.drop_last() =~= rows.take(i as int));
                assert(t1.last() == rows[i as int]);
            }
            Self::render_table_row(table, row, i, ctx, font_scheme, coll, html);
            proof {
                lemma_coll_step_trans(
                    c0,
                    before,
                    *coll,
                    rows_assets(rows.take(i as int), *ctx, slide, n),
                    cells_assets(rows[i as int].cells@, *ctx, slide, n + rows_exported(rows.take(i as int), *ctx)),
                );
                lemma_rows_entries_step(
                    added_entries(c0, before),
                    added_entries(before, *coll),
                    rows,
                    i as int,
                    slide + 1,
                    font_scheme,
                );
            }
            i = i + 1;
        }
        proof {
            assert(rows.take(rows.len() as int) =~= rows);
        }
        push_str(html, "</table>\n");
        proof {
            assert(html@ =~= old(html)@ + spec_table_html(*table, *ctx, font_scheme, slide, n));
        }
    }

    fn render_table_row(
        t: &TableData,
        row: &TableRow,
        row_idx: usize,
        ctx: &RenderCtx<'_>,
        font_scheme: Option<&FontScheme>,
        coll: &mut RenderCollector,
        html: &mut String,
    )
        requires
            row_idx < t.rows@.len(),
            cells_ready(row.cells@),
            old(coll).current_slide_index < usize::MAX,
            old(coll).asset_counter + cells_exported(row.cells@, *ctx) < usize::MAX,
        ensures
            final(html)@ == old(html)@ + spec_row_html(
                *t,
                *row,
                row_idx as int,
                *ctx,
                font_scheme,
                old(coll).current_slide_index as int,
                old(coll).asset_counter as int,
            ),
            coll_step(
                *old(coll),
                *final(coll),
                cells_assets(
                    row.cells@,
                    *ctx,
                    old(coll).current_slide_index as int,
                    old(coll).asset_counter as int,
                ),
            ),
            cells_entries_ok(
                added_entries(*old(coll), *final(coll)),
                row.cells@,
                old(coll).current_slide_index + 1,
                font_scheme,
            ),
    {
        push_row_open(html, t, row, row_idx);
        let ghost h1 = html@;
        Self::render_row_cells(t, &row.cells, ctx, font_scheme, coll, html);
        let ghost h2 = html@;
        push_str(html, "</tr>\n");
        proof {
            assert(html@ =~= old(html)@ + spec_row_html(
                *t,
                *row,
                row_idx as int,
                *ctx,
                font_scheme,
                old(coll).current_slide_index as int,
                old(coll).asset_counter as int,
            ));
        }
    }

    fn render_row_cells(
        t: &TableData,
        cells: &Vec<TableCell>,
        ctx: &RenderCtx<'_>,
        font_scheme: Option<&FontScheme>,
        coll: &mut RenderCollector,
        html: &mut String,
    )
        requires
            cells_ready(cells@),
            old(coll).current_slide_index < usize::MAX,
            old(coll).asset_counter + cells_exported(cells@, *ctx) < usize::MAX,
        ensures
            final(html)@ == old(html)@ + cells_html(
                *t,
                cells@,
                cells@.len() as int,
                *ctx,
                font_scheme,
                old(coll).current_slide_index as int,
                old(coll).asset_counter as int,
            ),
            coll_step(
                *old(coll),
                *final(coll),
                cells_assets(
                    cells@,
                    *ctx,
                    old(coll).current_slide_index as int,
                    old(coll).asset_counter as int,
                ),
            ),
            cells_entries_ok(
                added_entries(*old(coll), *final(coll)),
                cells@,
                old(coll).current_slide_index + 1,
                font_scheme,
            ),
    {
        let ghost c0 = *old(coll);
        let ghost slide = c0.current_slide_index as int;
        let ghost n = c0.asset_counter as int;
        let ghost h0 = html@;
        proof {
            lemma_coll_step_refl(c0);
            assert(cells@.take(0) =~= Seq::<TableCell>::empty());
        }
        let col_count = cells.len();
        let mut i: usize = 0;
        while i < col_count
            invariant
                i <= col_count,
                col_count == cells@.len(),
                cells_ready(cells@),
                c0.current_slide_index < usize::MAX,
                c0.asset_counter + cells_exported(cells@, *ctx) < usize::MAX,
                slide == c0.current_slide_index,
                n == c0.asset_counter,
                html@ == h0 + cells_html(
                    *t,
                    cells@.take(i as int),
                    col_count as int,
                    *ctx,
                    font_scheme,
                    slide,
                    n,
                ),
                coll_step(c0, *coll, cells_assets(cells@.take(i as int), *ctx, slide, n)),
                cells_entries_ok(added_entries(c0, *coll), cells@.take(i as int), slide + 1, font_scheme),
            decreases col_count - i,
        {
            let cell = &cells[i];
            let ghost before = *coll;
            proof {
                lemma_cells_assets_step(cells@, i as int, *ctx, slide, n);
                lemma_cells_exported_prefix(cells@, *ctx, i as int);
                lemma_cells_exported_prefix(cells@, *ctx, i as int + 1);
                lemma_cells_assets_len(cells@.take(i as int), *ctx, slide, n);
                assert(*cell == cells@[i as int]);
                let t1 = cells@.take(i as int + 1);
                assert(t1.drop_last() =~= cells@.take(i as int));
                assert(t1.last() == cells@[i as int]);
            }
            if !cell.v_merge {
                Self::render_table_cell(t, cell, i, col_count, ctx, font_scheme, coll, html);
                proof {
                    lemma_coll_step_trans(
                        c0,
                        before,
                        *coll,
                        cells_assets(cells@.take(i as int), *ctx, slide, n),
                        cell_assets(
                            *cell,
                            *ctx,
                            slide,
                            n + cells_exported(cells@.take(i as int), *ctx),
                        ),
                    );
                    lemma_cells_entries_step(
                        added_entries(c0, before),
                        added_entries(before, *coll),
                        cells@,
                        i as int,
                        slide + 1,
                        font_scheme,
                    );
                }
            } else {
                proof {
                    lemma_coll_step_refl(before);
                    assert(cell_assets(*cell, *ctx, slide, n + cells_exported(cells@.take(i as int), *ctx))
                        =~= Seq::empty());
                    assert(cells_assets(cells@.take(i as int), *ctx, slide, n) + Seq::empty()
                        =~= cells_assets(cells@.take(i as int), *ctx, slide, n));
                    assert(added_entries(c0, before) + added_entries(before, before)
                        =~= added_entries(c0, before));
                    lemma_cells_entries_step(
                        added_entries(c0, before),
                        added_entries(before, before),
                        cells@,
                        i as int,
                        slide + 1,
                        font_scheme,
                    );
                }
            }
            i = i + 1;
        }
        proof {
            assert(cells@.take(col_count as int) =~= cells@);
        }
    }

    fn render_table_cell(
        t: &TableData,
        cell: &TableCell,
        col: usize,
        col_count: usize,
        ctx: &RenderCtx<'_>,
        font_scheme: Option<&FontScheme>,
        coll: &mut RenderCollector,
        html: &mut String,
    )
        requires
            col < col_count,
            !cell.v_merge,
            fill_css_ready(cell.fill, *old(coll)),
            old(coll).current_slide_index < usize::MAX,
            paragraphs_bullets_fit(cell_paragraphs(*cell)),
        ensures
            final(html)@ == old(html)@ + spec_cell_html(
                *t,
                *cell,
                col as int,
                col_count as int,
                *ctx,
                font_scheme,
                asset_path_at(cell.fill, old(coll).current_slide_index as int, old(coll).asset_counter as int),
            ),
            coll_step(
                *old(coll),
                *final(coll),
                cell_assets(
                    *cell,
                    *ctx,
                    old(coll).current_slide_index as int,
                    old(coll).asset_counter as int,
                ),
            ),
            paragraphs_entries_ok(
                added_entries(*old(coll), *final(coll)),
                cell_paragraphs(*cell),
                old(coll).current_slide_index + 1,
                font_scheme,
            ),
    {
        let ghost c0 = *old(coll);
        let style = cell_style(t, cell, col, col_count, ctx, coll);
        let ghost c1 = *coll;
        proof {
            lemma_fill_step(*cell, *ctx, c0, c1);
        }
        push_cell_open(html, cell, style.as_str());
        Self::render_cell_paragraphs(cell, ctx, font_scheme, coll, html);
        push_str(html, "</td>\n");
        proof {
            lemma_step_then_fonts(
                c0,
                c1,
                *coll,
                cell_assets(*cell, *ctx, c0.current_slide_index as int, c0.asset_counter as int),
            );
            assert(html@ =~= old(html)@ + spec_cell_html(
                *t,
                *cell,
                col as int,
                col_count as int,
                *ctx,
                font_scheme,
                asset_path_at(cell.fill, c0.current_slide_index as int, c0.asset_counter as int),
            ));
        }
    }

    fn render_cell_paragraphs(
        cell: &TableCell,
        ctx: &RenderCtx<'_>,
        font_scheme: Option<&FontScheme>,
        coll: &mut RenderCollector,
        html: &mut String,
    )
        requires
            old(coll).current_slide_index < usize::MAX,
            paragraphs_bullets_fit(cell_paragraphs(*cell)),
        ensures
            final(html)@ == old(html)@ + paragraphs_html(*ctx, cell_paragraphs(*cell), font_scheme),
            same_but_fonts(*old(coll), *final(coll)),
            old(coll).font_resolution_entries@.len() <= final(coll).font_resolution_entries@.len(),
            final(coll).font_resolution_entries@.subrange(
                0,
                old(coll).font_resolution_entries@.len() as int,
            ) == old(coll).font_resolution_entries@,
            paragraphs_entries_ok(
                added_entries(*old(coll), *final(coll)),
                cell_paragraphs(*cell),
                old(coll).current_slide_index + 1,
                font_scheme,
            ),
    {
        match &cell.text_body {
            Some(tb) => {
                Self::render_paragraphs(&tb.paragraphs, ctx, font_scheme, coll, html);
            },
            None => {
                proof {
                    let e = coll.font_resolution_entries@;
                    assert(e.subrange(e.len() as int, e.len() as int) =~= Seq::<
                        FontResolutionEntry,
                    >::empty());
                    assert(e.subrange(0, e.len() as int) =~= e);
                    assert(html@ =~= old(html)@ + paragraphs_html(
                        *ctx,
                        cell_paragraphs(*cell),
                        font_scheme,
                    ));
                }
            },
        }
    }

}
} // verus!
