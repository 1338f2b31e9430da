//! Tables: rows of cells, column widths and the table-style flags.
use vstd::prelude::*;

use super::fill::{Border, Fill};
use super::shape::{TextBody, VerticalAlign};

verus! {

/// A table cell. Margins are in EMU; `v_merge` marks a cell covered by a vertical
/// merge from the row above.
#[derive(Debug, Clone, PartialEq, Eq, Default)]
pub struct TableCell {
    pub text_body: Option<TextBody>,
    pub fill: Fill,
    pub border_left: Border,
    pub border_right: Border,
    pub border_top: Border,
    pub border_bottom: Border,
    pub col_span: u32,
    pub row_span: u32,
    pub v_merge: bool,
    pub margin_left: i64,
    pub margin_right: i64,
    pub margin_top: i64,
    pub margin_bottom: i64,
    pub vertical_align: VerticalAlign,
}

/// A table row; `height` in EMU.
#[derive(Debug, Clone, PartialEq, Eq, Default)]
pub struct TableRow {
    pub height: i64,
    pub cells: Vec<TableCell>,
}

/// A table: its rows, the widths of its columns (EMU) and which table-style parts
/// apply (banded rows and columns, emphasised first and last rows and columns).
#[derive(Debug, Clone, PartialEq, Eq, Default)]
pub struct TableData {
    pub rows: Vec<TableRow>,
    pub col_widths: Vec<i64>,
    pub band_row: bool,
    pub band_col: bool,
    pub first_row: bool,
    pub last_row: bool,
    pub first_col: bool,
    pub last_col: bool,
}

} // verus!
