use vstd::prelude::*;
use comfy_table::presets::{NOTHING, UTF8_HORIZONTAL_ONLY};
use comfy_table::{Cell, Color, ContentArrangement, Row, Table};
use crate::task::StatusColor;
use crate::table_builder::TablePreset;

verus! {

/// `comfy_table::Table`, a table that renders itself as text.
#[verifier::external_type_specification]
#[verifier::external_body]
pub struct ExTable(Table);

/// `comfy_table::Row`, a row of cells.
#[verifier::external_type_specification]
#[verifier::external_body]
pub struct ExRow(Row);

/// `comfy_table::Cell`, the content and style of one cell.
#[verifier::external_type_specification]
#[verifier::external_body]
pub struct ExCell(Cell);

/// The text of a cell, as `Cell::content` gives it: its lines joined by line feeds.
pub uninterp spec fn cell_text(c: Cell) -> Seq<char>;

/// The foreground colour of a cell, where it is set to green, white, red or yellow;
/// `None` where it is not set or set to another colour.
pub uninterp spec fn cell_foreground(c: Cell) -> Option<StatusColor>;

/// The cells of a row, in order, each as its text and foreground colour.
pub uninterp spec fn row_cells(r: Row) -> Seq<(Seq<char>, Option<StatusColor>)>;

/// The largest number of lines a row may take, where it is limited.
pub uninterp spec fn row_max_height(r: Row) -> Option<usize>;

/// The header row of a table, as its cells, where it has one.
pub uninterp spec fn table_header(t: Table) -> Option<Seq<(Seq<char>, Option<StatusColor>)>>;

/// The rows of a table, in order, each as its height limit and its cells.
pub uninterp spec fn table_rows(t: Table) -> Seq<(Option<usize>, Seq<(Seq<char>, Option<StatusColor>)>)>;

/// The border characters of a table, as `Table::current_style_as_preset` gives them.
pub uninterp spec fn table_style(t: Table) -> Seq<char>;

/// The table's content arrangement is `ContentArrangement::Dynamic`.
pub uninterp spec fn table_arrangement_dynamic(t: Table) -> bool;

/// The table is styled even when the output is not a terminal.
pub uninterp spec fn table_styling_enforced(t: Table) -> bool;

/// A cell as its text and foreground colour.
pub open spec fn cell_value(c: Cell) -> (Seq<char>, Option<StatusColor>) {
    (cell_text(c), cell_foreground(c))
}

/// A row as its height limit and its cells.
pub open spec fn row_value(r: Row) -> (Option<usize>, Seq<(Seq<char>, Option<StatusColor>)>) {
    (row_max_height(r), row_cells(r))
}

/// The border characters of a preset: `presets::UTF8_HORIZONTAL_ONLY` or `presets::NOTHING`.
pub open spec fn preset_chars(preset: TablePreset) -> Seq<char> {
    match preset {
        TablePreset::Utf8HorizontalOnly => "  ── ══  ──  ──    "@,
        TablePreset::Nothing => "                   "@,
    }
}

/// Calls `Table::new`: a table without header or rows, content arrangement `Disabled`,
/// styling not enforced.
#[verifier::external_body]
pub(crate) fn new_table() -> (t: Table)
    ensures
        table_header(t) is None,
        table_rows(t).len() == 0,
        !table_arrangement_dynamic(t),
        !table_styling_enforced(t),
{
    Table::new()
}

/// Calls `Table::load_preset` with the border characters that `preset` names:
/// `presets::UTF8_HORIZONTAL_ONLY` or `presets::NOTHING`. Both have a character for each
/// of the table's components, so that the table's style becomes the preset.
#[verifier::external_body]
pub(crate) fn load_preset(table: &mut Table, preset: TablePreset)
    ensures
        table_style(*final(table)) == preset_chars(preset),
        table_header(*final(table)) == table_header(*old(table)),
        table_rows(*final(table)) == table_rows(*old(table)),
        table_arrangement_dynamic(*final(table)) == table_arrangement_dynamic(*old(table)),
        table_styling_enforced(*final(table)) == table_styling_enforced(*old(table)),
{
    match preset {
        TablePreset::Utf8HorizontalOnly => table.load_preset(UTF8_HORIZONTAL_ONLY),
        TablePreset::Nothing => table.load_preset(NOTHING),
    };
}

/// Calls `Table::set_content_arrangement` with `ContentArrangement::Dynamic`, so that the
/// table wraps its content to the terminal's width.
#[verifier::external_body]
pub(crate) fn set_dynamic_arrangement(table: &mut Table)
    ensures
        table_arrangement_dynamic(*final(table)),
        table_style(*final(table)) == table_style(*old(table)),
        table_header(*final(table)) == table_header(*old(table)),
        table_rows(*final(table)) == table_rows(*old(table)),
        table_styling_enforced(*final(table)) == table_styling_enforced(*old(table)),
{
    table.set_content_arrangement(ContentArrangement::Dynamic);
}

/// Calls `Table::set_header` with the given row, which becomes the table's header.
#[verifier::external_body]
pub(crate) fn set_header(table: &mut Table, header: Row)
    ensures
        table_header(*final(table)) == Some(row_cells(header)),
        table_style(*final(table)) == table_style(*old(table)),
        table_rows(*final(table)) == table_rows(*old(table)),
        table_arrangement_dynamic(*final(table)) == table_arrangement_dynamic(*old(table)),
        table_styling_enforced(*final(table)) == table_styling_enforced(*old(table)),
{
    table.set_header(header);
}

/// Calls `Table::add_rows`, which appends the given rows in order.
#[verifier::external_body]
pub(crate) fn add_rows(table: &mut Table, rows: Vec<Row>)
    ensures
        table_rows(*final(table)) == table_rows(*old(table)) + rows@.map_values(
            |r: Row| row_value(r),
        ),
        table_style(*final(table)) == table_style(*old(table)),
        table_header(*final(table)) == table_header(*old(table)),
        table_arrangement_dynamic(*final(table)) == table_arrangement_dynamic(*old(table)),
        table_styling_enforced(*final(table)) == table_styling_enforced(*old(table)),
{
    table.add_rows(rows);
}

/// Calls `Table::enforce_styling`, which styles the table even when the output is not a
/// terminal.
#[verifier::external_body]
pub(crate) fn enforce_styling(table: &mut Table)
    ensures
        table_styling_enforced(*final(table)),
        table_style(*final(table)) == table_style(*old(table)),
        table_header(*final(table)) == table_header(*old(table)),
        table_rows(*final(table)) == table_rows(*old(table)),
        table_arrangement_dynamic(*final(table)) == table_arrangement_dynamic(*old(table)),
{
    table.enforce_styling();
}

/// Calls `Row::new`: a row without cells or height limit.
#[verifier::external_body]
pub(crate) fn new_row() -> (r: Row)
    ensures
        row_cells(r).len() == 0,
        row_max_height(r) is None,
{
    Row::new()
}

/// Calls `Row::from` on a list of cells: a row of those cells, without height limit.
#[verifier::external_body]
pub(crate) fn row_from_cells(cells: Vec<Cell>) -> (r: Row)
    ensures
        row_cells(r) == cells@.map_values(|c: Cell| cell_value(c)),
        row_max_height(r) is None,
{
    Row::from(cells)
}

/// Calls `Row::max_height`, which limits the row to `lines` lines.
#[verifier::external_body]
pub(crate) fn set_max_height(row: &mut Row, lines: usize)
    ensures
        row_max_height(*final(row)) == Some(lines),
        row_cells(*final(row)) == row_cells(*old(row)),
{
    row.max_height(lines);
}

/// Calls `Row::add_cell`, which appends the cell.
#[verifier::external_body]
pub(crate) fn add_cell(row: &mut Row, cell: Cell)
    ensures
        row_cells(*final(row)) == row_cells(*old(row)).push(cell_value(cell)),
        row_max_height(*final(row)) == row_max_height(*old(row)),
{
    row.add_cell(cell);
}

/// Calls `Cell::new` with the given text: a cell of that text (split into lines, which
/// `Cell::content` joins again), without colour.
#[verifier::external_body]
pub(crate) fn new_cell(text: &str) -> (c: Cell)
    ensures
        cell_text(c) == text@,
        cell_foreground(c) is None,
{
    Cell::new(text)
}

/// Calls `Cell::fg` with the `comfy_table::Color` of the same name as `color`, which
/// sets the cell's foreground colour and keeps its text.
#[verifier::external_body]
pub(crate) fn with_foreground(cell: Cell, color: StatusColor) -> (c: Cell)
    ensures
        cell_text(c) == cell_text(cell),
        cell_foreground(c) == Some(color),
{
    match color {
        StatusColor::Green => cell.fg(Color::Green),
        StatusColor::White => cell.fg(Color::White),
        StatusColor::Red => cell.fg(Color::Red),
        StatusColor::Yellow => cell.fg(Color::Yellow),
    }
}

} // verus!
