use vstd::prelude::*;
use crate::comfy::{
    add_cell, add_rows, cell_value, enforce_styling, load_preset, new_cell, new_row, new_table,
    preset_chars, row_cells, row_from_cells, row_max_height, row_value, set_dynamic_arrangement,
    set_header, set_max_height, table_arrangement_dynamic, table_header, table_rows,
    table_style, table_styling_enforced, with_foreground,
};
use crate::table_builder::{cell_view, cell_views, views, CellModel, RowModel, TableModel};
use crate::task::StatusColor;
use comfy_table::{Cell, Row, Table};

verus! {

/// A row of the status table as its height limit and its cells.
pub open spec fn row_model_value(r: RowModel) -> (Option<usize>, Seq<(Seq<char>, Option<StatusColor>)>) {
    (r.max_height, cell_views(r.cells@))
}

/// The header cells of the status table: its column names, without colour.
pub open spec fn header_value(header: Seq<String>) -> Seq<(Seq<char>, Option<StatusColor>)> {
    views(header).map_values(|name: Seq<char>| (name, None::<StatusColor>))
}

/// The `comfy_table` table `t` shows the status table `m`: the same border style,
/// header, rows and cells, dynamic content arrangement, and styling enforced where `m`
/// asks for it.
pub open spec fn table_shows(t: Table, m: TableModel) -> bool {
    &&& table_style(t) == preset_chars(m.preset)
    &&& table_header(t) == Some(header_value(m.header@))
    &&& table_rows(t) == m.rows@.map_values(|r: RowModel| row_model_value(r))
    &&& table_arrangement_dynamic(t)
    &&& table_styling_enforced(t) == m.enforce_styling
}

/// The `comfy_table` cell of a cell of the status table: the same text and colour.
fn render_cell(cell: &CellModel) -> (r: Cell)
    ensures
        cell_value(r) == cell_view(*cell),
{
    let rendered = new_cell(cell.text.as_str());
    match cell.color {
        Some(color) => with_foreground(rendered, color),
        None => rendered,
    }
}

/// The `comfy_table` row of a row of the status table: the same height limit and cells.
fn render_row(row: &RowModel) -> (r: Row)
    ensures
        row_value(r) == row_model_value(*row),
{
    let mut rendered = new_row();
    if let Some(lines) = row.max_height {
        set_max_height(&mut rendered, lines);
    }
    let mut i: usize = 0;
    while i < row.cells.len()
        invariant
            i <= row.cells@.len(),
            row_max_height(rendered) == row.max_height,
            row_cells(rendered) == cell_views(row.cells@.take(i as int)),
        decreases row.cells@.len() - i,
    {
        add_cell(&mut rendered, render_cell(&row.cells[i]));
        assert(cell_views(row.cells@.take(i + 1)) =~= cell_views(row.cells@.take(i as int)).push(
            cell_view(row.cells@[i as int]),
        ));
        i = i + 1;
    }
    assert(row.cells@.take(row.cells@.len() as int) == row.cells@);
    rendered
}

/// Hands the status table to `comfy_table`: border style, dynamic arrangement, header,
/// rows, and styling enforced where asked.
pub fn render_table(model: &TableModel) -> (t: Table)
    ensures
        table_shows(t, *model),
{
    let mut table = new_table();
    load_preset(&mut table, model.preset);
    let mut header_cells: Vec<Cell> = Vec::new();
    let mut i: usize = 0;
    while i < model.header.len()
        invariant
            i <= model.header@.len(),
            header_cells@.map_values(|c: Cell| cell_value(c)) == header_value(
                model.header@.take(i as int),
            ),
        decreases model.header@.len() - i,
    {
        let ghost before = header_cells@;
        header_cells.push(new_cell(model.header[i].as_str()));
        assert(header_cells@.map_values(|c: Cell| cell_value(c)) =~= before.map_values(
            |c: Cell| cell_value(c),
        ).push((model.header@[i as int]@, None::<StatusColor>)));
        assert(header_value(model.header@.take(i + 1)) =~= header_value(
            model.header@.take(i as int),
        ).push((model.header@[i as int]@, None::<StatusColor>)));
        i = i + 1;
    }
    assert(model.header@.take(model.header@.len() as int) == model.header@);
    let mut rows: Vec<Row> = Vec::new();
    let mut j: usize = 0;
    while j < model.rows.len()
        invariant
            j <= model.rows@.len(),
            rows@.map_values(|r: Row| row_value(r)) == model.rows@.take(j as int).map_values(
                |r: RowModel| row_model_value(r),
            ),
        decreases model.rows@.len() - j,
    {
        let ghost before = rows@;
        rows.push(render_row(&model.rows[j]));
        assert(rows@.map_values(|r: Row| row_value(r)) =~= before.map_values(|r: Row| row_value(r)).push(
            row_model_value(model.rows@[j as int]),
        ));
        assert(model.rows@.take(j + 1).map_values(|r: RowModel| row_model_value(r))
            =~= model.rows@.take(j as int).map_values(|r: RowModel| row_model_value(r)).push(
            row_model_value(model.rows@[j as int]),
        ));
        j = j + 1;
    }
    assert(model.rows@.take(model.rows@.len() as int) == model.rows@);
    set_dynamic_arrangement(&mut table);
    set_header(&mut table, row_from_cells(header_cells));
    add_rows(&mut table, rows);
    if model.enforce_styling {
        enforce_styling(&mut table);
    }
    assert(table_rows(table) =~= model.rows@.map_values(|r: RowModel| row_model_value(r)));
    table
}

} // verus!
