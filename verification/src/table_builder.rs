use vstd::prelude::*;
use crate::cells::{
    any_task_holds_time, cells_of, holds_shown_time, lemma_cells_without_times,
    status_times_in_range, task_cells, task_times_formattable, tasks_hold_times, TaskCells,
};
use crate::settings::{OutputStyle, Settings};
use crate::task::{StatusColor, Task, TaskStatus};
use crate::text::{flatten_lines, one_line, string_of};
use crate::time::{current_time, local_start_of_day, plain_instant, Instant, MAX_TIMESTAMP};
use crate::render::{render_table, table_shows};
use comfy_table::Table;
use crate::truncate::{lemma_truncated_fits, truncate_text, truncated};
use crate::widths::{
    allocate_variable_widths, allocation, allocation_fits, lemma_allocation_within_available,
    saturating_diff, widths_match,
    TruncationWidths, VariableColumnWidths,
};

verus! {

/// A rule of the column selection in a status query (`columns=...`).
#[derive(Clone, Copy, Debug, PartialEq, Eq, Structural)]
pub enum Rule {
    ColumnId,
    ColumnStatus,
    ColumnPriority,
    ColumnEnqueueAt,
    ColumnDependencies,
    ColumnLabel,
    ColumnCommand,
    ColumnPath,
    ColumnStart,
    ColumnEnd,
    /// Any rule of the query grammar that names no column.
    Other,
}

/// A column of the status table.
#[derive(Clone, Copy, Debug, PartialEq, Eq, Structural)]
pub enum Column {
    Id,
    Status,
    Priority,
    EnqueueAt,
    Dependencies,
    Label,
    Command,
    Path,
    Start,
    End,
}

/// The column that a rule selects, if any.
pub open spec fn rule_column(rule: Rule) -> Option<Column> {
    match rule {
        Rule::ColumnId => Some(Column::Id),
        Rule::ColumnStatus => Some(Column::Status),
        Rule::ColumnPriority => Some(Column::Priority),
        Rule::ColumnEnqueueAt => Some(Column::EnqueueAt),
        Rule::ColumnDependencies => Some(Column::Dependencies),
        Rule::ColumnLabel => Some(Column::Label),
        Rule::ColumnCommand => Some(Column::Command),
        Rule::ColumnPath => Some(Column::Path),
        Rule::ColumnStart => Some(Column::Start),
        Rule::ColumnEnd => Some(Column::End),
        Rule::Other => None,
    }
}

/// The header of a column.
pub open spec fn header_name(c: Column) -> Seq<char> {
    match c {
        Column::Id => "Id"@,
        Column::Status => "Status"@,
        Column::Priority => "Prio"@,
        Column::EnqueueAt => "Enqueue At"@,
        Column::Dependencies => "Deps"@,
        Column::Label => "Label"@,
        Column::Command => "Command"@,
        Column::Path => "Path"@,
        Column::Start => "Start"@,
        Column::End => "End"@,
    }
}

/// The text of column `col` among a task's cells.
pub open spec fn column_text(c: TaskCells, col: Column) -> Seq<char> {
    match col {
        Column::Id => c.id@,
        Column::Status => c.status@,
        Column::Priority => c.priority@,
        Column::EnqueueAt => c.enqueue_at@,
        Column::Dependencies => c.dependencies@,
        Column::Label => c.label@,
        Column::Command => c.command@,
        Column::Path => c.path@,
        Column::Start => c.start@,
        Column::End => c.end@,
    }
}

/// The text of column `col` among a task's cells.
pub fn text_of(c: &TaskCells, col: Column) -> (r: &String)
    ensures
        r@ == column_text(*c, col),
{
    match col {
        Column::Id => &c.id,
        Column::Status => &c.status,
        Column::Priority => &c.priority,
        Column::EnqueueAt => &c.enqueue_at,
        Column::Dependencies => &c.dependencies,
        Column::Label => &c.label,
        Column::Command => &c.command,
        Column::Path => &c.path,
        Column::Start => &c.start,
        Column::End => &c.end,
    }
}

/// The number of characters of the longest text of column `col`.
pub open spec fn max_text_len(cells: Seq<TaskCells>, col: Column) -> nat
    decreases cells.len(),
{
    if cells.len() == 0 {
        0
    } else {
        let rest = max_text_len(cells.drop_last(), col);
        let last = column_text(cells.last(), col).len();
        if rest >= last {
            rest
        } else {
            last
        }
    }
}

/// The width that shows the header and every text of column `col` in full.
#[verifier::opaque]
pub open spec fn content_width(cells: Seq<TaskCells>, col: Column) -> nat {
    let longest = max_text_len(cells, col);
    if header_name(col).len() >= longest {
        header_name(col).len()
    } else {
        longest
    }
}

/// The number of characters in a column's header.
pub fn header_len(col: Column) -> (r: usize)
    ensures
        r == header_name(col).len(),
{
    proof {
        reveal_strlit("Id");
        reveal_strlit("Status");
        reveal_strlit("Prio");
        reveal_strlit("Enqueue At");
        reveal_strlit("Deps");
        reveal_strlit("Label");
        reveal_strlit("Command");
        reveal_strlit("Path");
        reveal_strlit("Start");
        reveal_strlit("End");
    }
    match col {
        Column::Id => 2,
        Column::Status => 6,
        Column::Priority => 4,
        Column::EnqueueAt => 10,
        Column::Dependencies => 4,
        Column::Label => 5,
        Column::Command => 7,
        Column::Path => 4,
        Column::Start => 5,
        Column::End => 3,
    }
}

/// The width that shows the header and every text of column `col` in full.
pub fn column_content_width(cells: &[TaskCells], col: Column) -> (r: usize)
    ensures
        r == content_width(cells@, col),
{
    let mut longest: usize = 0;
    let mut i: usize = 0;
    while i < cells.len()
        invariant
            i <= cells@.len(),
            longest == max_text_len(cells@.take(i as int), col),
        decreases cells@.len() - i,
    {
        assert(cells@.take(i + 1).drop_last() == cells@.take(i as int));
        let len = text_of(&cells[i], col).as_str().unicode_len();
        if len > longest {
            longest = len;
        }
        i = i + 1;
    }
    assert(cells@.take(cells@.len() as int) == cells@);
    reveal(content_width);
    let header = header_len(col);
    if header >= longest {
        header
    } else {
        longest
    }
}

/// `flag` selects `x` into a sequence.
#[verifier::opaque]
pub open spec fn shown_if<A>(flag: bool, x: A) -> Seq<A> {
    if flag {
        seq![x]
    } else {
        Seq::empty()
    }
}

/// The headers of the shown columns, in table order.
pub open spec fn header_spec(b: TableBuilder) -> Seq<Seq<char>> {
    shown_if(b.id, header_name(Column::Id)) + shown_if(b.status, header_name(Column::Status)) + shown_if(
        b.priority,
        header_name(Column::Priority),
    ) + shown_if(b.enqueue_at, header_name(Column::EnqueueAt)) + shown_if(
        b.dependencies,
        header_name(Column::Dependencies),
    ) + shown_if(b.label, header_name(Column::Label)) + shown_if(b.command, header_name(Column::Command))
        + shown_if(b.path, header_name(Column::Path)) + shown_if(b.start, header_name(Column::Start))
        + shown_if(b.end, header_name(Column::End))
}

/// The views of a sequence of strings.
pub open spec fn views(v: Seq<String>) -> Seq<Seq<char>> {
    v.map_values(|s: String| s@)
}

/// The width of column `col` in the fixed part of the table: its content width when
/// shown, nothing otherwise.
pub open spec fn fixed_width(b: TableBuilder, cells: Seq<TaskCells>, col: Column) -> nat {
    if shows(b, col) {
        content_width(cells, col)
    } else {
        0
    }
}

/// The width of the columns that are never truncated.
pub open spec fn fixed_content_width(b: TableBuilder, cells: Seq<TaskCells>) -> nat {
    fixed_width(b, cells, Column::Id) + fixed_width(b, cells, Column::Status) + fixed_width(
        b,
        cells,
        Column::Priority,
    ) + fixed_width(b, cells, Column::EnqueueAt) + fixed_width(b, cells, Column::Dependencies)
        + fixed_width(b, cells, Column::Label) + fixed_width(b, cells, Column::Start)
        + fixed_width(b, cells, Column::End)
}

/// One if `flag` holds.
#[verifier::opaque]
pub open spec fn one_if(flag: bool) -> nat {
    if flag {
        1
    } else {
        0
    }
}

/// The number of shown columns.
pub open spec fn visible_columns(b: TableBuilder) -> nat {
    one_if(b.id) + one_if(b.status) + one_if(b.priority) + one_if(b.enqueue_at) + one_if(
        b.dependencies,
    ) + one_if(b.label) + one_if(b.command) + one_if(b.path) + one_if(b.start) + one_if(b.end)
}

fn visible_count(a: bool, b: bool, c: bool, d: bool, e: bool, f: bool, g: bool, h: bool, i: bool, j: bool) -> (r: usize)
    ensures
        r == one_if(a) + one_if(b) + one_if(c) + one_if(d) + one_if(e) + one_if(f) + one_if(g) + one_if(h) + one_if(i) + one_if(j),
{
    let x = count5(a, b, c, d, e);
    let y = count5(f, g, h, i, j);
    x + y
}

fn count5(a: bool, b: bool, c: bool, d: bool, e: bool) -> (r: usize)
    ensures
        r == one_if(a) + one_if(b) + one_if(c) + one_if(d) + one_if(e),
        r <= 5,
{
    let x1 = count_of(a);
    let x2 = count_of(b);
    let x3 = count_of(c);
    let x4 = count_of(d);
    let x5 = count_of(e);
    x1 + x2 + x3 + x4 + x5
}

fn count_of(flag: bool) -> (r: usize)
    ensures
        r == one_if(flag),
        r <= 1,
{
    reveal(one_if);
    if flag {
        1
    } else {
        0
    }
}

/// The bounds of a truncatable column: at least its header, at most what shows
/// everything.
pub open spec fn variable_column(b: TableBuilder, cells: Seq<TaskCells>, col: Column) -> Option<
    VariableColumnWidths,
> {
    if shows(b, col) {
        Some(
            VariableColumnWidths {
                min: header_name(col).len() as usize,
                desired: content_width(cells, col) as usize,
            },
        )
    } else {
        None
    }
}

/// The terminal width left for the command and path columns once the other columns,
/// two characters of spacing per column and three more are taken off.
pub open spec fn truncation_available(b: TableBuilder, cells: Seq<TaskCells>, width: int) -> int {
    saturating_diff(width, (fixed_content_width(b, cells) + visible_columns(b) * 2 + 3) as int)
}

/// The truncation widths of the command and path columns: none unless the table is to fit
/// a terminal of known width, else the available width shared as `allocation` says.
pub open spec fn truncation_spec(b: TableBuilder, cells: Seq<TaskCells>, terminal_width: Option<
    u16,
>) -> (Option<int>, Option<int>) {
    match terminal_width {
        Some(w) if b.truncate_to_terminal_width => allocation(
            truncation_available(b, cells, w as int),
            variable_column(b, cells, Column::Command),
            variable_column(b, cells, Column::Path),
        ),
        _ => (None, None),
    }
}

/// The arithmetic of `get_truncation_widths` stays within `usize`.
pub open spec fn truncation_fits(b: TableBuilder, cells: Seq<TaskCells>, terminal_width: Option<
    u16,
>) -> bool {
    match terminal_width {
        Some(w) if b.truncate_to_terminal_width => {
            &&& fixed_content_width(b, cells) + visible_columns(b) * 2 + 3 <= usize::MAX
            &&& allocation_fits(
                truncation_available(b, cells, w as int),
                variable_column(b, cells, Column::Command),
                variable_column(b, cells, Column::Path),
            )
        },
        _ => true,
    }
}

/// A cell of the status table: its text, and its colour where styling is on.
pub struct CellModel {
    pub text: String,
    pub color: Option<StatusColor>,
}

/// A row of the status table.
pub struct RowModel {
    /// The largest number of lines the row may take.
    pub max_height: Option<usize>,
    pub cells: Vec<CellModel>,
}

/// The border style of the table.
#[derive(Clone, Copy, Debug, PartialEq, Eq, Structural)]
pub enum TablePreset {
    /// Horizontal lines between the rows.
    Utf8HorizontalOnly,
    /// No lines at all.
    Nothing,
}

/// The whole status table, before it is handed to `comfy_table`.
pub struct TableModel {
    pub preset: TablePreset,
    pub header: Vec<String>,
    pub rows: Vec<RowModel>,
    /// Style the table even when the output is not a terminal.
    pub enforce_styling: bool,
}

/// A cell as text and colour.
pub open spec fn cell_view(c: CellModel) -> (Seq<char>, Option<StatusColor>) {
    (c.text@, c.color)
}

/// The cells of a row as texts and colours.
pub open spec fn cell_views(cells: Seq<CellModel>) -> Seq<(Seq<char>, Option<StatusColor>)> {
    cells.map_values(|c: CellModel| cell_view(c))
}

/// A plain cell.
pub open spec fn plain(text: Seq<char>) -> (Seq<char>, Option<StatusColor>) {
    (text, None)
}

/// The command as its cell shows it: on one line in a compact table (one without row
/// separators), as it is otherwise.
pub open spec fn command_cell(b: TableBuilder, command: Seq<char>) -> Seq<char> {
    if b.show_row_separators {
        command
    } else {
        one_line(command)
    }
}

/// The cells of a task's row: the shown columns in table order; the status coloured when
/// styling is on; the command (on one line in a compact table) and path truncated to
/// their widths.
pub open spec fn row_spec(b: TableBuilder, c: TaskCells, w: TruncationWidths) -> Seq<
    (Seq<char>, Option<StatusColor>),
> {
    shown_if(b.id, plain(c.id@)) + shown_if(
        b.status,
        (
            c.status@,
            if b.style.enabled {
                Some(c.status_color)
            } else {
                None
            },
        ),
    ) + shown_if(b.priority, plain(c.priority@)) + shown_if(b.enqueue_at, plain(c.enqueue_at@)) + shown_if(
        b.dependencies,
        plain(c.dependencies@),
    ) + shown_if(b.label, plain(c.label@)) + shown_if(b.command, plain(truncated(command_cell(b, c.command@), w.command)))
        + shown_if(b.path, plain(truncated(c.path@, w.path))) + shown_if(b.start, plain(c.start@)) + shown_if(
        b.end,
        plain(c.end@),
    )
}

/// `row` is the table row of a task with the cells `c`.
pub open spec fn row_of(row: RowModel, b: TableBuilder, c: TaskCells, w: TruncationWidths) -> bool {
    &&& row.max_height == b.settings.client.max_status_lines
    &&& cell_views(row.cells@) == row_spec(b, c, w)
}

fn push_header(header: &mut Vec<String>, flag: bool, col: Column)
    ensures
        views(final(header)@) == views(old(header)@) + shown_if(flag, header_name(col)),
{
    reveal(shown_if);
    let ghost before = header@;
    if flag {
        let name = match col {
            Column::Id => String::from_str("Id"),
            Column::Status => String::from_str("Status"),
            Column::Priority => String::from_str("Prio"),
            Column::EnqueueAt => String::from_str("Enqueue At"),
            Column::Dependencies => String::from_str("Deps"),
            Column::Label => String::from_str("Label"),
            Column::Command => String::from_str("Command"),
            Column::Path => String::from_str("Path"),
            Column::Start => String::from_str("Start"),
            Column::End => String::from_str("End"),
        };
        header.push(name);
    }
    assert(views(header@) =~= views(before) + shown_if(flag, header_name(col)));
}

fn push_cell(cells: &mut Vec<CellModel>, flag: bool, text: String, color: Option<StatusColor>)
    ensures
        cell_views(final(cells)@) == cell_views(old(cells)@) + shown_if(flag, (text@, color)),
{
    reveal(shown_if);
    let ghost before = cells@;
    if flag {
        cells.push(CellModel { text, color });
    }
    assert(cell_views(cells@) =~= cell_views(before) + shown_if(flag, (text@, color)));
}

/// Decides which table columns are shown and builds the status table from a list of tasks.
pub struct TableBuilder<'a> {
    pub settings: &'a Settings,
    pub style: &'a OutputStyle,
    pub show_row_separators: bool,
    pub truncate_to_terminal_width: bool,
    /// The user chose the columns, so no column is shown or hidden by what the tasks hold.
    pub selected_columns: bool,
    pub id: bool,
    pub status: bool,
    pub priority: bool,
    pub enqueue_at: bool,
    pub dependencies: bool,
    pub label: bool,
    pub command: bool,
    pub path: bool,
    pub start: bool,
    pub end: bool,
}

/// Whether the builder shows column `c`.
pub open spec fn shows(b: TableBuilder, c: Column) -> bool {
    match c {
        Column::Id => b.id,
        Column::Status => b.status,
        Column::Priority => b.priority,
        Column::EnqueueAt => b.enqueue_at,
        Column::Dependencies => b.dependencies,
        Column::Label => b.label,
        Column::Command => b.command,
        Column::Path => b.path,
        Column::Start => b.start,
        Column::End => b.end,
    }
}

/// The task is stashed until a given time.
pub open spec fn is_delayed(t: Task) -> bool {
    t.status matches TaskStatus::Stashed { enqueue_at: Some(_) }
}

/// Some task has a priority other than zero.
pub open spec fn any_priority(tasks: Seq<Task>) -> bool {
    exists|i: int| 0 <= i < tasks.len() && #[trigger] tasks[i].priority != 0
}

/// Some task is stashed until a given time.
pub open spec fn any_delayed(tasks: Seq<Task>) -> bool {
    exists|i: int| 0 <= i < tasks.len() && is_delayed(#[trigger] tasks[i])
}

/// Some task depends on other tasks.
pub open spec fn any_dependencies(tasks: Seq<Task>) -> bool {
    exists|i: int| 0 <= i < tasks.len() && #[trigger] tasks[i].dependencies@.len() > 0
}

/// Some task has a label.
pub open spec fn any_label(tasks: Seq<Task>) -> bool {
    exists|i: int| 0 <= i < tasks.len() && #[trigger] tasks[i].label is Some
}

fn has_priority(tasks: &[Task]) -> (r: bool)
    ensures
        r == any_priority(tasks@),
{
    let mut i: usize = 0;
    while i < tasks.len()
        invariant
            i <= tasks@.len(),
            forall|j: int| 0 <= j < i ==> #[trigger] tasks@[j].priority == 0,
        decreases tasks@.len() - i,
    {
        if tasks[i].priority != 0 {
            return true;
        }
        i = i + 1;
    }
    false
}

fn has_delayed(tasks: &[Task]) -> (r: bool)
    ensures
        r == any_delayed(tasks@),
{
    let mut i: usize = 0;
    while i < tasks.len()
        invariant
            i <= tasks@.len(),
            forall|j: int| 0 <= j < i ==> !is_delayed(#[trigger] tasks@[j]),
        decreases tasks@.len() - i,
    {
        if let TaskStatus::Stashed { enqueue_at: Some(_) } = &tasks[i].status {
            return true;
        }
        i = i + 1;
    }
    false
}

fn has_dependencies(tasks: &[Task]) -> (r: bool)
    ensures
        r == any_dependencies(tasks@),
{
    let mut i: usize = 0;
    while i < tasks.len()
        invariant
            i <= tasks@.len(),
            forall|j: int| 0 <= j < i ==> #[trigger] tasks@[j].dependencies@.len() == 0,
        decreases tasks@.len() - i,
    {
        if tasks[i].dependencies.len() > 0 {
            return true;
        }
        i = i + 1;
    }
    false
}

fn has_label(tasks: &[Task]) -> (r: bool)
    ensures
        r == any_label(tasks@),
{
    let mut i: usize = 0;
    while i < tasks.len()
        invariant
            i <= tasks@.len(),
            forall|j: int| 0 <= j < i ==> #[trigger] tasks@[j].label is None,
        decreases tasks@.len() - i,
    {
        if tasks[i].label.is_some() {
            return true;
        }
        i = i + 1;
    }
    false
}

impl<'a> TableBuilder<'a> {
    /// A builder that shows the id, status, command, path, start and end columns.
    pub fn new(
        settings: &'a Settings,
        style: &'a OutputStyle,
        show_row_separators: bool,
        truncate_to_terminal_width: bool,
    ) -> (r: Self)
        ensures
            r.settings == settings,
            r.style == style,
            r.show_row_separators == show_row_separators,
            r.truncate_to_terminal_width == truncate_to_terminal_width,
            !r.selected_columns,
            r.id && r.status && r.command && r.path && r.start && r.end,
            !r.priority && !r.enqueue_at && !r.dependencies && !r.label,
    {
        TableBuilder {
            settings,
            style,
            show_row_separators,
            truncate_to_terminal_width,
            selected_columns: false,
            id: true,
            status: true,
            priority: false,
            enqueue_at: false,
            dependencies: false,
            label: false,
            command: true,
            path: true,
            start: true,
            end: true,
        }
    }

    /// Shows the columns that are hidden by default once some task has data for them:
    /// priority, enqueue time, dependencies and label. Nothing changes when the user
    /// chose the columns.
    pub fn determine_special_columns(&mut self, tasks: &[Task])
        ensures
            *final(self) == with_special_columns(*old(self), tasks@),
    {
        if self.selected_columns {
            return;
        }
        let priority = has_priority(tasks);
        let delayed = has_delayed(tasks);
        let dependencies = has_dependencies(tasks);
        let label = has_label(tasks);
        if priority {
            self.priority = true;
        }
        if delayed {
            self.enqueue_at = true;
        }
        if dependencies {
            self.dependencies = true;
        }
        if label {
            self.label = true;
        }
    }

    /// Shows exactly the columns that the given column-selection rules name, and keeps
    /// the tasks from changing that choice. Without rules nothing changes.
    pub fn set_visibility_by_rules(&mut self, rules: &[Rule])
        ensures
            final(self).settings == old(self).settings,
            final(self).style == old(self).style,
            final(self).show_row_separators == old(self).show_row_separators,
            final(self).truncate_to_terminal_width == old(self).truncate_to_terminal_width,
            rules@.len() == 0 ==> *final(self) == *old(self),
            rules@.len() > 0 ==> final(self).selected_columns,
            rules@.len() > 0 ==> forall|c: Column|
                shows(*final(self), c) <==> exists|i: int|
                    0 <= i < rules@.len() && rule_column(#[trigger] rules@[i]) == Some(c),
    {
        if rules.len() == 0 {
            return;
        }
        self.id = false;
        self.status = false;
        self.priority = false;
        self.enqueue_at = false;
        self.dependencies = false;
        self.label = false;
        self.command = false;
        self.path = false;
        self.start = false;
        self.end = false;
        self.selected_columns = true;

        let mut i: usize = 0;
        while i < rules.len()
            invariant
                i <= rules@.len(),
                self.settings == old(self).settings,
                self.style == old(self).style,
                self.show_row_separators == old(self).show_row_separators,
                self.truncate_to_terminal_width == old(self).truncate_to_terminal_width,
                self.selected_columns,
                forall|c: Column|
                    shows(*self, c) <==> exists|j: int|
                        0 <= j < i && rule_column(#[trigger] rules@[j]) == Some(c),
            decreases rules@.len() - i,
        {
            let ghost before = *self;
            match rules[i] {
                Rule::ColumnId => self.id = true,
                Rule::ColumnStatus => self.status = true,
                Rule::ColumnPriority => self.priority = true,
                Rule::ColumnEnqueueAt => self.enqueue_at = true,
                Rule::ColumnDependencies => self.dependencies = true,
                Rule::ColumnLabel => self.label = true,
                Rule::ColumnCommand => self.command = true,
                Rule::ColumnPath => self.path = true,
                Rule::ColumnStart => self.start = true,
                Rule::ColumnEnd => self.end = true,
                Rule::Other => {},
            }
            proof {
                assert forall|c: Column|
                    shows(*self, c) <==> exists|j: int|
                        0 <= j < i + 1 && rule_column(#[trigger] rules@[j]) == Some(c) by {
                    assert(shows(*self, c) == (shows(before, c) || rule_column(rules@[i as int]) == Some(c)));
                    if shows(before, c) {
                        let j = choose|j: int| 0 <= j < i && rule_column(#[trigger] rules@[j]) == Some(c);
                        assert(0 <= j < i + 1 && rule_column(rules@[j]) == Some(c));
                    }
                    if rule_column(rules@[i as int]) == Some(c) {
                        assert(shows(*self, c));
                    }
                }
            }
            i = i + 1;
        }
    }
}

impl<'a> TableBuilder<'a> {
    /// The header row: the names of the shown columns, in table order.
    pub fn build_header(&self) -> (r: Vec<String>)
        ensures
            views(r@) == header_spec(*self),
    {
        let mut header: Vec<String> = Vec::new();
        push_header(&mut header, self.id, Column::Id);
        push_header(&mut header, self.status, Column::Status);
        push_header(&mut header, self.priority, Column::Priority);
        push_header(&mut header, self.enqueue_at, Column::EnqueueAt);
        push_header(&mut header, self.dependencies, Column::Dependencies);
        push_header(&mut header, self.label, Column::Label);
        push_header(&mut header, self.command, Column::Command);
        push_header(&mut header, self.path, Column::Path);
        push_header(&mut header, self.start, Column::Start);
        push_header(&mut header, self.end, Column::End);
        assert(views(header@) =~= header_spec(*self));
        header
    }

    /// The width that column `col` takes in the fixed part of the table.
    fn fixed_column_width(&self, cells: &[TaskCells], col: Column) -> (r: usize)
        ensures
            r == fixed_width(*self, cells@, col),
    {
        let shown = match col {
            Column::Id => self.id,
            Column::Status => self.status,
            Column::Priority => self.priority,
            Column::EnqueueAt => self.enqueue_at,
            Column::Dependencies => self.dependencies,
            Column::Label => self.label,
            Column::Command => self.command,
            Column::Path => self.path,
            Column::Start => self.start,
            Column::End => self.end,
        };
        if shown {
            column_content_width(cells, col)
        } else {
            0
        }
    }

    /// The width of the columns that are never truncated, plus the spacing of all shown
    /// columns; `None` when that does not fit in `usize`.
    #[verifier::rlimit(40)]
    fn fixed_total(&self, cells: &[TaskCells]) -> (r: Option<usize>)
        ensures
            r matches Some(x) ==> x == fixed_content_width(*self, cells@) + visible_columns(*self)
                * 2 + 3,
            r is None ==> fixed_content_width(*self, cells@) + visible_columns(*self) * 2 + 3
                > usize::MAX,
    {
        let w1 = self.fixed_column_width(cells, Column::Id) as u128;
        let w2 = self.fixed_column_width(cells, Column::Status) as u128;
        let w3 = self.fixed_column_width(cells, Column::Priority) as u128;
        let w4 = self.fixed_column_width(cells, Column::EnqueueAt) as u128;
        let w5 = self.fixed_column_width(cells, Column::Dependencies) as u128;
        let w6 = self.fixed_column_width(cells, Column::Label) as u128;
        let w7 = self.fixed_column_width(cells, Column::Start) as u128;
        let w8 = self.fixed_column_width(cells, Column::End) as u128;
        let visible = self.visible_column_count() as u128;
        let total: u128 = w1 + w2 + w3 + w4 + w5 + w6 + w7 + w8 + visible * 2 + 3;
        if total > usize::MAX as u128 {
            None
        } else {
            Some(total as usize)
        }
    }

    /// The number of shown columns.
    fn visible_column_count(&self) -> (r: usize)
        ensures
            r == visible_columns(*self),
    {
        visible_count(self.id, self.status, self.priority, self.enqueue_at, self.dependencies, self.label, self.command, self.path, self.start, self.end)
    }

    /// The bounds of the truncatable column `col`, if it is shown.
    fn variable_column_widths(&self, cells: &[TaskCells], col: Column) -> (r: Option<
        VariableColumnWidths,
    >)
        requires
            col == Column::Command || col == Column::Path,
        ensures
            r == variable_column(*self, cells@, col),
    {
        let shown = if col == Column::Command {
            self.command
        } else {
            self.path
        };
        if shown {
            Some(
                VariableColumnWidths {
                    min: header_len(col),
                    desired: column_content_width(cells, col),
                },
            )
        } else {
            None
        }
    }

    /// Whether the arithmetic of `get_truncation_widths` stays within `usize`.
    pub fn truncation_fits_usize(&self, cells: &[TaskCells], terminal_width: Option<u16>) -> (r: bool)
        ensures
            r == truncation_fits(*self, cells@, terminal_width),
    {
        if !self.truncate_to_terminal_width {
            return true;
        }
        let width = match terminal_width {
            Some(w) => w as usize,
            None => {
                return true;
            },
        };
        let fixed_total = match self.fixed_total(cells) {
            Some(total) => total,
            None => {
                return false;
            },
        };
        let available = width.saturating_sub(fixed_total);
        let command = self.variable_column_widths(cells, Column::Command);
        let path = self.variable_column_widths(cells, Column::Path);
        match (command, path) {
            (Some(c), Some(p)) => {
                if c.min > usize::MAX - p.min {
                    return false;
                }
                let min_total = c.min + p.min;
                if available <= min_total {
                    return true;
                }
                if c.desired > usize::MAX - p.desired {
                    return false;
                }
                if available >= c.desired + p.desired {
                    return true;
                }
                let command_demand = c.desired.saturating_sub(c.min);
                let extra = available - min_total;
                assert((extra as u128) * (command_demand as u128) <= u128::MAX) by (nonlinear_arith)
                    requires
                        extra <= usize::MAX,
                        command_demand <= usize::MAX,
                        usize::MAX <= u64::MAX,
                ;
                (extra as u128) * (command_demand as u128) <= usize::MAX as u128
            },
            _ => true,
        }
    }

    /// How far the command and path columns are truncated so that the table fits a
    /// terminal of `terminal_width` columns. Nothing is truncated unless the builder was
    /// asked to fit the terminal and the terminal's width is known.
    pub fn get_truncation_widths(&self, cells: &[TaskCells], terminal_width: Option<u16>) -> (r:
        TruncationWidths)
        requires
            truncation_fits(*self, cells@, terminal_width),
        ensures
            widths_match(r, truncation_spec(*self, cells@, terminal_width)),
    {
        if !self.truncate_to_terminal_width {
            return TruncationWidths::none();
        }
        let width = match terminal_width {
            Some(w) => w as usize,
            None => {
                return TruncationWidths::none();
            },
        };
        let fixed_total = match self.fixed_total(cells) {
            Some(total) => total,
            None => {
                return TruncationWidths::none();
            },
        };
        let available = width.saturating_sub(fixed_total);
        let command = self.variable_column_widths(cells, Column::Command);
        let path = self.variable_column_widths(cells, Column::Path);
        allocate_variable_widths(available, command, path)
    }

    /// The row of a task with the cells `c`.
    pub fn build_row(&self, c: &TaskCells, truncation: TruncationWidths) -> (r: RowModel)
        ensures
            row_of(r, *self, *c, truncation),
    {
        let mut cells: Vec<CellModel> = Vec::new();
        push_cell(&mut cells, self.id, string_of(c.id.as_str()), None);
        let color = if self.style.enabled {
            Some(c.status_color)
        } else {
            None
        };
        push_cell(&mut cells, self.status, string_of(c.status.as_str()), color);
        push_cell(&mut cells, self.priority, string_of(c.priority.as_str()), None);
        push_cell(&mut cells, self.enqueue_at, string_of(c.enqueue_at.as_str()), None);
        push_cell(&mut cells, self.dependencies, string_of(c.dependencies.as_str()), None);
        push_cell(&mut cells, self.label, string_of(c.label.as_str()), None);
        let command = if self.show_row_separators {
            string_of(c.command.as_str())
        } else {
            flatten_lines(c.command.as_str())
        };
        push_cell(&mut cells, self.command, truncate_text(command.as_str(), truncation.command), None);
        push_cell(&mut cells, self.path, truncate_text(c.path.as_str(), truncation.path), None);
        push_cell(&mut cells, self.start, string_of(c.start.as_str()), None);
        push_cell(&mut cells, self.end, string_of(c.end.as_str()), None);
        assert(cell_views(cells@) =~= row_spec(*self, *c, truncation));
        RowModel { max_height: self.settings.client.max_status_lines, cells }
    }

    /// The rows of the tasks with the cells `cells`, one per task, in order.
    pub fn build_task_rows(&self, cells: &[TaskCells], truncation: TruncationWidths) -> (r: Vec<
        RowModel,
    >)
        ensures
            r@.len() == cells@.len(),
            forall|i: int| 0 <= i < r@.len() ==> row_of(#[trigger] r@[i], *self, cells@[i], truncation),
    {
        let mut rows: Vec<RowModel> = Vec::new();
        let mut i: usize = 0;
        while i < cells.len()
            invariant
                i <= cells@.len(),
                rows@.len() == i,
                forall|j: int| 0 <= j < i ==> row_of(#[trigger] rows@[j], *self, cells@[j], truncation),
            decreases cells@.len() - i,
        {
            rows.push(self.build_row(&cells[i], truncation));
            i = i + 1;
        }
        rows
    }
}

/// The builder after `determine_special_columns` looked at `tasks`.
pub open spec fn with_special_columns(b: TableBuilder, tasks: Seq<Task>) -> TableBuilder {
    if b.selected_columns {
        b
    } else {
        TableBuilder {
            priority: b.priority || any_priority(tasks),
            enqueue_at: b.enqueue_at || any_delayed(tasks),
            dependencies: b.dependencies || any_dependencies(tasks),
            label: b.label || any_label(tasks),
            ..b
        }
    }
}

/// `cells` holds the cells of `tasks`, one for each, in order.
pub open spec fn cells_for(cells: Seq<TaskCells>, tasks: Seq<Task>, settings: Settings, today_start: Instant) -> bool {
    &&& cells.len() == tasks.len()
    &&& forall|i: int|
        0 <= i < tasks.len() ==> cells_of(#[trigger] cells[i], tasks[i], settings, today_start)
}

/// `chrono` accepts the format of every time that the table shows of `tasks`.
pub open spec fn tasks_formattable(b: TableBuilder, tasks: Seq<Task>, today_start: Instant) -> bool {
    forall|i: int|
        0 <= i < tasks.len() ==> task_times_formattable(#[trigger] tasks[i], *b.settings, today_start)
}

/// `chrono` accepts the format of every time that the table shows of `tasks`, and the
/// column widths of the cells those tasks can have fit in `usize`.
pub open spec fn model_owed(
    b: TableBuilder,
    tasks: Seq<Task>,
    today_start: Instant,
    terminal_width: Option<u16>,
) -> bool {
    &&& tasks_formattable(b, tasks, today_start)
    &&& forall|cells: Seq<TaskCells>|
        cells_for(cells, tasks, *b.settings, today_start) ==> #[trigger] truncation_fits(
            with_special_columns(b, tasks),
            cells,
            terminal_width,
        )
}

/// `m` is the status table that the builder `b` makes of `tasks` at the start of the day
/// `today_start` for a terminal of `terminal_width` columns: the builder first looks at
/// the tasks for the columns that are shown only when some task needs them; each task
/// gets one row, built from its cells, truncated as `truncation_spec` says.
pub open spec fn model_of(
    m: TableModel,
    b: TableBuilder,
    tasks: Seq<Task>,
    today_start: Instant,
    terminal_width: Option<u16>,
) -> bool {
    let b2 = with_special_columns(b, tasks);
    &&& m.preset == (if b.show_row_separators {
        TablePreset::Utf8HorizontalOnly
    } else {
        TablePreset::Nothing
    })
    &&& m.enforce_styling == b.style.enabled
    &&& views(m.header@) == header_spec(b2)
    &&& m.rows@.len() == tasks.len()
    &&& exists|cells: Seq<TaskCells>, w: TruncationWidths|
        {
            &&& cells_for(cells, tasks, *b.settings, today_start)
            &&& truncation_fits(b2, cells, terminal_width)
            &&& widths_match(w, truncation_spec(b2, cells, terminal_width))
            &&& forall|i: int| 0 <= i < tasks.len() ==> row_of(#[trigger] m.rows@[i], b2, cells[i], w)
        }
}

impl<'a> TableBuilder<'a> {
    /// The status table of `tasks`, at the start of the day `today_start`, for a terminal
    /// of `terminal_width` columns. `None` when `chrono` refuses a configured time format,
    /// or when the widths of the columns do not fit in `usize`.
    pub fn build_model(self, tasks: &[Task], today_start: Instant, terminal_width: Option<u16>) -> (r: Option<
        TableModel,
    >)
        requires
            plain_instant(today_start),
            today_start.secs + 86_400 <= MAX_TIMESTAMP,
            forall|i: int| 0 <= i < tasks@.len() ==> status_times_in_range(#[trigger] tasks@[i].status),
        ensures
            r matches Some(m) ==> model_of(m, self, tasks@, today_start, terminal_width),
            r is Some ==> tasks_formattable(self, tasks@, today_start),
            model_owed(self, tasks@, today_start, terminal_width) ==> r is Some,
    {
        let ghost original = self;
        let mut builder = self;
        builder.determine_special_columns(tasks);
        assert(builder == with_special_columns(original, tasks@));

        let mut cells: Vec<TaskCells> = Vec::new();
        let mut i: usize = 0;
        while i < tasks.len()
            invariant
                i <= tasks@.len(),
                cells@.len() == i,
                plain_instant(today_start),
                today_start.secs + 86_400 <= MAX_TIMESTAMP,
                forall|j: int| 0 <= j < tasks@.len() ==> status_times_in_range(#[trigger] tasks@[j].status),
                forall|j: int| 0 <= j < i ==> cells_of(#[trigger] cells@[j], tasks@[j], *builder.settings, today_start),
                forall|j: int| 0 <= j < i ==> task_times_formattable(#[trigger] tasks@[j], *original.settings, today_start),
                builder == with_special_columns(original, tasks@),
                original == self,
            decreases tasks@.len() - i,
        {
            match task_cells(&tasks[i], builder.settings, today_start) {
                Some(c) => cells.push(c),
                None => {
                    assert(!task_times_formattable(tasks@[i as int], *original.settings, today_start));
                    return None;
                },
            }
            i = i + 1;
        }
        if !builder.truncation_fits_usize(cells.as_slice(), terminal_width) {
            assert(cells_for(cells@, tasks@, *original.settings, today_start));
            return None;
        }
        let truncation = builder.get_truncation_widths(cells.as_slice(), terminal_width);
        let rows = builder.build_task_rows(cells.as_slice(), truncation);
        let header = builder.build_header();
        let preset = if builder.show_row_separators {
            TablePreset::Utf8HorizontalOnly
        } else {
            TablePreset::Nothing
        };
        let m = TableModel { preset, header, rows, enforce_styling: builder.style.enabled };
        assert(model_of(m, original, tasks@, today_start, terminal_width)) by {
            assert(cells@.len() == tasks@.len());
        }
        Some(m)
    }

    /// Builds the status table of `tasks` for a terminal of `terminal_width` columns, at
    /// the start of the day `today_start`. `None` only when `chrono` refuses a configured
    /// time format that the table needs, or when the column widths do not fit in `usize`.
    pub fn build_at(self, tasks: &[Task], today_start: Instant, terminal_width: Option<u16>) -> (r: Option<
        Table,
    >)
        requires
            plain_instant(today_start),
            today_start.secs + 86_400 <= MAX_TIMESTAMP,
            forall|i: int| 0 <= i < tasks@.len() ==> status_times_in_range(#[trigger] tasks@[i].status),
        ensures
            r matches Some(t) ==> exists|m: TableModel|
                #![trigger model_of(m, self, tasks@, today_start, terminal_width)]
                model_of(m, self, tasks@, today_start, terminal_width) && table_shows(t, m),
            r is Some ==> tasks_formattable(self, tasks@, today_start),
            model_owed(self, tasks@, today_start, terminal_width) ==> r is Some,
    {
        match self.build_model(tasks, today_start, terminal_width) {
            Some(model) => {
                let table = render_table(&model);
                assert(model_of(model, self, tasks@, today_start, terminal_width));
                Some(table)
            },
            None => None,
        }
    }

    /// Builds the status table of `tasks` for a terminal of `terminal_width` columns, as
    /// of the current local day. The clock and the local time zone are consulted only
    /// when some task holds a time that the table shows. `None` when they then give no
    /// start of the current day within a day of `chrono`'s range, when `chrono` refuses a
    /// configured time format that the table needs, or when the column widths do not fit
    /// in `usize`.
    pub fn build(self, tasks: &[Task], terminal_width: Option<u16>) -> (r: Option<Table>)
        requires
            forall|i: int| 0 <= i < tasks@.len() ==> status_times_in_range(#[trigger] tasks@[i].status),
        ensures
            r matches Some(t) ==> exists|today_start: Instant, m: TableModel|
                #![trigger model_of(m, self, tasks@, today_start, terminal_width)]
                plain_instant(today_start) && model_of(m, self, tasks@, today_start, terminal_width)
                    && table_shows(t, m),
            !tasks_hold_times(tasks@) && model_owed(
                self,
                tasks@,
                Instant { secs: 0, nanos: 0 },
                terminal_width,
            ) ==> r is Some,
    {
        let today_start = if any_task_holds_time(tasks) {
            let now = match current_time() {
                Some(now) => now,
                None => {
                    return None;
                },
            };
            if now.secs > MAX_TIMESTAMP - 86_400 {
                return None;
            }
            match local_start_of_day(now) {
                Some(t) => {
                    if t.secs > MAX_TIMESTAMP - 86_400 {
                        return None;
                    }
                    t
                },
                None => {
                    return None;
                },
            }
        } else {
            Instant { secs: 0, nanos: 0 }
        };
        self.build_at(tasks, today_start, terminal_width)
    }
}

/// Law: for tasks none of which holds a time that the table shows, the start of the day
/// makes no difference: the same tables are the status table, and one is owed at either
/// day or at neither.
pub proof fn lemma_day_irrelevant_without_times(
    b: TableBuilder,
    tasks: Seq<Task>,
    t1: Instant,
    t2: Instant,
    terminal_width: Option<u16>,
    m: TableModel,
)
    requires
        !tasks_hold_times(tasks),
    ensures
        model_of(m, b, tasks, t1, terminal_width) == model_of(m, b, tasks, t2, terminal_width),
        model_owed(b, tasks, t1, terminal_width) == model_owed(b, tasks, t2, terminal_width),
{
    assert forall|cells: Seq<TaskCells>|
        cells_for(cells, tasks, *b.settings, t1) == cells_for(cells, tasks, *b.settings, t2) by {
        assert forall|i: int| 0 <= i < tasks.len() implies cells_of(
            cells[i],
            tasks[i],
            *b.settings,
            t1,
        ) == cells_of(cells[i], tasks[i], *b.settings, t2) by {
            assert(!holds_shown_time(tasks[i].status));
            lemma_cells_without_times(cells[i], tasks[i], *b.settings, t1, t2);
        }
    }
    assert(tasks_formattable(b, tasks, t1) == tasks_formattable(b, tasks, t2)) by {
        assert forall|i: int| 0 <= i < tasks.len() implies task_times_formattable(
            tasks[i],
            *b.settings,
            t1,
        ) == task_times_formattable(tasks[i], *b.settings, t2) by {
            assert(!holds_shown_time(tasks[i].status));
        }
    }
}

/// Law: every row of the status table has as many cells as the header, so that each
/// cell stands under its column's header.
pub proof fn lemma_rows_match_header(b: TableBuilder, c: TaskCells, w: TruncationWidths)
    ensures
        row_spec(b, c, w).len() == header_spec(b).len(),
{
    let color = if b.style.enabled {
        Some(c.status_color)
    } else {
        None
    };
    lemma_shown_if_len(b.id, plain(c.id@));
    lemma_shown_if_len(b.status, (c.status@, color));
    lemma_shown_if_len(b.priority, plain(c.priority@));
    lemma_shown_if_len(b.enqueue_at, plain(c.enqueue_at@));
    lemma_shown_if_len(b.dependencies, plain(c.dependencies@));
    lemma_shown_if_len(b.label, plain(c.label@));
    lemma_shown_if_len(b.command, plain(truncated(command_cell(b, c.command@), w.command)));
    lemma_shown_if_len(b.path, plain(truncated(c.path@, w.path)));
    lemma_shown_if_len(b.start, plain(c.start@));
    lemma_shown_if_len(b.end, plain(c.end@));
    lemma_shown_if_len(b.id, header_name(Column::Id));
    lemma_shown_if_len(b.status, header_name(Column::Status));
    lemma_shown_if_len(b.priority, header_name(Column::Priority));
    lemma_shown_if_len(b.enqueue_at, header_name(Column::EnqueueAt));
    lemma_shown_if_len(b.dependencies, header_name(Column::Dependencies));
    lemma_shown_if_len(b.label, header_name(Column::Label));
    lemma_shown_if_len(b.command, header_name(Column::Command));
    lemma_shown_if_len(b.path, header_name(Column::Path));
    lemma_shown_if_len(b.start, header_name(Column::Start));
    lemma_shown_if_len(b.end, header_name(Column::End));
}

proof fn lemma_shown_if_len<A>(flag: bool, x: A)
    ensures
        shown_if(flag, x).len() == one_if(flag),
{
    reveal(shown_if);
    reveal(one_if);
}

/// Law: a table that is not to fit the terminal, or whose terminal width is unknown,
/// truncates nothing; and when it does truncate, a truncated command or path has at most
/// as many characters as its truncation width.
pub proof fn lemma_truncation_only_when_fitting(
    b: TableBuilder,
    cells: Seq<TaskCells>,
    terminal_width: Option<u16>,
    c: TaskCells,
    w: TruncationWidths,
)
    requires
        widths_match(w, truncation_spec(b, cells, terminal_width)),
    ensures
        !b.truncate_to_terminal_width || terminal_width is None ==> w.command is None
            && w.path is None,
        w.command is None ==> truncated(command_cell(b, c.command@), w.command) == command_cell(
            b,
            c.command@,
        ),
        w.path is None ==> truncated(c.path@, w.path) == c.path@,
        w.command matches Some(x) ==> truncated(command_cell(b, c.command@), w.command).len() <= x,
        w.path matches Some(x) ==> truncated(c.path@, w.path).len() <= x,
{
    if let Some(x) = w.command {
        lemma_truncated_fits(command_cell(b, c.command@), x);
    }
    if let Some(x) = w.path {
        lemma_truncated_fits(c.path@, x);
    }
}

/// The width that a truncation width gives a column: none when the column is not
/// truncated or not shown.
pub open spec fn width_or_zero(w: Option<usize>) -> int {
    match w {
        Some(x) => x as int,
        None => 0,
    }
}

/// The smallest width that column `col` can take: its header's, if it is shown.
pub open spec fn min_width_if_shown(b: TableBuilder, col: Column) -> int {
    if shows(b, col) {
        header_name(col).len() as int
    } else {
        0
    }
}

/// Law: when the table is to fit a terminal of known width, and that width leaves room
/// for the other columns, the spacing and the headers of the command and path columns,
/// then the whole table, as the builder measures it, is no wider than the terminal.
pub proof fn lemma_truncated_table_fits_terminal(
    b: TableBuilder,
    cells: Seq<TaskCells>,
    width: u16,
    w: TruncationWidths,
)
    requires
        b.truncate_to_terminal_width,
        widths_match(w, truncation_spec(b, cells, Some(width))),
        content_width(cells, Column::Command) <= usize::MAX,
        content_width(cells, Column::Path) <= usize::MAX,
        fixed_content_width(b, cells) + visible_columns(b) * 2 + 3 + min_width_if_shown(
            b,
            Column::Command,
        ) + min_width_if_shown(b, Column::Path) <= width,
    ensures
        fixed_content_width(b, cells) + visible_columns(b) * 2 + 3 + width_or_zero(w.command)
            + width_or_zero(w.path) <= width,
{
    reveal(content_width);
    let command = variable_column(b, cells, Column::Command);
    let path = variable_column(b, cells, Column::Path);
    let available = truncation_available(b, cells, width as int);
    reveal_strlit("Command");
    reveal_strlit("Path");
    lemma_allocation_within_available(available, command, path);
}

/// Law: unless the user chose the columns, looking at the tasks shows the priority
/// column exactly when it was shown or some task has a priority other than zero, the
/// enqueue-at column when it was shown or some stashed task waits for a time, the
/// dependencies column when it was shown or some task depends on others, and the label
/// column when it was shown or some task has a label; nothing else changes. When the
/// user chose the columns, nothing changes at all.
pub proof fn lemma_special_columns_exact(b: TableBuilder, tasks: Seq<Task>)
    ensures
        b.selected_columns ==> with_special_columns(b, tasks) == b,
        !b.selected_columns ==> ({
            let r = with_special_columns(b, tasks);
            &&& r.priority == (b.priority || exists|i: int|
                0 <= i < tasks.len() && #[trigger] tasks[i].priority != 0)
            &&& r.enqueue_at == (b.enqueue_at || exists|i: int|
                0 <= i < tasks.len() && (#[trigger] tasks[i].status matches TaskStatus::Stashed {
                    enqueue_at: Some(_),
                }))
            &&& r.dependencies == (b.dependencies || exists|i: int|
                0 <= i < tasks.len() && #[trigger] tasks[i].dependencies@.len() != 0)
            &&& r.label == (b.label || exists|i: int|
                0 <= i < tasks.len() && #[trigger] tasks[i].label is Some)
            &&& r == TableBuilder {
                priority: r.priority,
                enqueue_at: r.enqueue_at,
                dependencies: r.dependencies,
                label: r.label,
                ..b
            }
        }),
{
}

/// Law: the header names exactly the shown columns, one name each: "Id", "Status",
/// "Prio", "Enqueue At", "Deps", "Label", "Command", "Path", "Start" and "End".
pub proof fn lemma_header_names_shown_columns(b: TableBuilder)
    ensures
        header_spec(b).contains("Id"@) == b.id,
        header_spec(b).contains("Status"@) == b.status,
        header_spec(b).contains("Prio"@) == b.priority,
        header_spec(b).contains("Enqueue At"@) == b.enqueue_at,
        header_spec(b).contains("Deps"@) == b.dependencies,
        header_spec(b).contains("Label"@) == b.label,
        header_spec(b).contains("Command"@) == b.command,
        header_spec(b).contains("Path"@) == b.path,
        header_spec(b).contains("Start"@) == b.start,
        header_spec(b).contains("End"@) == b.end,
        header_spec(b).len() == (if b.id { 1int } else { 0 }) + (if b.status { 1int } else { 0 }) + (
        if b.priority { 1int } else { 0 }) + (if b.enqueue_at { 1int } else { 0 }) + (
        if b.dependencies { 1int } else { 0 }) + (if b.label { 1int } else { 0 }) + (if b.command {
            1int
        } else {
            0
        }) + (if b.path { 1int } else { 0 }) + (if b.start { 1int } else { 0 }) + (if b.end {
            1int
        } else {
            0
        }),
{
    reveal(one_if);
    reveal_strlit("Id");
    reveal_strlit("Status");
    reveal_strlit("Prio");
    reveal_strlit("Enqueue At");
    reveal_strlit("Deps");
    reveal_strlit("Label");
    reveal_strlit("Command");
    reveal_strlit("Path");
    reveal_strlit("Start");
    reveal_strlit("End");
    assert("Id"@.len() == 2 && "End"@.len() == 3 && "Prio"@.len() == 4 && "Deps"@.len() == 4
        && "Path"@.len() == 4 && "Label"@.len() == 5 && "Start"@.len() == 5 && "Status"@.len() == 6
        && "Command"@.len() == 7 && "Enqueue At"@.len() == 10);
    assert("Prio"@[0] != "Deps"@[0] && "Prio"@[1] != "Path"@[1] && "Path"@[0] != "Deps"@[0]);
    assert("Label"@[0] != "Start"@[0]);
    lemma_header_contains(b, "Id"@);
    lemma_header_contains(b, "Status"@);
    lemma_header_contains(b, "Prio"@);
    lemma_header_contains(b, "Enqueue At"@);
    lemma_header_contains(b, "Deps"@);
    lemma_header_contains(b, "Label"@);
    lemma_header_contains(b, "Command"@);
    lemma_header_contains(b, "Path"@);
    lemma_header_contains(b, "Start"@);
    lemma_header_contains(b, "End"@);
    lemma_header_len(b);
}

proof fn lemma_shown_if_contains<A>(flag: bool, x: A, y: A)
    ensures
        shown_if(flag, x).contains(y) <==> flag && x == y,
{
    reveal(shown_if);
    if flag {
        assert(seq![x][0] == x);
    }
}

proof fn lemma_header_len(b: TableBuilder)
    ensures
        header_spec(b).len() == one_if(b.id) + one_if(b.status) + one_if(b.priority) + one_if(
            b.enqueue_at,
        ) + one_if(b.dependencies) + one_if(b.label) + one_if(b.command) + one_if(b.path) + one_if(
            b.start,
        ) + one_if(b.end),
{
    lemma_shown_if_len(b.id, header_name(Column::Id));
    lemma_shown_if_len(b.status, header_name(Column::Status));
    lemma_shown_if_len(b.priority, header_name(Column::Priority));
    lemma_shown_if_len(b.enqueue_at, header_name(Column::EnqueueAt));
    lemma_shown_if_len(b.dependencies, header_name(Column::Dependencies));
    lemma_shown_if_len(b.label, header_name(Column::Label));
    lemma_shown_if_len(b.command, header_name(Column::Command));
    lemma_shown_if_len(b.path, header_name(Column::Path));
    lemma_shown_if_len(b.start, header_name(Column::Start));
    lemma_shown_if_len(b.end, header_name(Column::End));
}

proof fn lemma_header_contains(b: TableBuilder, x: Seq<char>)
    ensures
        header_spec(b).contains(x) <==> {
            ||| b.id && x == "Id"@
            ||| b.status && x == "Status"@
            ||| b.priority && x == "Prio"@
            ||| b.enqueue_at && x == "Enqueue At"@
            ||| b.dependencies && x == "Deps"@
            ||| b.label && x == "Label"@
            ||| b.command && x == "Command"@
            ||| b.path && x == "Path"@
            ||| b.start && x == "Start"@
            ||| b.end && x == "End"@
        },
{
    broadcast use vstd::seq_lib::lemma_seq_concat_contains_all_elements;

    lemma_shown_if_contains(b.id, header_name(Column::Id), x);
    lemma_shown_if_contains(b.status, header_name(Column::Status), x);
    lemma_shown_if_contains(b.priority, header_name(Column::Priority), x);
    lemma_shown_if_contains(b.enqueue_at, header_name(Column::EnqueueAt), x);
    lemma_shown_if_contains(b.dependencies, header_name(Column::Dependencies), x);
    lemma_shown_if_contains(b.label, header_name(Column::Label), x);
    lemma_shown_if_contains(b.command, header_name(Column::Command), x);
    lemma_shown_if_contains(b.path, header_name(Column::Path), x);
    lemma_shown_if_contains(b.start, header_name(Column::Start), x);
    lemma_shown_if_contains(b.end, header_name(Column::End), x);
}

/// Law: the status table draws horizontal lines between rows exactly when row
/// separators are asked for (and no borders at all otherwise), forces styling exactly
/// when the output style is enabled, and has one row per task.
pub proof fn lemma_table_frame(
    m: TableModel,
    b: TableBuilder,
    tasks: Seq<Task>,
    today_start: Instant,
    terminal_width: Option<u16>,
)
    requires
        model_of(m, b, tasks, today_start, terminal_width),
    ensures
        b.show_row_separators ==> m.preset == TablePreset::Utf8HorizontalOnly,
        !b.show_row_separators ==> m.preset == TablePreset::Nothing,
        m.enforce_styling == b.style.enabled,
        m.rows@.len() == tasks.len(),
{
}

/// All cells of `cells` are without colour.
pub open spec fn all_plain(cells: Seq<(Seq<char>, Option<StatusColor>)>) -> bool {
    forall|i: int| 0 <= i < cells.len() ==> (#[trigger] cells[i]).1 is None
}

proof fn lemma_all_plain_concat(a: Seq<(Seq<char>, Option<StatusColor>)>, b: Seq<(Seq<char>, Option<StatusColor>)>)
    requires
        all_plain(a),
        all_plain(b),
    ensures
        all_plain(a + b),
{
    assert forall|i: int| 0 <= i < (a + b).len() implies (#[trigger] (a + b)[i]).1 is None by {
        if i < a.len() {
            assert((a + b)[i] == a[i]);
        } else {
            assert((a + b)[i] == b[i - a.len()]);
        }
    }
}

proof fn lemma_plain_shown_if(flag: bool, text: Seq<char>)
    ensures
        all_plain(shown_if(flag, plain(text))),
{
    reveal(shown_if);
}

/// The cells after the status cell of a task's row.
spec fn row_rest(b: TableBuilder, c: TaskCells, w: TruncationWidths) -> Seq<(Seq<char>, Option<StatusColor>)> {
    shown_if(b.priority, plain(c.priority@)) + shown_if(b.enqueue_at, plain(c.enqueue_at@)) + shown_if(
        b.dependencies,
        plain(c.dependencies@),
    ) + shown_if(b.label, plain(c.label@)) + shown_if(b.command, plain(truncated(command_cell(b, c.command@), w.command)))
        + shown_if(b.path, plain(truncated(c.path@, w.path))) + shown_if(b.start, plain(c.start@)) + shown_if(
        b.end,
        plain(c.end@),
    )
}

proof fn lemma_row_split(b: TableBuilder, c: TaskCells, w: TruncationWidths, color: Option<StatusColor>)
    requires
        color == (if b.style.enabled {
            Some(c.status_color)
        } else {
            None
        }),
    ensures
        row_spec(b, c, w) == shown_if(b.id, plain(c.id@)) + shown_if(b.status, (c.status@, color))
            + row_rest(b, c, w),
{
    let head = shown_if(b.id, plain(c.id@)) + shown_if(b.status, (c.status@, color));
    let p1 = shown_if(b.priority, plain(c.priority@));
    let p2 = shown_if(b.enqueue_at, plain(c.enqueue_at@));
    let p3 = shown_if(b.dependencies, plain(c.dependencies@));
    let p4 = shown_if(b.label, plain(c.label@));
    let p5 = shown_if(b.command, plain(truncated(command_cell(b, c.command@), w.command)));
    let p6 = shown_if(b.path, plain(truncated(c.path@, w.path)));
    let p7 = shown_if(b.start, plain(c.start@));
    let p8 = shown_if(b.end, plain(c.end@));
    assert(head + p1 + p2 =~= head + (p1 + p2));
    assert(head + (p1 + p2) + p3 =~= head + (p1 + p2 + p3));
    assert(head + (p1 + p2 + p3) + p4 =~= head + (p1 + p2 + p3 + p4));
    assert(head + (p1 + p2 + p3 + p4) + p5 =~= head + (p1 + p2 + p3 + p4 + p5));
    assert(head + (p1 + p2 + p3 + p4 + p5) + p6 =~= head + (p1 + p2 + p3 + p4 + p5 + p6));
    assert(head + (p1 + p2 + p3 + p4 + p5 + p6) + p7 =~= head + (p1 + p2 + p3 + p4 + p5 + p6 + p7));
    assert(head + (p1 + p2 + p3 + p4 + p5 + p6 + p7) + p8 =~= head + (p1 + p2 + p3 + p4 + p5 + p6
        + p7 + p8));
}

proof fn lemma_row_rest_plain(b: TableBuilder, c: TaskCells, w: TruncationWidths)
    ensures
        all_plain(row_rest(b, c, w)),
{
    let p1 = shown_if(b.priority, plain(c.priority@));
    let p2 = shown_if(b.enqueue_at, plain(c.enqueue_at@));
    let p3 = shown_if(b.dependencies, plain(c.dependencies@));
    let p4 = shown_if(b.label, plain(c.label@));
    let p5 = shown_if(b.command, plain(truncated(command_cell(b, c.command@), w.command)));
    let p6 = shown_if(b.path, plain(truncated(c.path@, w.path)));
    let p7 = shown_if(b.start, plain(c.start@));
    let p8 = shown_if(b.end, plain(c.end@));
    lemma_plain_shown_if(b.priority, c.priority@);
    lemma_plain_shown_if(b.enqueue_at, c.enqueue_at@);
    lemma_plain_shown_if(b.dependencies, c.dependencies@);
    lemma_plain_shown_if(b.label, c.label@);
    lemma_plain_shown_if(b.command, truncated(command_cell(b, c.command@), w.command));
    lemma_plain_shown_if(b.path, truncated(c.path@, w.path));
    lemma_plain_shown_if(b.start, c.start@);
    lemma_plain_shown_if(b.end, c.end@);
    lemma_all_plain_concat(p1, p2);
    lemma_all_plain_concat(p1 + p2, p3);
    lemma_all_plain_concat(p1 + p2 + p3, p4);
    lemma_all_plain_concat(p1 + p2 + p3 + p4, p5);
    lemma_all_plain_concat(p1 + p2 + p3 + p4 + p5, p6);
    lemma_all_plain_concat(p1 + p2 + p3 + p4 + p5 + p6, p7);
    lemma_all_plain_concat(p1 + p2 + p3 + p4 + p5 + p6 + p7, p8);
}

proof fn lemma_shown_if_single<A>(flag: bool, x: A)
    ensures
        shown_if(flag, x).len() == (if flag { 1int } else { 0 }),
        flag ==> shown_if(flag, x)[0] == x,
{
    reveal(shown_if);
}

/// Law: in a task's row only the status cell can have a colour: it holds the status
/// text, coloured with the status colour exactly when the output style is enabled; every
/// other cell is plain.
pub proof fn lemma_row_colours(b: TableBuilder, c: TaskCells, w: TruncationWidths)
    ensures
        ({
            let row = row_spec(b, c, w);
            let status_at = if b.id { 1int } else { 0 };
            &&& b.status ==> row[status_at] == (
                c.status@,
                if b.style.enabled { Some(c.status_color) } else { None },
            )
            &&& forall|i: int|
                0 <= i < row.len() && !(b.status && i == status_at) ==> (#[trigger] row[i]).1 is None
        }),
{
    let color = if b.style.enabled {
        Some(c.status_color)
    } else {
        None
    };
    let head = shown_if(b.id, plain(c.id@));
    let st = shown_if(b.status, (c.status@, color));
    let rest = row_rest(b, c, w);
    lemma_row_split(b, c, w, color);
    lemma_row_rest_plain(b, c, w);
    lemma_plain_shown_if(b.id, c.id@);
    lemma_shown_if_single(b.id, plain(c.id@));
    lemma_shown_if_single(b.status, (c.status@, color));
    let row = row_spec(b, c, w);
    let status_at = if b.id { 1int } else { 0 };
    let hs = head.len() + st.len();
    if b.status {
        assert(row[status_at] == (head + st)[status_at]);
        assert((head + st)[status_at] == st[0]);
    }
    assert forall|i: int|
        0 <= i < row.len() && !(b.status && i == status_at) implies (#[trigger] row[i]).1 is None by {
        if i < head.len() {
            assert(row[i] == (head + st)[i]);
            assert((head + st)[i] == head[i]);
        } else if i < hs {
            assert(false);
        } else {
            assert(row[i] == rest[i - hs]);
        }
    }
}

} // verus!
