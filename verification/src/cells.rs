use vstd::prelude::*;
use crate::settings::Settings;
use crate::task::{
    start_and_end_spec, status_color, status_color_spec, status_text, status_text_spec,
    StatusColor, Task, TaskResult, TaskStatus,
};
use crate::text::{decimal, push_decimal, push_signed_decimal, signed_decimal, string_of};
use crate::time::{
    add_one_day, before, chrono_format, chrono_format_accepted, format_at_offset,
    instant_in_range, is_before, is_in_range, local_offset_at, one_day_after, plain_instant, text_of, Instant,
    MAX_TIMESTAMP,
};

verus! {

/// Which of the two configured time formats a time is shown in.
#[derive(Clone, Copy, Debug, PartialEq, Eq, Structural)]
pub enum TimeFormat {
    /// The format for times of the current day.
    Time,
    /// The format for times of other days.
    DateTime,
}

/// The texts of one task's cells in the status table, and the colour of its status.
pub struct TaskCells {
    pub id: String,
    pub status: String,
    pub status_color: StatusColor,
    pub priority: String,
    pub enqueue_at: String,
    pub dependencies: String,
    pub label: String,
    pub command: String,
    pub path: String,
    pub start: String,
    pub end: String,
}

/// The task's ids, in decimal, separated by `", "`.
pub open spec fn join_ids(ids: Seq<usize>) -> Seq<char>
    decreases ids.len(),
{
    if ids.len() == 0 {
        Seq::empty()
    } else if ids.len() == 1 {
        decimal(ids[0] as nat)
    } else {
        join_ids(ids.drop_last()) + ", "@ + decimal(ids.last() as nat)
    }
}

/// The command as the table shows it: with aliases expanded, or as given.
pub open spec fn command_text(t: Task, settings: Settings) -> Seq<char> {
    if settings.client.show_expanded_aliases {
        t.command@
    } else {
        t.original_command@
    }
}

/// The label, or nothing.
pub open spec fn label_text(t: Task) -> Seq<char> {
    match t.label {
        Some(l) => l@,
        None => Seq::empty(),
    }
}

/// A time of the current day (from `today_start` on) is shown as a time only.
pub open spec fn day_format(t: Instant, today_start: Instant) -> TimeFormat {
    if before(t, today_start) {
        TimeFormat::DateTime
    } else {
        TimeFormat::Time
    }
}

/// When a delayed stashed task is enqueued, and how that time is shown: as a time only
/// when it is before the end of the current day.
pub open spec fn enqueue_time(s: TaskStatus, today_start: Instant) -> Option<(Instant, TimeFormat)> {
    match s {
        TaskStatus::Stashed { enqueue_at: Some(t) } => Some(
            (
                t,
                if before(one_day_after(today_start), t) {
                    TimeFormat::DateTime
                } else {
                    TimeFormat::Time
                },
            ),
        ),
        _ => None,
    }
}

/// When the task started, and how that time is shown.
pub open spec fn start_time(s: TaskStatus, today_start: Instant) -> Option<(Instant, TimeFormat)> {
    match start_and_end_spec(s).0 {
        Some(t) => Some((t, day_format(t, today_start))),
        None => None,
    }
}

/// When the task ended, and how that time is shown.
pub open spec fn end_time(s: TaskStatus, today_start: Instant) -> Option<(Instant, TimeFormat)> {
    match start_and_end_spec(s) {
        (Some(_), Some(t)) => Some((t, day_format(t, today_start))),
        _ => None,
    }
}

/// The times the status holds are ones `chrono` can represent.
pub open spec fn status_times_in_range(s: TaskStatus) -> bool {
    match s {
        TaskStatus::Stashed { enqueue_at: Some(t) } => instant_in_range(t),
        TaskStatus::Running { start, .. } => instant_in_range(start),
        TaskStatus::Paused { start, .. } => instant_in_range(start),
        TaskStatus::Done { start, end, .. } => instant_in_range(start) && instant_in_range(end),
        _ => true,
    }
}

/// Whether `chrono` can represent every time that `status` holds.
pub fn status_times_representable(status: &TaskStatus) -> (r: bool)
    ensures
        r == status_times_in_range(*status),
{
    match status {
        TaskStatus::Stashed { enqueue_at: Some(t) } => is_in_range(*t),
        TaskStatus::Running { start, .. } => is_in_range(*start),
        TaskStatus::Paused { start, .. } => is_in_range(*start),
        TaskStatus::Done { start, end, .. } => is_in_range(*start) && is_in_range(*end),
        _ => true,
    }
}

/// The status holds a time that the table shows: a delayed enqueue time or a start
/// (which any end comes with).
pub open spec fn holds_shown_time(s: TaskStatus) -> bool {
    ||| s matches TaskStatus::Stashed { enqueue_at: Some(_) }
    ||| start_and_end_spec(s).0 is Some
}

/// Some task holds a time that the table shows.
pub open spec fn tasks_hold_times(tasks: Seq<Task>) -> bool {
    exists|i: int| 0 <= i < tasks.len() && holds_shown_time(#[trigger] tasks[i].status)
}

/// Whether some task holds a time that the table shows.
pub fn any_task_holds_time(tasks: &[Task]) -> (r: bool)
    ensures
        r == tasks_hold_times(tasks@),
{
    let mut i: usize = 0;
    while i < tasks.len()
        invariant
            i <= tasks@.len(),
            forall|j: int| 0 <= j < i ==> !holds_shown_time(#[trigger] tasks@[j].status),
        decreases tasks@.len() - i,
    {
        let delayed = match &tasks[i].status {
            TaskStatus::Stashed { enqueue_at: Some(_) } => true,
            _ => false,
        };
        if delayed || tasks[i].status.start_and_end().0.is_some() {
            assert(holds_shown_time(tasks@[i as int].status));
            return true;
        }
        i = i + 1;
    }
    false
}

/// The cells of a task that holds no shown time do not depend on the start of the day.
pub proof fn lemma_cells_without_times(c: TaskCells, task: Task, settings: Settings, t1: Instant, t2: Instant)
    requires
        !holds_shown_time(task.status),
    ensures
        cells_of(c, task, settings, t1) == cells_of(c, task, settings, t2),
{
}

/// The configured format string that `format` selects.
pub open spec fn format_string(settings: Settings, format: TimeFormat) -> Seq<char> {
    match format {
        TimeFormat::Time => settings.client.status_time_format@,
        TimeFormat::DateTime => settings.client.status_datetime_format@,
    }
}

/// The format string holds no `%` conversion specification, so that `chrono` writes it
/// out as it is.
pub open spec fn literal_format(settings: Settings, format: TimeFormat) -> bool {
    !format_string(settings, format).contains('%')
}

/// `text` is what `chrono` writes for the instant `at` with the format string `format`
/// at some UTC offset: the one the local time zone has at that instant.
pub open spec fn formatted_at_some_offset(at: Instant, format: Seq<char>, text: Seq<char>) -> bool {
    exists|offset: i32|
        -86_400 < offset < 86_400 && #[trigger] chrono_format(at.secs, at.nanos, offset, format)
            == Some(text)
}

/// `text` is the cell of a time `choice` (a time and its format, or none): empty without
/// a time; otherwise the time in the local time zone, formatted by `chrono` with the
/// format string the choice selects, which is that string itself when it holds no `%`.
pub open spec fn time_text(settings: Settings, choice: Option<(Instant, TimeFormat)>, text: Seq<char>) -> bool {
    match choice {
        None => text.len() == 0,
        Some((at, format)) => {
            &&& formatted_at_some_offset(at, format_string(settings, format), text)
            &&& literal_format(settings, format) ==> text == format_string(settings, format)
        },
    }
}

/// No time is to be shown, or `chrono` accepts the format it is shown in.
pub open spec fn time_formattable(settings: Settings, choice: Option<(Instant, TimeFormat)>) -> bool {
    match choice {
        None => true,
        Some((_, format)) => chrono_format_accepted(format_string(settings, format)),
    }
}

/// `chrono` accepts the format of every time of the task that the table shows.
pub open spec fn task_times_formattable(task: Task, settings: Settings, today_start: Instant) -> bool {
    &&& time_formattable(settings, enqueue_time(task.status, today_start))
    &&& time_formattable(settings, start_time(task.status, today_start))
    &&& time_formattable(settings, end_time(task.status, today_start))
}

/// `cells` holds the texts of `task` in the status table. The times are formatted by
/// `chrono` in the local time zone, in the format that `enqueue_time`, `start_time` and
/// `end_time` pick, and are empty when the task has no such time.
pub open spec fn cells_of(cells: TaskCells, task: Task, settings: Settings, today_start: Instant) -> bool {
    &&& cells.id@ == decimal(task.id as nat)
    &&& cells.status@ == status_text_spec(task.status)
    &&& cells.status_color == status_color_spec(task.status)
    &&& cells.priority@ == signed_decimal(task.priority as int)
    &&& cells.dependencies@ == join_ids(task.dependencies@)
    &&& cells.label@ == label_text(task)
    &&& cells.command@ == command_text(task, settings)
    &&& cells.path@ == task.path@
    &&& time_text(settings, enqueue_time(task.status, today_start), cells.enqueue_at@)
    &&& time_text(settings, start_time(task.status, today_start), cells.start@)
    &&& time_text(settings, end_time(task.status, today_start), cells.end@)
}

/// The task's dependencies, in decimal, separated by `", "`.
pub fn dependencies_text(ids: &Vec<usize>) -> (r: String)
    ensures
        r@ == join_ids(ids@),
{
    let mut r = String::new();
    let mut i: usize = 0;
    while i < ids.len()
        invariant
            i <= ids@.len(),
            r@ == join_ids(ids@.take(i as int)),
        decreases ids@.len() - i,
    {
        assert(ids@.take(i + 1).drop_last() == ids@.take(i as int));
        if i > 0 {
            r.append(", ");
        }
        push_decimal(&mut r, ids[i] as u64);
        i = i + 1;
    }
    assert(ids@.take(ids@.len() as int) == ids@);
    r
}

/// Formats `at` in the local time zone with the configured format that `format`
/// selects. `None` when `chrono` refuses that format.
fn format_time(at: Instant, format: TimeFormat, settings: &Settings) -> (r: Option<String>)
    requires
        instant_in_range(at),
    ensures
        r is Some <==> chrono_format_accepted(format_string(*settings, format)),
        r matches Some(text) ==> time_text(*settings, Some((at, format)), text@),
{
    let offset = local_offset_at(at);
    let r = match format {
        TimeFormat::Time => format_at_offset(at, offset, settings.client.status_time_format.as_str()),
        TimeFormat::DateTime => format_at_offset(
            at,
            offset,
            settings.client.status_datetime_format.as_str(),
        ),
    };
    proof {
        if r is Some {
            assert(chrono_format(at.secs, at.nanos, offset, format_string(*settings, format))
                == Some(r->0@));
        }
    }
    r
}

/// When a delayed stashed task is enqueued, and in which format that time is shown.
pub fn enqueue_time_of(status: &TaskStatus, today_start: Instant) -> (r: Option<(Instant, TimeFormat)>)
    requires
        today_start.secs + 86_400 <= MAX_TIMESTAMP,
    ensures
        r == enqueue_time(*status, today_start),
{
    if let TaskStatus::Stashed { enqueue_at: Some(enqueue_at) } = status {
        let enqueue_today = !is_before(add_one_day(today_start), *enqueue_at);
        if enqueue_today {
            Some((*enqueue_at, TimeFormat::Time))
        } else {
            Some((*enqueue_at, TimeFormat::DateTime))
        }
    } else {
        None
    }
}

/// When the task started and ended, and in which format each time is shown.
pub fn start_end_times_of(status: &TaskStatus, today_start: Instant) -> (r: (
    Option<(Instant, TimeFormat)>,
    Option<(Instant, TimeFormat)>,
))
    ensures
        r.0 == start_time(*status, today_start),
        r.1 == end_time(*status, today_start),
{
    let (start, end) = status.start_and_end();
    let start = match start {
        Some(start) => start,
        None => {
            return (None, None);
        },
    };
    let start_format = if is_before(start, today_start) {
        TimeFormat::DateTime
    } else {
        TimeFormat::Time
    };
    let end = match end {
        Some(end) => end,
        None => {
            return (Some((start, start_format)), None);
        },
    };
    let end_format = if is_before(end, today_start) {
        TimeFormat::DateTime
    } else {
        TimeFormat::Time
    };
    (Some((start, start_format)), Some((end, end_format)))
}

/// The text of the enqueue-time column: for a delayed stashed task its enqueue time in
/// the local time zone, in the format `enqueue_time` picks, otherwise nothing. `None`
/// exactly when `chrono` refuses that format.
pub fn enqueue_text(task: &Task, settings: &Settings, today_start: Instant) -> (r: Option<String>)
    requires
        today_start.secs + 86_400 <= MAX_TIMESTAMP,
        status_times_in_range(task.status),
    ensures
        r matches Some(text) ==> time_text(*settings, enqueue_time(task.status, today_start), text@),
        r is Some <==> time_formattable(*settings, enqueue_time(task.status, today_start)),
{
    match enqueue_time_of(&task.status, today_start) {
        Some((at, format)) => format_time(at, format, settings),
        None => Some(String::new()),
    }
}

/// The texts of the start and end columns: each time in the format that `start_time`
/// and `end_time` pick, or nothing when the task has not started or ended. `None` when
/// `chrono` refuses a format.
pub fn formatted_start_end(task: &Task, settings: &Settings, today_start: Instant) -> (r: Option<
    (String, String),
>)
    requires
        status_times_in_range(task.status),
    ensures
        r matches Some((s, e)) ==> {
            &&& time_text(*settings, start_time(task.status, today_start), s@)
            &&& time_text(*settings, end_time(task.status, today_start), e@)
        },
        r is Some <==> time_formattable(*settings, start_time(task.status, today_start))
            && time_formattable(*settings, end_time(task.status, today_start)),
{
    let (start, end) = start_end_times_of(&task.status, today_start);
    let formatted_start = match start {
        Some((at, format)) => match format_time(at, format, settings) {
            Some(text) => text,
            None => {
                return None;
            },
        },
        None => String::new(),
    };
    let formatted_end = match end {
        Some((at, format)) => match format_time(at, format, settings) {
            Some(text) => text,
            None => {
                return None;
            },
        },
        None => String::new(),
    };
    Some((formatted_start, formatted_end))
}

/// The texts of a task's cells in the status table. `None` when `chrono` refuses one
/// of the configured time formats.
pub fn task_cells(task: &Task, settings: &Settings, today_start: Instant) -> (r: Option<TaskCells>)
    requires
        plain_instant(today_start),
        today_start.secs + 86_400 <= MAX_TIMESTAMP,
        status_times_in_range(task.status),
    ensures
        r matches Some(cells) ==> cells_of(cells, *task, *settings, today_start),
        r is Some <==> task_times_formattable(*task, *settings, today_start),
{
    let enqueue_at = match enqueue_text(task, settings, today_start) {
        Some(text) => text,
        None => {
            return None;
        },
    };
    let (start, end) = match formatted_start_end(task, settings, today_start) {
        Some(texts) => texts,
        None => {
            return None;
        },
    };
    let mut id = String::new();
    push_decimal(&mut id, task.id as u64);
    let mut priority = String::new();
    push_signed_decimal(&mut priority, task.priority as i64);
    let label = match &task.label {
        Some(label) => string_of(label.as_str()),
        None => String::new(),
    };
    let command = if settings.client.show_expanded_aliases {
        string_of(task.command.as_str())
    } else {
        string_of(task.original_command.as_str())
    };
    Some(
        TaskCells {
            id,
            status: status_text(task),
            status_color: status_color(task),
            priority,
            enqueue_at,
            dependencies: dependencies_text(&task.dependencies),
            label,
            command,
            path: string_of(task.path.as_str()),
            start,
            end,
        },
    )
}

/// Law: the texts of a task's cells that do not depend on the time. The command cell
/// holds the expanded command when `show_expanded_aliases` is set and the command as the
/// user gave it otherwise; the label cell the label or nothing; the path cell the path.
/// The status cell names the status (for a finished task, how it ended), and its colour
/// is green for running and successful tasks, white for paused and locked ones, red for
/// other finished ones and yellow for the rest.
pub proof fn lemma_cell_texts(c: TaskCells, task: Task, settings: Settings, today_start: Instant)
    requires
        cells_of(c, task, settings, today_start),
    ensures
        settings.client.show_expanded_aliases ==> c.command@ == task.command@,
        !settings.client.show_expanded_aliases ==> c.command@ == task.original_command@,
        task.label matches Some(l) ==> c.label@ == l@,
        task.label is None ==> c.label@.len() == 0,
        c.path@ == task.path@,
        task.status is Queued ==> c.status@ == "Queued"@ && c.status_color == StatusColor::Yellow,
        task.status is Stashed ==> c.status@ == "Stashed"@ && c.status_color == StatusColor::Yellow,
        task.status is Running ==> c.status@ == "Running"@ && c.status_color == StatusColor::Green,
        task.status is Paused ==> c.status@ == "Paused"@ && c.status_color == StatusColor::White,
        task.status is Locked ==> c.status@ == "Locked"@ && c.status_color == StatusColor::White,
        task.status matches TaskStatus::Done { result, .. } ==> {
            &&& (result is Success) == (c.status_color == StatusColor::Green)
            &&& !(result is Success) ==> c.status_color == StatusColor::Red
            &&& result is Success ==> c.status@ == "Success"@
            &&& result is DependencyFailed ==> c.status@ == "Dependency failed"@
            &&& result is FailedToSpawn ==> c.status@ == "Failed to spawn"@
            &&& result is Killed ==> c.status@ == "Killed"@
            &&& result is Errored ==> c.status@ == "Errored"@
            &&& (result matches TaskResult::Failed(code) ==> c.status@ == "Failed ("@ + signed_decimal(
                code as int,
            ) + ")"@)
        },
{
}

/// Law: which times a task's row shows, and in which format. A delayed stashed task
/// shows its enqueue time, in the time-only format exactly when it is not after the end
/// of the current day (`today_start` plus 86 400 seconds). A started task shows its
/// start, and a finished one also its end, each in the time-only format exactly when it
/// is not before `today_start`. No other time is shown. The time-only format is the
/// configured `status_time_format`, the other `status_datetime_format`.
pub proof fn lemma_time_choices(s: TaskStatus, today_start: Instant, settings: Settings)
    requires
        today_start.secs + 86_400 <= MAX_TIMESTAMP,
    ensures
        format_string(settings, TimeFormat::Time) == settings.client.status_time_format@,
        format_string(settings, TimeFormat::DateTime) == settings.client.status_datetime_format@,
        s matches TaskStatus::Stashed { enqueue_at: Some(t) } ==> enqueue_time(s, today_start)
            == Some(
            (
                t,
                if t.secs < today_start.secs + 86_400 || (t.secs == today_start.secs + 86_400
                    && t.nanos <= today_start.nanos) {
                    TimeFormat::Time
                } else {
                    TimeFormat::DateTime
                },
            ),
        ),
        !(s matches TaskStatus::Stashed { enqueue_at: Some(_) }) ==> enqueue_time(s, today_start) is None,
        ({
            let start = match s {
                TaskStatus::Running { start, .. } => Some(start),
                TaskStatus::Paused { start, .. } => Some(start),
                TaskStatus::Done { start, .. } => Some(start),
                _ => None,
            };
            let shown = |t: Instant|
                if t.secs > today_start.secs || (t.secs == today_start.secs && t.nanos
                    >= today_start.nanos) {
                    TimeFormat::Time
                } else {
                    TimeFormat::DateTime
                };
            &&& start matches Some(t) ==> start_time(s, today_start) == Some((t, shown(t)))
            &&& start is None ==> start_time(s, today_start) is None
            &&& s matches TaskStatus::Done { end, .. } ==> end_time(s, today_start) == Some(
                (end, shown(end)),
            )
            &&& !(s is Done) ==> end_time(s, today_start) is None
        }),
{
}

} // verus!
