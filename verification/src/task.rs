use vstd::prelude::*;
use crate::text::{push_signed_decimal, signed_decimal};
use crate::time::Instant;

verus! {

/// How a finished task ended.
#[derive(Debug)]
pub enum TaskResult {
    /// The process exited with code 0.
    Success,
    /// The process exited with the given non-zero code.
    Failed(i32),
    /// The process could not be started; the text says why.
    FailedToSpawn(String),
    /// The process was killed.
    Killed,
    /// Some error occurred while handling the task.
    Errored,
    /// One of the task's dependencies failed.
    DependencyFailed,
}

/// Where a task stands in its life cycle.
#[derive(Debug)]
pub enum TaskStatus {
    /// The task's command is being edited; the task keeps its earlier status.
    Locked { previous_status: Box<TaskStatus> },
    /// Held back until it is enqueued, by hand or at `enqueue_at`.
    Stashed { enqueue_at: Option<Instant> },
    /// Waiting for a free slot.
    Queued { enqueued_at: Instant },
    /// Started and running.
    Running { enqueued_at: Instant, start: Instant },
    /// Started, then paused.
    Paused { enqueued_at: Instant, start: Instant },
    /// Finished; `result` says how.
    Done { enqueued_at: Instant, start: Instant, end: Instant, result: TaskResult },
}

/// A task as the daemon keeps it.
#[derive(Debug)]
pub struct Task {
    pub id: usize,
    /// The command to run, with aliases expanded.
    pub command: String,
    /// The command as the user gave it.
    pub original_command: String,
    /// The working directory, as text.
    pub path: String,
    pub group: String,
    /// The ids of the tasks that must succeed before this one starts.
    pub dependencies: Vec<usize>,
    pub priority: i32,
    pub label: Option<String>,
    pub status: TaskStatus,
}

/// The colour in which a status is shown.
#[derive(Clone, Copy, Debug, PartialEq, Eq, Structural)]
pub enum StatusColor {
    Green,
    White,
    Red,
    Yellow,
}

/// The name of a status, as `Display` prints it: the variant's name.
pub open spec fn status_name(s: TaskStatus) -> Seq<char> {
    match s {
        TaskStatus::Locked { .. } => "Locked"@,
        TaskStatus::Stashed { .. } => "Stashed"@,
        TaskStatus::Queued { .. } => "Queued"@,
        TaskStatus::Running { .. } => "Running"@,
        TaskStatus::Paused { .. } => "Paused"@,
        TaskStatus::Done { .. } => "Done"@,
    }
}

/// The text in the status column: the status' name, except that a finished task
/// shows how it ended.
pub open spec fn status_text_spec(s: TaskStatus) -> Seq<char> {
    match s {
        TaskStatus::Done { result, .. } => match result {
            TaskResult::Success => "Success"@,
            TaskResult::DependencyFailed => "Dependency failed"@,
            TaskResult::FailedToSpawn(_) => "Failed to spawn"@,
            TaskResult::Failed(code) => "Failed ("@ + signed_decimal(code as int) + ")"@,
            TaskResult::Killed => "Killed"@,
            TaskResult::Errored => "Errored"@,
        },
        _ => status_name(s),
    }
}

/// The colour of the status column: running and successful tasks are green, paused
/// and locked ones white, other finished ones red, and the rest yellow.
pub open spec fn status_color_spec(s: TaskStatus) -> StatusColor {
    match s {
        TaskStatus::Running { .. } => StatusColor::Green,
        TaskStatus::Paused { .. } => StatusColor::White,
        TaskStatus::Locked { .. } => StatusColor::White,
        TaskStatus::Done { result, .. } => match result {
            TaskResult::Success => StatusColor::Green,
            _ => StatusColor::Red,
        },
        _ => StatusColor::Yellow,
    }
}

/// When a task started and when it ended, as far as it has.
pub open spec fn start_and_end_spec(s: TaskStatus) -> (Option<Instant>, Option<Instant>) {
    match s {
        TaskStatus::Running { start, .. } => (Some(start), None),
        TaskStatus::Paused { start, .. } => (Some(start), None),
        TaskStatus::Done { start, end, .. } => (Some(start), Some(end)),
        _ => (None, None),
    }
}

/// The task has finished.
pub open spec fn is_done(t: Task) -> bool {
    t.status is Done
}

/// The task has finished successfully.
pub open spec fn is_success(t: Task) -> bool {
    t.status matches TaskStatus::Done { result: TaskResult::Success, .. }
}

impl TaskStatus {
    /// Whether the task has finished.
    pub fn is_done(&self) -> (r: bool)
        ensures
            r == (*self is Done),
    {
        match self {
            TaskStatus::Done { .. } => true,
            _ => false,
        }
    }

    /// The start and end of the task, as far as it has them.
    pub fn start_and_end(&self) -> (r: (Option<Instant>, Option<Instant>))
        ensures
            r == start_and_end_spec(*self),
    {
        match self {
            TaskStatus::Running { start, .. } => (Some(*start), None),
            TaskStatus::Paused { start, .. } => (Some(*start), None),
            TaskStatus::Done { start, end, .. } => (Some(*start), Some(*end)),
            _ => (None, None),
        }
    }
}

/// The status text of a task, as the status table shows it.
pub fn status_text(task: &Task) -> (r: String)
    ensures
        r@ == status_text_spec(task.status),
{
    match &task.status {
        TaskStatus::Done { result, .. } => match result {
            TaskResult::Success => String::from_str("Success"),
            TaskResult::DependencyFailed => String::from_str("Dependency failed"),
            TaskResult::FailedToSpawn(_) => String::from_str("Failed to spawn"),
            TaskResult::Failed(code) => {
                let mut s = String::from_str("Failed (");
                push_signed_decimal(&mut s, *code as i64);
                s.append(")");
                s
            },
            TaskResult::Killed => String::from_str("Killed"),
            TaskResult::Errored => String::from_str("Errored"),
        },
        TaskStatus::Locked { .. } => String::from_str("Locked"),
        TaskStatus::Stashed { .. } => String::from_str("Stashed"),
        TaskStatus::Queued { .. } => String::from_str("Queued"),
        TaskStatus::Running { .. } => String::from_str("Running"),
        TaskStatus::Paused { .. } => String::from_str("Paused"),
    }
}

/// The colour of a task's status text.
pub fn status_color(task: &Task) -> (r: StatusColor)
    ensures
        r == status_color_spec(task.status),
{
    match &task.status {
        TaskStatus::Running { .. } => StatusColor::Green,
        TaskStatus::Paused { .. } => StatusColor::White,
        TaskStatus::Locked { .. } => StatusColor::White,
        TaskStatus::Done { result, .. } => match result {
            TaskResult::Success => StatusColor::Green,
            _ => StatusColor::Red,
        },
        _ => StatusColor::Yellow,
    }
}

} // verus!
