use pueue::cells::{status_times_representable, task_cells, TaskCells};
use pueue::settings::{ClientSettings, OutputStyle, Settings};
use pueue::table_builder::{Rule, TableBuilder, TablePreset};
use pueue::task::{StatusColor, Task, TaskResult, TaskStatus};
use pueue::time::Instant;

fn settings() -> Settings {
    Settings {
        client: ClientSettings {
            max_status_lines: Some(3),
            show_expanded_aliases: false,
            status_time_format: "%H:%M:%S".to_string(),
            status_datetime_format: "%Y-%m-%d %H:%M:%S".to_string(),
        },
    }
}

fn at(secs: i64) -> Instant {
    Instant { secs, nanos: 0 }
}

fn task(id: usize, status: TaskStatus) -> Task {
    Task {
        id,
        command: "ls -la".to_string(),
        original_command: "ll".to_string(),
        path: "/home/user/project".to_string(),
        group: "default".to_string(),
        dependencies: Vec::new(),
        priority: 0,
        label: None,
        status,
    }
}

const TODAY: i64 = 1_700_000_000;

fn texts(cells: &[pueue::table_builder::CellModel]) -> Vec<String> {
    cells.iter().map(|c| c.text.clone()).collect()
}

#[test]
fn new_builder_shows_default_columns() {
    let settings = settings();
    let style = OutputStyle { enabled: false };
    let builder = TableBuilder::new(&settings, &style, false, false);
    assert_eq!(
        builder.build_header(),
        vec!["Id", "Status", "Command", "Path", "Start", "End"]
    );
}

#[test]
fn rules_select_exactly_the_named_columns() {
    let settings = settings();
    let style = OutputStyle { enabled: false };
    let mut builder = TableBuilder::new(&settings, &style, false, false);
    builder.set_visibility_by_rules(&[Rule::ColumnLabel, Rule::Other, Rule::ColumnId]);
    assert!(builder.selected_columns);
    assert_eq!(builder.build_header(), vec!["Id", "Label"]);

    let mut unchanged = TableBuilder::new(&settings, &style, false, false);
    unchanged.set_visibility_by_rules(&[]);
    assert!(!unchanged.selected_columns);
    assert_eq!(unchanged.build_header().len(), 6);
}

#[test]
fn special_columns_appear_with_data() {
    let settings = settings();
    let style = OutputStyle { enabled: false };
    let mut with_label = task(1, TaskStatus::Queued { enqueued_at: at(TODAY) });
    with_label.label = Some("nightly".to_string());
    let mut with_deps = task(2, TaskStatus::Stashed { enqueue_at: Some(at(TODAY + 100)) });
    with_deps.dependencies = vec![0, 1];
    with_deps.priority = -2;
    let tasks = vec![with_label, with_deps];

    let mut builder = TableBuilder::new(&settings, &style, false, false);
    builder.determine_special_columns(&tasks);
    assert_eq!(
        builder.build_header(),
        vec!["Id", "Status", "Prio", "Enqueue At", "Deps", "Label", "Command", "Path", "Start", "End"]
    );

    // A user's column selection is not overridden by the tasks.
    let mut selected = TableBuilder::new(&settings, &style, false, false);
    selected.set_visibility_by_rules(&[Rule::ColumnId]);
    selected.determine_special_columns(&tasks);
    assert_eq!(selected.build_header(), vec!["Id"]);
}

#[test]
fn cells_hold_the_task_texts() {
    let settings = settings();
    let mut t = task(
        12,
        TaskStatus::Done {
            enqueued_at: at(TODAY - 10),
            start: at(TODAY + 10),
            end: at(TODAY + 20),
            result: TaskResult::Failed(2),
        },
    );
    t.dependencies = vec![3, 10, 7];
    t.priority = 5;
    let cells = task_cells(&t, &settings, at(TODAY)).unwrap();
    assert_eq!(cells.id, "12");
    assert_eq!(cells.status, "Failed (2)");
    assert_eq!(cells.status_color, StatusColor::Red);
    assert_eq!(cells.priority, "5");
    assert_eq!(cells.dependencies, "3, 10, 7");
    assert_eq!(cells.label, "");
    assert_eq!(cells.command, "ll");
    assert_eq!(cells.path, "/home/user/project");
    assert_eq!(cells.enqueue_at, "");
    // Times of the current day are shown without a date.
    assert_eq!(cells.start.len(), 8);
    assert_eq!(cells.end.len(), 8);

    let queued = task(1, TaskStatus::Queued { enqueued_at: at(TODAY) });
    let cells = task_cells(&queued, &settings, at(TODAY)).unwrap();
    assert_eq!(cells.start, "");
    assert_eq!(cells.end, "");
}

#[test]
fn times_of_other_days_show_the_date() {
    let settings = settings();
    let t = task(
        1,
        TaskStatus::Running {
            enqueued_at: at(TODAY - 200_000),
            start: at(TODAY - 100_000),
        },
    );
    let cells = task_cells(&t, &settings, at(TODAY)).unwrap();
    assert_eq!(cells.start.len(), 19);
    assert_eq!(cells.end, "");

    let later = task(2, TaskStatus::Stashed { enqueue_at: Some(at(TODAY + 3 * 86_400)) });
    assert_eq!(task_cells(&later, &settings, at(TODAY)).unwrap().enqueue_at.len(), 19);
    let soon = task(3, TaskStatus::Stashed { enqueue_at: Some(at(TODAY + 86_400)) });
    assert_eq!(task_cells(&soon, &settings, at(TODAY)).unwrap().enqueue_at.len(), 8);
}

#[test]
fn invalid_time_format_is_reported() {
    let mut settings = settings();
    settings.client.status_time_format = "%Q".to_string();
    let t = task(
        1,
        TaskStatus::Running {
            enqueued_at: at(TODAY),
            start: at(TODAY + 5),
        },
    );
    assert!(task_cells(&t, &settings, at(TODAY)).is_none());
}

fn cells(command: &str, path: &str) -> TaskCells {
    TaskCells {
        id: "1".to_string(),
        status: "Queued".to_string(),
        status_color: StatusColor::Yellow,
        priority: "0".to_string(),
        enqueue_at: String::new(),
        dependencies: String::new(),
        label: String::new(),
        command: command.to_string(),
        path: path.to_string(),
        start: String::new(),
        end: String::new(),
    }
}

#[test]
fn truncation_widths_follow_the_terminal() {
    let settings = settings();
    let style = OutputStyle { enabled: false };
    let rows = vec![cells(&"c".repeat(30), &"p".repeat(50))];

    let off = TableBuilder::new(&settings, &style, false, false);
    let w = off.get_truncation_widths(&rows, Some(60));
    assert_eq!((w.command, w.path), (None, None));

    let on = TableBuilder::new(&settings, &style, false, true);
    let w = on.get_truncation_widths(&rows, None);
    assert_eq!((w.command, w.path), (None, None));

    // Fixed columns: Id 2, Status 6, Start 5, End 3 = 16; spacing 6 * 2 + 3 = 15.
    let w = on.get_truncation_widths(&rows, Some(60));
    // 29 columns are left: 7 + 4 minimum, 18 extra shared as 23 : 46.
    assert_eq!((w.command, w.path), (Some(13), Some(16)));

    let w = on.get_truncation_widths(&rows, Some(200));
    assert_eq!((w.command, w.path), (Some(30), Some(50)));

    let w = on.get_truncation_widths(&rows, Some(10));
    assert_eq!((w.command, w.path), (Some(7), Some(4)));
}

#[test]
fn rows_truncate_and_color() {
    let settings = settings();
    let style = OutputStyle { enabled: true };
    let builder = TableBuilder::new(&settings, &style, false, true);
    let rows = vec![cells("abcdefghijklmnop", "/a/b/c")];
    let w = builder.get_truncation_widths(&rows, Some(40));
    let built = builder.build_task_rows(&rows, w);
    assert_eq!(built.len(), 1);
    assert_eq!(built[0].max_height, Some(3));
    assert_eq!(built[0].cells.len(), builder.build_header().len());
    assert_eq!(built[0].cells[1].color, Some(StatusColor::Yellow));
    assert_eq!(built[0].cells[0].color, None);
    // 40 - (16 + 15) = 9 columns are fewer than the minima 7 + 4.
    assert_eq!(
        texts(&built[0].cells),
        vec!["1", "Queued", "ab...op", "...c", "", ""]
    );
}

#[test]
fn model_of_a_task_list() {
    let settings = settings();
    let style = OutputStyle { enabled: false };
    let builder = TableBuilder::new(&settings, &style, true, false);
    let mut labelled = task(0, TaskStatus::Queued { enqueued_at: at(TODAY) });
    labelled.label = Some("x".to_string());
    let tasks = vec![labelled, task(1, TaskStatus::Stashed { enqueue_at: None })];
    let model = builder.build_model(&tasks, at(TODAY), Some(80)).unwrap();
    assert_eq!(model.preset, TablePreset::Utf8HorizontalOnly);
    assert!(!model.enforce_styling);
    assert_eq!(
        model.header,
        vec!["Id", "Status", "Label", "Command", "Path", "Start", "End"]
    );
    assert_eq!(model.rows.len(), 2);
    assert_eq!(texts(&model.rows[0].cells), vec!["0", "Queued", "x", "ll", "/home/user/project", "", ""]);
    assert_eq!(texts(&model.rows[1].cells), vec!["1", "Stashed", "", "ll", "/home/user/project", "", ""]);
}

#[test]
fn build_renders_a_table() {
    let settings = settings();
    let style = OutputStyle { enabled: true };
    let builder = TableBuilder::new(&settings, &style, false, false);
    let tasks = vec![task(7, TaskStatus::Queued { enqueued_at: at(TODAY) })];
    let table = builder.build(&tasks, None).unwrap();
    let text = table.to_string();
    assert!(text.contains("Status"));
    assert!(text.contains("Queued"));
    assert!(text.contains("ll"));
}

#[test]
fn truncated_table_fits_the_terminal() {
    let settings = settings();
    let style = OutputStyle { enabled: false };
    let builder = TableBuilder::new(&settings, &style, false, true);
    let rows = vec![cells(&"c".repeat(80), &"p".repeat(120))];
    // The other columns and the spacing take 31 columns; the headers 7 + 4 more.
    for width in 42u16..=250 {
        let w = builder.get_truncation_widths(&rows, Some(width));
        let used = 31 + w.command.unwrap() + w.path.unwrap();
        assert!(used <= width as usize, "width {width}: {used}");
    }
}

#[test]
fn literal_time_formats_are_shown_as_they_are() {
    let mut settings = settings();
    settings.client.status_time_format = "today".to_string();
    settings.client.status_datetime_format = "long ago".to_string();
    let t = task(
        1,
        TaskStatus::Done {
            enqueued_at: at(TODAY - 200_000),
            start: at(TODAY - 100_000),
            end: at(TODAY + 5),
            result: TaskResult::Success,
        },
    );
    let cells = task_cells(&t, &settings, at(TODAY)).unwrap();
    assert_eq!(cells.start, "long ago");
    assert_eq!(cells.end, "today");
    assert_eq!(cells.enqueue_at, "");
}

#[test]
fn rendered_table_holds_the_model() {
    let settings = settings();
    let style = OutputStyle { enabled: true };
    let builder = TableBuilder::new(&settings, &style, true, false);
    let tasks = vec![
        task(3, TaskStatus::Queued { enqueued_at: at(TODAY) }),
        task(4, TaskStatus::Stashed { enqueue_at: None }),
    ];
    let model = builder.build_model(&tasks, at(TODAY), None).unwrap();
    let mut table = pueue::render::render_table(&model);
    assert_eq!(
        table.current_style_as_preset(),
        comfy_table::presets::UTF8_HORIZONTAL_ONLY
    );
    assert!(matches!(
        table.content_arrangement(),
        comfy_table::ContentArrangement::Dynamic
    ));
    assert!(table.should_style());
    let header: Vec<String> = table
        .header()
        .unwrap()
        .cell_iter()
        .map(|c| c.content())
        .collect();
    assert_eq!(header, vec!["Id", "Status", "Command", "Path", "Start", "End"]);
    let rows: Vec<Vec<String>> = table
        .row_iter()
        .map(|r| r.cell_iter().map(|c| c.content()).collect())
        .collect();
    assert_eq!(
        rows,
        vec![
            vec!["3", "Queued", "ll", "/home/user/project", "", ""],
            vec!["4", "Stashed", "ll", "/home/user/project", "", ""],
        ]
    );
}

#[test]
fn compact_flattens_multiline_commands() {
    let settings = settings();
    let style = OutputStyle { enabled: false };
    let mut builder = TableBuilder::new(&settings, &style, false, false);
    builder.set_visibility_by_rules(&[Rule::ColumnId, Rule::ColumnStatus, Rule::ColumnCommand]);
    let mut t = task(0, TaskStatus::Stashed { enqueue_at: None });
    t.original_command = "echo first\nsecond".to_string();
    let table = builder.build(&[t], None).unwrap();
    let text = table.to_string();
    assert!(text.contains("echo first second"));
    assert!(!text.contains("echo first\nsecond"));
}

#[test]
fn tables_with_row_separators_keep_line_breaks() {
    let settings = settings();
    let style = OutputStyle { enabled: false };
    let builder = TableBuilder::new(&settings, &style, true, false);
    let mut t = task(0, TaskStatus::Stashed { enqueue_at: None });
    t.original_command = "echo first\nsecond".to_string();
    let model = builder.build_model(&[t], at(TODAY), None).unwrap();
    assert_eq!(model.rows[0].cells[2].text, "echo first\nsecond");
}

#[test]
fn default_time_formats_give_times() {
    let settings = settings();
    let t = task(
        1,
        TaskStatus::Done {
            enqueued_at: at(TODAY - 200_000),
            start: at(TODAY - 100_000),
            end: at(TODAY + 5),
            result: TaskResult::Success,
        },
    );
    let cells = task_cells(&t, &settings, at(TODAY)).unwrap();
    // "%Y-%m-%d %H:%M:%S" and "%H:%M:%S" in whatever the local offset is.
    assert_eq!(cells.start.len(), 19);
    assert_eq!(cells.start.as_bytes()[4], b'-');
    assert_eq!(cells.end.len(), 8);
    assert_eq!(cells.end.as_bytes()[2], b':');
}

#[test]
fn enqueue_time_follows_the_task() {
    let settings = settings();
    let soon = task(1, TaskStatus::Stashed { enqueue_at: Some(at(TODAY + 3_600)) });
    let later = task(2, TaskStatus::Stashed { enqueue_at: Some(at(TODAY + 3 * 86_400)) });
    let soon_text = pueue::cells::enqueue_text(&soon, &settings, at(TODAY)).unwrap();
    let later_text = pueue::cells::enqueue_text(&later, &settings, at(TODAY)).unwrap();
    assert_eq!(soon_text.len(), 8);
    assert_eq!(later_text.len(), 19);
    let none = task(3, TaskStatus::Stashed { enqueue_at: None });
    assert_eq!(pueue::cells::enqueue_text(&none, &settings, at(TODAY)).unwrap(), "");
}

#[test]
fn malformed_time_formats_are_refused() {
    let mut settings = settings();
    settings.client.status_time_format = "%H:%".to_string();
    let t = task(1, TaskStatus::Running { enqueued_at: at(TODAY), start: at(TODAY + 5) });
    assert!(task_cells(&t, &settings, at(TODAY)).is_none());
    assert!(pueue::cells::formatted_start_end(&t, &settings, at(TODAY)).is_none());
    let queued = task(2, TaskStatus::Queued { enqueued_at: at(TODAY) });
    assert!(task_cells(&queued, &settings, at(TODAY)).is_some());
}

#[test]
fn status_times_outside_chrono_are_found() {
    assert!(status_times_representable(&TaskStatus::Running {
        enqueued_at: at(TODAY),
        start: at(TODAY)
    }));
    assert!(!status_times_representable(&TaskStatus::Running {
        enqueued_at: at(TODAY),
        start: at(i64::MAX)
    }));
    assert!(status_times_representable(&TaskStatus::Running {
        enqueued_at: at(TODAY),
        start: Instant { secs: -61, nanos: 1_500_000_000 }
    }));
    assert!(!status_times_representable(&TaskStatus::Running {
        enqueued_at: at(TODAY),
        start: Instant { secs: -60, nanos: 1_500_000_000 }
    }));
}

#[test]
fn tables_without_times_are_built() {
    let settings = settings();
    let style = OutputStyle { enabled: false };
    let builder = TableBuilder::new(&settings, &style, true, false);
    let table = builder.build(&[], Some(80)).unwrap();
    assert!(table.to_string().contains("Command"));
    let builder = TableBuilder::new(&settings, &style, true, false);
    let tasks = vec![task(0, TaskStatus::Stashed { enqueue_at: None })];
    let model = builder.build_model(&tasks, at(0), None).unwrap();
    let other = TableBuilder::new(&settings, &style, true, false)
        .build_model(&tasks, at(TODAY), None)
        .unwrap();
    assert_eq!(texts(&model.rows[0].cells), texts(&other.rows[0].cells));
}
