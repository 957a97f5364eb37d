use pueue::clean::{construct_success_clean_message, CleanRequest};
use pueue::task::{status_color, status_text, StatusColor, Task, TaskResult, TaskStatus};
use pueue::text::{char_is_whitespace, push_decimal, push_signed_decimal, string_of};
use pueue::time::Instant;
use pueue::truncate::truncate_text;

fn task_with_status(status: TaskStatus) -> Task {
    Task {
        id: 0,
        command: String::new(),
        original_command: String::new(),
        path: String::new(),
        group: "default".to_string(),
        dependencies: Vec::new(),
        priority: 0,
        label: None,
        status,
    }
}

fn at(secs: i64) -> Instant {
    Instant { secs, nanos: 0 }
}

#[test]
fn unicode_whitespace_is_trimmed_next_to_the_ellipsis() {
    // U+00A0 and U+3000 have the White_Space property; 'x' has not.
    assert_eq!(truncate_text("ab\u{A0}cdefgh\u{3000}yz", Some(7)), "ab...yz");
    assert_eq!(truncate_text("a\u{A0}bcdefg\u{3000}z", Some(7)), "a...z");
    assert_eq!(truncate_text("a\nbcdefgh\tz", Some(7)), "a...z");
    assert_eq!(truncate_text("axbcdefghxz", Some(7)), "ax...xz");
}

#[test]
fn string_copies_are_equal() {
    assert_eq!(string_of("grüße"), "grüße");
    assert_eq!(string_of(""), "");
}

#[test]
fn decimals() {
    let mut s = String::from("n=");
    push_decimal(&mut s, 0);
    assert_eq!(s, "n=0");
    let mut s = String::new();
    push_decimal(&mut s, 1234567890);
    assert_eq!(s, "1234567890");
    let mut s = String::new();
    push_decimal(&mut s, u64::MAX);
    assert_eq!(s, "18446744073709551615");
    let mut s = String::new();
    push_signed_decimal(&mut s, -42);
    assert_eq!(s, "-42");
    let mut s = String::new();
    push_signed_decimal(&mut s, i64::MIN);
    assert_eq!(s, "-9223372036854775808");
}

#[test]
fn truncate_text_without_width_keeps_text() {
    assert_eq!(truncate_text("a long text", None), "a long text");
}

#[test]
fn truncate_text_small_widths_leave_dots() {
    assert_eq!(truncate_text("abcdef", Some(0)), "");
    assert_eq!(truncate_text("abcdef", Some(2)), "..");
    assert_eq!(truncate_text("abcdef", Some(3)), "...");
}

#[test]
fn truncate_text_counts_characters_not_bytes() {
    assert_eq!(truncate_text("äöüäöü", Some(6)), "äöüäöü");
    assert_eq!(truncate_text("äöüßäöü", Some(5)), "ä...ü");
}

#[test]
fn truncate_text_never_exceeds_width() {
    let text = "echo  first   second   third";
    for width in 0..40 {
        let truncated = truncate_text(text, Some(width));
        assert!(truncated.chars().count() <= width);
    }
}

#[test]
fn status_texts_and_colors() {
    let done = |result| TaskStatus::Done {
        enqueued_at: at(0),
        start: at(1),
        end: at(2),
        result,
    };
    let cases = vec![
        (done(TaskResult::Success), "Success", StatusColor::Green),
        (done(TaskResult::Failed(3)), "Failed (3)", StatusColor::Red),
        (done(TaskResult::Failed(-1)), "Failed (-1)", StatusColor::Red),
        (
            done(TaskResult::FailedToSpawn("oops".to_string())),
            "Failed to spawn",
            StatusColor::Red,
        ),
        (done(TaskResult::Killed), "Killed", StatusColor::Red),
        (done(TaskResult::Errored), "Errored", StatusColor::Red),
        (
            done(TaskResult::DependencyFailed),
            "Dependency failed",
            StatusColor::Red,
        ),
        (
            TaskStatus::Running {
                enqueued_at: at(0),
                start: at(1),
            },
            "Running",
            StatusColor::Green,
        ),
        (
            TaskStatus::Paused {
                enqueued_at: at(0),
                start: at(1),
            },
            "Paused",
            StatusColor::White,
        ),
        (
            TaskStatus::Locked {
                previous_status: Box::new(TaskStatus::Queued { enqueued_at: at(0) }),
            },
            "Locked",
            StatusColor::White,
        ),
        (
            TaskStatus::Queued { enqueued_at: at(0) },
            "Queued",
            StatusColor::Yellow,
        ),
        (
            TaskStatus::Stashed { enqueue_at: None },
            "Stashed",
            StatusColor::Yellow,
        ),
    ];
    for (status, text, color) in cases {
        let task = task_with_status(status);
        assert_eq!(status_text(&task), text);
        assert_eq!(status_color(&task), color);
    }
}

#[test]
fn success_messages() {
    let message = CleanRequest {
        successful_only: true,
        group: Some("build".to_string()),
        older_than: Some(48),
    };
    assert_eq!(
        construct_success_clean_message(&message),
        "All successfully finished tasks older than 48 hours have been removed from group 'build'"
    );
}

#[test]
fn white_space_is_the_unicode_property() {
    for c in ['\t', '\n', '\r', ' ', '\u{85}', '\u{a0}', '\u{1680}', '\u{2000}', '\u{200a}', '\u{2028}', '\u{202f}', '\u{205f}', '\u{3000}'] {
        assert!(char_is_whitespace(c), "{c:?}");
    }
    for c in ['a', '\u{8}', '\u{200b}', '\u{180e}', '\u{feff}', '\u{2030}'] {
        assert!(!char_is_whitespace(c), "{c:?}");
    }
    for n in 0u32..0x11000 {
        if let Some(c) = char::from_u32(n) {
            assert_eq!(char_is_whitespace(c), c.is_whitespace(), "{n:x}");
        }
    }
}

#[test]
fn line_breaks_become_spaces() {
    assert_eq!(pueue::text::flatten_lines("echo first\nsecond\n"), "echo first second ");
    assert_eq!(pueue::text::flatten_lines("ls"), "ls");
}

#[test]
fn truncation_trims_unicode_space_next_to_the_ellipsis() {
    assert_eq!(truncate_text("ab\u{3000}cdefgh\u{a0}ij", Some(7)), "ab...ij");
}
