use chrono::DateTime;
use pueue::clean::{clean_at, CleanRequest, Response};
use pueue::state::TaskState;
use pueue::task::{Task, TaskResult, TaskStatus};
use pueue::time::{Instant, MAX_DELTA_SECS, MAX_TIMESTAMP, MIN_TIMESTAMP};

#[test]
fn timestamp_range_matches_chrono() {
    assert!(DateTime::from_timestamp(MIN_TIMESTAMP, 0).is_some());
    assert!(DateTime::from_timestamp(MIN_TIMESTAMP - 1, 0).is_none());
    assert!(DateTime::from_timestamp(MAX_TIMESTAMP, 999_999_999).is_some());
    assert!(DateTime::from_timestamp(MAX_TIMESTAMP + 1, 0).is_none());
    assert_eq!(chrono::TimeDelta::MAX.num_seconds(), MAX_DELTA_SECS);
}

fn finished_at(id: usize, end: Instant) -> Task {
    Task {
        id,
        command: "true".to_string(),
        original_command: "true".to_string(),
        path: "/".to_string(),
        group: "default".to_string(),
        dependencies: Vec::new(),
        priority: 0,
        label: None,
        status: TaskStatus::Done {
            enqueued_at: end,
            start: end,
            end,
            result: TaskResult::Success,
        },
    }
}

#[test]
fn age_limit_cuts_at_exactly_that_many_hours() {
    let now = Instant {
        secs: 1_700_000_000,
        nanos: 500,
    };
    let mut state = TaskState::new();
    // Finished exactly two hours ago: old enough.
    state.tasks.insert(
        0,
        finished_at(
            0,
            Instant {
                secs: now.secs - 7200,
                nanos: 500,
            },
        ),
    );
    // One nanosecond later: too recent.
    state.tasks.insert(
        1,
        finished_at(
            1,
            Instant {
                secs: now.secs - 7200,
                nanos: 501,
            },
        ),
    );
    let message = CleanRequest {
        successful_only: false,
        group: None,
        older_than: Some(2),
    };
    let outcome = clean_at(&mut state, &message, now);
    assert_eq!(outcome.removed, vec![0]);
    assert!(state.tasks.contains_key(&1));
    match outcome.response {
        Response::Success(text) => {
            assert_eq!(text, "All finished tasks older than 2 hours have been removed")
        },
        Response::Failure(_) => panic!("expected success"),
    }
}
