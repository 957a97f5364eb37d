use pueue::clean::{clean, clean_now, CleanRequest, Response};
use pueue::state::TaskState;
use pueue::task::{Task, TaskResult, TaskStatus};
use pueue::time::Instant;
use std::time::{SystemTime, UNIX_EPOCH};

const PUEUE_DEFAULT_GROUP: &str = "default";

fn get_message(successful_only: bool, group: Option<String>, older_than: Option<u64>) -> CleanRequest {
    CleanRequest {
        successful_only,
        group,
        older_than,
    }
}

fn minutes_ago(minutes: i64) -> Instant {
    let now = SystemTime::now().duration_since(UNIX_EPOCH).unwrap();
    Instant {
        secs: now.as_secs() as i64 - minutes * 60,
        nanos: now.subsec_nanos(),
    }
}

fn stub_task(id: usize, group: &str, status: TaskStatus) -> Task {
    Task {
        id,
        command: "ls".to_string(),
        original_command: "ls".to_string(),
        path: "/tmp".to_string(),
        group: group.to_string(),
        dependencies: Vec::new(),
        priority: 0,
        label: None,
        status,
    }
}

fn done(result: TaskResult) -> TaskStatus {
    TaskStatus::Done {
        enqueued_at: minutes_ago(3),
        start: minutes_ago(2),
        end: minutes_ago(1),
        result,
    }
}

/// Five tasks in the default group: queued, done, stashed, running and paused.
fn get_stub_state() -> TaskState {
    let mut state = TaskState::new();
    let statuses = vec![
        TaskStatus::Queued {
            enqueued_at: minutes_ago(1),
        },
        done(TaskResult::Success),
        TaskStatus::Stashed { enqueue_at: None },
        TaskStatus::Running {
            enqueued_at: minutes_ago(2),
            start: minutes_ago(1),
        },
        TaskStatus::Paused {
            enqueued_at: minutes_ago(2),
            start: minutes_ago(1),
        },
    ];
    for (id, status) in statuses.into_iter().enumerate() {
        state
            .tasks
            .insert(id, stub_task(id, PUEUE_DEFAULT_GROUP, status));
    }
    state
}

/// Six finished tasks, one for each kind of result, in each of the given groups.
fn get_clean_test_state(groups: &[&str]) -> TaskState {
    let mut state = TaskState::new();
    let mut id = 0;
    for &group in groups {
        let results = vec![
            TaskResult::Success,
            TaskResult::Failed(1),
            TaskResult::FailedToSpawn("error".to_string()),
            TaskResult::Killed,
            TaskResult::Errored,
            TaskResult::DependencyFailed,
        ];
        for result in results {
            state.tasks.insert(id, stub_task(id, group, done(result)));
            id += 1;
        }
    }
    state
}

fn success_text(response: &Response) -> Option<&str> {
    match response {
        Response::Success(text) => Some(text.as_str()),
        Response::Failure(_) => None,
    }
}

#[test]
fn clean_normal() {
    let mut state = get_stub_state();

    // Only task 1 will be removed, since it's the only TaskStatus with `Done`.
    let outcome = clean(&mut state, &get_message(false, None, None)).unwrap();

    assert!(matches!(outcome.response, Response::Success(_)));
    assert_eq!(
        success_text(&outcome.response),
        Some("All finished tasks have been removed")
    );
    assert_eq!(state.tasks.len(), 4);
}

#[test]
fn clean_normal_for_all_results() {
    let mut state = get_clean_test_state(&[PUEUE_DEFAULT_GROUP]);

    // All finished tasks should removed when calling default `clean`.
    let outcome = clean(&mut state, &get_message(false, None, None)).unwrap();

    assert!(matches!(outcome.response, Response::Success(_)));
    assert_eq!(
        success_text(&outcome.response),
        Some("All finished tasks have been removed")
    );
    assert!(state.tasks.is_empty());
}

#[test]
fn clean_successful_only() {
    let mut state = get_clean_test_state(&[PUEUE_DEFAULT_GROUP]);

    // Only successfully finished tasks should get removed when
    // calling `clean` with the `successful_only` flag.
    let outcome = clean(&mut state, &get_message(true, None, None)).unwrap();

    assert!(matches!(outcome.response, Response::Success(_)));
    assert_eq!(
        success_text(&outcome.response),
        Some("All successfully finished tasks have been removed")
    );
    // Assert that only the first entry has been deleted (TaskResult::Success)
    assert_eq!(state.tasks.len(), 5);
    assert!(!state.tasks.contains_key(&0));
}

#[test]
fn clean_only_in_selected_group() {
    let mut state = get_clean_test_state(&[PUEUE_DEFAULT_GROUP, "other"]);

    // All finished tasks should removed in selected group (other)
    let outcome = clean(
        &mut state,
        &get_message(false, Some("other".into()), None),
    )
    .unwrap();

    assert!(matches!(outcome.response, Response::Success(_)));
    assert_eq!(
        success_text(&outcome.response),
        Some("All finished tasks have been removed from group 'other'")
    );
    // Assert that only the 'other' group has been cleared
    assert_eq!(state.tasks.len(), 6);
    assert!(state.tasks.iter().all(|(_, task)| &task.group != "other"));
}

#[test]
fn clean_only_successful_only_in_selected_group() {
    let mut state = get_clean_test_state(&[PUEUE_DEFAULT_GROUP, "other"]);

    // Only successfully finished tasks should removed in the 'other' group
    let outcome = clean(
        &mut state,
        &get_message(true, Some("other".into()), None),
    )
    .unwrap();

    assert!(matches!(outcome.response, Response::Success(_)));
    assert_eq!(
        success_text(&outcome.response),
        Some("All successfully finished tasks have been removed from group 'other'")
    );
    // Assert that only the first entry has been deleted from the 'other' group
    // (TaskResult::Success)
    assert_eq!(state.tasks.len(), 11);
    assert!(!state.tasks.contains_key(&6));
}

#[test]
fn clean_older_than_skips_recent_finished_tasks() {
    let mut state = get_clean_test_state(&[PUEUE_DEFAULT_GROUP]);

    // All done tasks are only ~1 minute old in fixtures and therefore not older than 24 hours.
    let outcome = clean(&mut state, &get_message(false, None, Some(24))).unwrap();

    assert!(matches!(outcome.response, Response::Success(_)));
    assert_eq!(
        success_text(&outcome.response),
        Some("All finished tasks older than 24 hours have been removed")
    );
    assert_eq!(state.tasks.len(), 6);
}

#[test]
fn clean_older_than_removes_only_old_finished_tasks() {
    let mut state = get_clean_test_state(&[PUEUE_DEFAULT_GROUP]);
    if let Some(task) = state.tasks.get_mut(&0) {
        if let TaskStatus::Done { end, .. } = &mut task.status {
            *end = minutes_ago(30 * 60);
        }
    }

    // Only task 0 has been made older than 24 hours.
    let _ = clean(&mut state, &get_message(false, None, Some(24)));

    assert_eq!(state.tasks.len(), 5);
    assert!(!state.tasks.contains_key(&0));
    assert!(state.tasks.contains_key(&1));
}

#[test]
fn clean_refuses_older_than_beyond_i64() {
    let mut state = get_clean_test_state(&[PUEUE_DEFAULT_GROUP]);
    let outcome = clean(&mut state, &get_message(false, None, Some(u64::MAX))).unwrap();
    match outcome.response {
        Response::Failure(text) => assert_eq!(text, "`older_than` value is too large."),
        Response::Success(_) => panic!("expected a failure"),
    }
    assert!(outcome.removed.is_empty());
    assert_eq!(state.tasks.len(), 6);
}

#[test]
fn clean_cannot_go_back_before_chrono_range() {
    let mut state = get_clean_test_state(&[PUEUE_DEFAULT_GROUP]);
    // Three thousand million hours reach back before the earliest date chrono knows.
    let outcome = clean(&mut state, &get_message(false, None, Some(3_000_000_000)));
    assert!(outcome.is_none());
    assert_eq!(state.tasks.len(), 6);
}

#[test]
fn clean_keeps_tasks_with_unfinished_dependants() {
    let mut state = get_clean_test_state(&[PUEUE_DEFAULT_GROUP]);
    let mut waiting = stub_task(
        6,
        PUEUE_DEFAULT_GROUP,
        TaskStatus::Queued {
            enqueued_at: minutes_ago(1),
        },
    );
    waiting.dependencies = vec![2];
    state.tasks.insert(6, waiting);

    let outcome = clean(&mut state, &get_message(false, None, None)).unwrap();

    assert_eq!(outcome.removed, vec![0, 1, 3, 4, 5]);
    assert!(state.tasks.contains_key(&2));
    assert!(state.tasks.contains_key(&6));
    assert_eq!(state.tasks.len(), 2);
}

#[test]
fn clean_twice_removes_nothing_more() {
    let mut state = get_clean_test_state(&[PUEUE_DEFAULT_GROUP, "other"]);
    let message = get_message(true, Some("other".into()), None);
    let first = clean(&mut state, &message).unwrap();
    assert_eq!(first.removed, vec![6]);
    let second = clean(&mut state, &message).unwrap();
    assert!(second.removed.is_empty());
    assert_eq!(state.tasks.len(), 11);
}

#[test]
fn clean_never_removes_unfinished_tasks() {
    let mut state = get_stub_state();
    let outcome = clean(&mut state, &get_message(false, None, None)).unwrap();
    assert_eq!(outcome.removed, vec![1]);
    for id in [0, 2, 3, 4] {
        assert!(state.tasks.contains_key(&id));
    }
}

#[test]
fn clean_now_refuses_cutoffs_before_chrono_range() {
    let mut state = get_clean_test_state(&[PUEUE_DEFAULT_GROUP]);
    let now = Instant { secs: 0, nanos: 0 };
    // 2 315 167 008 hours are 8 334 601 228 800 seconds: exactly back to the earliest date.
    let outcome = clean_now(&mut state, &get_message(false, None, Some(2_315_167_008)), now);
    assert!(outcome.is_some());
    let mut state = get_clean_test_state(&[PUEUE_DEFAULT_GROUP]);
    let refused = clean_now(&mut state, &get_message(false, None, Some(2_315_167_009)), now);
    assert!(refused.is_none());
    assert_eq!(state.tasks.len(), 6);
}

#[test]
fn clean_now_uses_the_given_time() {
    let mut state = get_clean_test_state(&[PUEUE_DEFAULT_GROUP]);
    // Seen from 25 hours ahead, every task finished more than a day before.
    let later = minutes_ago(-25 * 60);
    let outcome = clean_now(&mut state, &get_message(false, None, Some(24)), later).unwrap();
    assert_eq!(outcome.removed, vec![0, 1, 2, 3, 4, 5]);
    assert!(state.tasks.is_empty());
    let mut fresh = get_clean_test_state(&[PUEUE_DEFAULT_GROUP]);
    let outcome = clean_now(&mut fresh, &get_message(false, None, Some(24)), minutes_ago(0)).unwrap();
    assert!(outcome.removed.is_empty());
    assert_eq!(fresh.tasks.len(), 6);
}
