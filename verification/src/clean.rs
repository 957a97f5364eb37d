use vstd::prelude::*;
use crate::state::{has_unfinished_dependant, TaskState};
use crate::task::{is_done, is_success, Task, TaskResult, TaskStatus};
use crate::text::{decimal, push_decimal};
use crate::time::{
    before, current_time, hours_before, hours_before_spec, is_before, plain_instant, Instant,
    MAX_DELTA_SECS, MIN_TIMESTAMP,
};

verus! {

broadcast use vstd::laws_cmp::group_laws_cmp;

/// A request to remove finished tasks.
pub struct CleanRequest {
    /// Only remove tasks that finished successfully.
    pub successful_only: bool,
    /// Only remove tasks of this group.
    pub group: Option<String>,
    /// Only remove tasks that finished more than this many hours ago.
    pub older_than: Option<u64>,
}

/// The daemon's answer to a request.
pub enum Response {
    Success(String),
    Failure(String),
}

/// What a `clean` request did: the answer for the client, and the ids of the removed
/// tasks, in increasing order, whose logs are to be removed as well.
pub struct CleanOutcome {
    pub response: Response,
    pub removed: Vec<usize>,
}

/// The task is kept by the request's filters: it did not succeed though only
/// successful tasks are to be removed, it belongs to another group than the one
/// named, or it finished after the cutoff.
pub open spec fn skipped(t: Task, message: CleanRequest, cutoff: Option<Instant>) -> bool {
    ||| message.successful_only && !is_success(t)
    ||| (message.group matches Some(g) && g@ != t.group@)
    ||| (cutoff matches Some(c) && t.status matches TaskStatus::Done { end, .. } && before(c, end))
}

/// The task `id` is removed by the request: it has finished, no unfinished task
/// depends on it, and the request's filters do not keep it.
pub open spec fn cleaned(
    m: Map<usize, Task>,
    id: usize,
    message: CleanRequest,
    cutoff: Option<Instant>,
) -> bool {
    &&& m.contains_key(id)
    &&& is_done(m[id])
    &&& !has_unfinished_dependant(m, id)
    &&& !skipped(m[id], message, cutoff)
}

/// The ids of all tasks that the request removes.
pub open spec fn cleaned_ids(m: Map<usize, Task>, message: CleanRequest, cutoff: Option<Instant>) -> Set<
    usize,
> {
    Set::new(|id: usize| cleaned(m, id, message, cutoff))
}

/// The answer to a successful `clean` request, which repeats what was removed.
pub open spec fn success_clean_message(message: CleanRequest) -> Seq<char> {
    "All"@ + (if message.successful_only {
        " successfully"@
    } else {
        Seq::empty()
    }) + " finished tasks"@ + (match message.older_than {
        Some(hours) => " older than "@ + decimal(hours as nat) + " hours"@,
        None => Seq::empty(),
    }) + " have been removed"@ + (match message.group {
        Some(name) => " from group '"@ + name@ + "'"@,
        None => Seq::empty(),
    })
}

/// The age limit does not fit a signed 64-bit number of hours.
pub open spec fn older_than_too_large(message: CleanRequest) -> bool {
    message.older_than matches Some(hours) && hours > i64::MAX
}

/// The instant before which a task must have finished to be removed, given the time
/// `now`: `older_than` hours before `now`.
pub open spec fn clean_cutoff(message: CleanRequest, now: Instant) -> Option<Instant> {
    match message.older_than {
        Some(hours) => hours_before_spec(now, hours as int),
        None => None,
    }
}

/// `chrono` cannot go back `older_than` hours from `now`.
pub open spec fn cutoff_out_of_range(message: CleanRequest, now: Instant) -> bool {
    message.older_than matches Some(hours) && hours <= i64::MAX && hours_before_spec(
        now,
        hours as int,
    ) is None
}

/// What a `clean` request at the time `now` does to the tasks `old_m`, leaving `new_m`
/// and answering `outcome`.
pub open spec fn clean_effect(
    old_m: Map<usize, Task>,
    new_m: Map<usize, Task>,
    message: CleanRequest,
    now: Instant,
    outcome: CleanOutcome,
) -> bool {
    if older_than_too_large(message) {
        &&& outcome.response matches Response::Failure(text) && text@
            == "`older_than` value is too large."@
        &&& outcome.removed@.len() == 0
        &&& new_m == old_m
    } else {
        let removed = cleaned_ids(old_m, message, clean_cutoff(message, now));
        &&& outcome.response matches Response::Success(text) && text@ == success_clean_message(
            message,
        )
        &&& new_m == old_m.remove_keys(removed)
        &&& outcome.removed@.to_set() == removed
        &&& forall|i: int, j: int|
            0 <= i < j < outcome.removed@.len() ==> outcome.removed@[i] < outcome.removed@[j]
    }
}

/// The answer to a successful `clean` request.
pub fn construct_success_clean_message(message: &CleanRequest) -> (r: String)
    ensures
        r@ == success_clean_message(*message),
{
    let mut text = String::from_str("All");
    if message.successful_only {
        text.append(" successfully");
    }
    text.append(" finished tasks");
    if let Some(hours) = message.older_than {
        text.append(" older than ");
        push_decimal(&mut text, hours);
        text.append(" hours");
    }
    text.append(" have been removed");
    if let Some(name) = &message.group {
        text.append(" from group '");
        text.append(name.as_str());
        text.append("'");
    }
    text
}

/// Whether the request's filters keep the task.
fn should_skip(task: &Task, message: &CleanRequest, cutoff: Option<Instant>) -> (r: bool)
    ensures
        r == skipped(*task, *message, cutoff),
{
    let successful = match &task.status {
        TaskStatus::Done { result: TaskResult::Success, .. } => true,
        _ => false,
    };
    if message.successful_only && !successful {
        return true;
    }
    if let Some(name) = &message.group {
        if !name.eq(&task.group) {
            return true;
        }
    }
    if let Some(cutoff) = cutoff {
        if let TaskStatus::Done { end, .. } = &task.status {
            if is_before(cutoff, *end) {
                return true;
            }
        }
    }
    false
}

/// Removing finished tasks does not change which tasks have unfinished dependants.
proof fn lemma_unfinished_dependant_after_removal(m: Map<usize, Task>, s: Set<usize>, id: usize)
    requires
        forall|k: usize| #[trigger] s.contains(k) ==> m.contains_key(k) && is_done(m[k]),
    ensures
        has_unfinished_dependant(m.remove_keys(s), id) == has_unfinished_dependant(m, id),
{
    let r = m.remove_keys(s);
    if has_unfinished_dependant(m, id) {
        let k = choose|k: usize|
            #![trigger m[k]]
            m.contains_key(k) && !is_done(m[k]) && m[k].dependencies@.contains(id);
        assert(!s.contains(k));
        assert(r.contains_key(k) && r[k] == m[k]);
    }
    if has_unfinished_dependant(r, id) {
        let k = choose|k: usize|
            #![trigger r[k]]
            r.contains_key(k) && !is_done(r[k]) && r[k].dependencies@.contains(id);
        assert(m.contains_key(k) && r[k] == m[k]);
    }
}

/// Removes the finished tasks that `message` selects, as of the time `now`.
///
/// An age limit beyond the range of a signed 64-bit number is refused. Otherwise every
/// finished task is removed on which no unfinished task depends, unless it did not
/// succeed while only successful tasks are to go, belongs to another group than the one
/// named, or finished after the age limit.
pub fn clean_at(state: &mut TaskState, message: &CleanRequest, now: Instant) -> (outcome: CleanOutcome)
    requires
        plain_instant(now),
        !cutoff_out_of_range(*message, now),
    ensures
        clean_effect(old(state)@, final(state)@, *message, now, outcome),
{
    let cutoff = match message.older_than {
        Some(hours) => {
            if hours > 9_223_372_036_854_775_807u64 {
                return CleanOutcome {
                    response: Response::Failure(
                        String::from_str("`older_than` value is too large."),
                    ),
                    removed: Vec::new(),
                };
            }
            hours_before(now, hours as i64)
        },
        None => None,
    };
    let ghost old_m = state@;
    let ghost target = cleaned_ids(old_m, *message, cutoff);
    assert(cutoff == clean_cutoff(*message, now));

    let ids = state.done_task_ids();
    let mut removed: Vec<usize> = Vec::new();
    let mut i: usize = 0;
    while i < ids.len()
        invariant
            old_m == old(state)@,
            target == cleaned_ids(old_m, *message, cutoff),
            i <= ids@.len(),
            ids@.no_duplicates(),
            forall|a: int, b: int| 0 <= a < b < ids@.len() ==> ids@[a] < ids@[b],
            forall|a: int| 0 <= a < ids@.len() ==> old_m.contains_key(#[trigger] ids@[a]) && is_done(old_m[ids@[a]]),
            forall|k: usize| old_m.contains_key(k) && is_done(old_m[k]) ==> ids@.contains(k),
            state@ == old_m.remove_keys(removed@.to_set()),
            forall|a: int, b: int| 0 <= a < b < removed@.len() ==> removed@[a] < removed@[b],
            forall|a: int, b: int|
                #![trigger removed@[a], ids@[b]]
                0 <= a < removed@.len() && i <= b < ids@.len() ==> removed@[a] < ids@[b],
            forall|x: usize| removed@.contains(x) ==> target.contains(x),
            forall|b: int| 0 <= b < i && target.contains(#[trigger] ids@[b]) ==> removed@.contains(ids@[b]),
            forall|x: usize| #[trigger] removed@.contains(x) ==> old_m.contains_key(x) && is_done(old_m[x]),
        decreases ids@.len() - i,
    {
        let id = ids[i];
        proof {
            assert(!removed@.contains(id)) by {
                if removed@.contains(id) {
                    let a = choose|a: int| 0 <= a < removed@.len() && removed@[a] == id;
                    assert(removed@[a] < ids@[i as int]);
                }
            }
            lemma_unfinished_dependant_after_removal(old_m, removed@.to_set(), id);
            assert(state@.contains_key(id) && state@[id] == old_m[id]);
        }
        let ghost old_removed = removed@;
        if state.is_task_removable(id) {
            let skip = match state.tasks.get(&id) {
                Some(task) => should_skip(task, message, cutoff),
                None => true,
            };
            if !skip {
                state.tasks.remove(&id);
                removed.push(id);
                proof {
                    assert(removed@ == old_removed.push(id));
                    assert forall|x: usize| removed@.contains(x) <==> (old_removed.contains(x) || x == id) by {
                        if removed@.contains(x) && x != id {
                            let a = choose|a: int| 0 <= a < removed@.len() && removed@[a] == x;
                            assert(old_removed[a] == x);
                        }
                        if old_removed.contains(x) {
                            let a = choose|a: int| 0 <= a < old_removed.len() && old_removed[a] == x;
                            assert(removed@[a] == x);
                        }
                        if x == id {
                            assert(removed@[removed@.len() - 1] == x);
                        }
                    }
                    assert(removed@.to_set() =~= old_removed.to_set().insert(id));
                    assert(state@ == old_m.remove_keys(removed@.to_set()));
                }
            }
        }
        proof {
            assert forall|a: int, b: int| 0 <= a < b < removed@.len() implies removed@[a] < removed@[b] by {
                if b == old_removed.len() {
                    assert(old_removed[a] < ids@[i as int]);
                }
            }
            assert forall|a: int, b: int|
                #![trigger removed@[a], ids@[b]]
                0 <= a < removed@.len() && i + 1 <= b < ids@.len() implies removed@[a] < ids@[b] by {
                if a < old_removed.len() {
                    assert(old_removed[a] == removed@[a]);
                    assert(old_removed[a] < ids@[b]);
                } else {
                    assert(ids@[i as int] < ids@[b]);
                }
            }
            assert forall|x: usize| #[trigger] removed@.contains(x) implies old_m.contains_key(x) && is_done(old_m[x]) && target.contains(x) by {
                if !old_removed.contains(x) {
                    assert(x == id);
                }
            }
            assert forall|b: int| 0 <= b < i + 1 && target.contains(#[trigger] ids@[b]) implies removed@.contains(ids@[b]) by {
                if b < i {
                    assert(old_removed.contains(ids@[b]));
                    let a = choose|a: int| 0 <= a < old_removed.len() && old_removed[a] == ids@[b];
                    assert(removed@[a] == ids@[b]);
                } else {
                    assert(removed@[removed@.len() - 1] == id);
                }
            }
        }
        i = i + 1;
    }
    proof {
        assert forall|x: usize| removed@.to_set().contains(x) <==> target.contains(x) by {
            if target.contains(x) {
                assert(ids@.contains(x));
                let b = choose|b: int| 0 <= b < ids@.len() && ids@[b] == x;
                assert(target.contains(ids@[b]));
            }
        }
        assert(removed@.to_set() == target);
    }
    CleanOutcome {
        response: Response::Success(construct_success_clean_message(message)),
        removed,
    }
}

/// Serves a `clean` request at the time `now`: removes the finished tasks that
/// `message` selects.
///
/// `None` stands for the requests the daemon cannot serve: an age limit that `chrono`
/// cannot subtract from `now`; the tasks are then left as they are.
pub fn clean_now(state: &mut TaskState, message: &CleanRequest, now: Instant) -> (r: Option<
    CleanOutcome,
>)
    requires
        plain_instant(now),
    ensures
        r matches Some(outcome) ==> clean_effect(old(state)@, final(state)@, *message, now, outcome),
        r is None <==> cutoff_out_of_range(*message, now),
        r is None ==> final(state)@ == old(state)@,
{
    if let Some(hours) = message.older_than {
        if hours <= 9_223_372_036_854_775_807u64 {
            if hours_before(now, hours as i64).is_none() {
                return None;
            }
        }
    }
    let outcome = clean_at(state, message, now);
    Some(outcome)
}

/// `message` sets an age limit that the daemon applies: one that fits a signed 64-bit
/// number. Only then does the current time matter.
pub open spec fn age_limit_applies(message: CleanRequest) -> bool {
    message.older_than matches Some(hours) && hours <= i64::MAX
}

/// Invoked for `pueue clean`: removes the finished tasks that `message` selects, as of
/// the current time. The clock is read only when an age limit applies.
///
/// `None` when an age limit applies and the system clock cannot be read as a time after
/// the Unix epoch, or `chrono` cannot subtract the limit from the current time; the tasks
/// are then left as they are.
pub fn clean(state: &mut TaskState, message: &CleanRequest) -> (r: Option<CleanOutcome>)
    ensures
        r matches Some(outcome) ==> exists|now: Instant|
            #![trigger clean_effect(old(state)@, final(state)@, *message, now, outcome)]
            plain_instant(now) && now.secs >= 0 && clean_effect(
                old(state)@,
                final(state)@,
                *message,
                now,
                outcome,
            ),
        !age_limit_applies(*message) ==> (r matches Some(outcome) && forall|now: Instant|
            #[trigger] clean_effect(old(state)@, final(state)@, *message, now, outcome)),
        r is None ==> age_limit_applies(*message) && final(state)@ == old(state)@,
{
    let applies = match message.older_than {
        Some(hours) => hours <= 9_223_372_036_854_775_807u64,
        None => false,
    };
    if !applies {
        let ghost old_m = state@;
        let epoch = Instant { secs: 0, nanos: 0 };
        let outcome = clean_at(state, message, epoch);
        assert forall|now: Instant| #[trigger] clean_effect(old_m, state@, *message, now, outcome) by {
            assert(clean_cutoff(*message, now) == clean_cutoff(*message, epoch));
        }
        assert(clean_effect(old_m, state@, *message, epoch, outcome));
        return Some(outcome);
    }
    match current_time() {
        Some(now) => clean_now(state, message, now),
        None => None,
    }
}

/// Law: `clean` only ever removes finished tasks on which no unfinished task depends,
/// that succeeded when only successful tasks were to go and that belong to the named
/// group when one was named; every task it keeps stays as it was.
pub proof fn lemma_clean_removes_only_selected(
    old_m: Map<usize, Task>,
    new_m: Map<usize, Task>,
    message: CleanRequest,
    now: Instant,
    outcome: CleanOutcome,
)
    requires
        clean_effect(old_m, new_m, message, now, outcome),
    ensures
        forall|k: usize|
            #![trigger new_m.contains_key(k)]
            old_m.contains_key(k) && !new_m.contains_key(k) ==> {
                &&& is_done(old_m[k])
                &&& !has_unfinished_dependant(old_m, k)
                &&& message.successful_only ==> is_success(old_m[k])
                &&& message.group matches Some(g) ==> old_m[k].group@ == g@
            },
        forall|k: usize|
            #![trigger new_m.contains_key(k)]
            new_m.contains_key(k) ==> old_m.contains_key(k) && new_m[k] == old_m[k],
{
    if !older_than_too_large(message) {
        let removed = cleaned_ids(old_m, message, clean_cutoff(message, now));
        assert forall|k: usize|
            #![trigger new_m.contains_key(k)]
            old_m.contains_key(k) && !new_m.contains_key(k) implies {
                &&& is_done(old_m[k])
                &&& !has_unfinished_dependant(old_m, k)
                &&& message.successful_only ==> is_success(old_m[k])
                &&& message.group matches Some(g) ==> old_m[k].group@ == g@
            } by {
            assert(removed.contains(k));
        }
    }
}

/// Law: a task that has not finished is never removed by `clean`.
pub proof fn lemma_clean_keeps_unfinished(
    old_m: Map<usize, Task>,
    new_m: Map<usize, Task>,
    message: CleanRequest,
    now: Instant,
    outcome: CleanOutcome,
    id: usize,
)
    requires
        clean_effect(old_m, new_m, message, now, outcome),
        old_m.contains_key(id),
        !is_done(old_m[id]),
    ensures
        new_m.contains_key(id),
        new_m[id] == old_m[id],
{
    lemma_clean_removes_only_selected(old_m, new_m, message, now, outcome);
}

/// Law: without filters, `clean` removes every finished task on which no unfinished
/// task depends.
pub proof fn lemma_clean_without_filters_removes_all_finished(
    old_m: Map<usize, Task>,
    new_m: Map<usize, Task>,
    message: CleanRequest,
    now: Instant,
    outcome: CleanOutcome,
    id: usize,
)
    requires
        clean_effect(old_m, new_m, message, now, outcome),
        !message.successful_only,
        message.group is None,
        message.older_than is None,
        old_m.contains_key(id),
        is_done(old_m[id]),
        !has_unfinished_dependant(old_m, id),
    ensures
        !new_m.contains_key(id),
        outcome.removed@.contains(id),
{
    let removed = cleaned_ids(old_m, message, clean_cutoff(message, now));
    assert(removed.contains(id));
    assert(outcome.removed@.to_set().contains(id));
}

/// Law: cleaning twice with the same request at the same time removes nothing the
/// second time.
pub proof fn lemma_clean_idempotent(
    m0: Map<usize, Task>,
    m1: Map<usize, Task>,
    m2: Map<usize, Task>,
    message: CleanRequest,
    now: Instant,
    first: CleanOutcome,
    second: CleanOutcome,
)
    requires
        clean_effect(m0, m1, message, now, first),
        clean_effect(m1, m2, message, now, second),
    ensures
        m2 == m1,
        second.removed@.len() == 0,
{
    if !older_than_too_large(message) {
        let cutoff = clean_cutoff(message, now);
        let r1 = cleaned_ids(m0, message, cutoff);
        let r2 = cleaned_ids(m1, message, cutoff);
        assert forall|k: usize| #[trigger] r1.contains(k) implies m0.contains_key(k) && is_done(
            m0[k],
        ) by {}
        assert forall|id: usize| !r2.contains(id) by {
            if r2.contains(id) {
                lemma_unfinished_dependant_after_removal(m0, r1, id);
                assert(m1.contains_key(id) && m1[id] == m0[id]);
                assert(r1.contains(id));
            }
        }
        assert(r2 =~= Set::empty());
        assert(m2 =~= m1);
        if second.removed@.len() > 0 {
            assert(second.removed@.to_set().contains(second.removed@[0]));
        }
    }
}

/// Law: exactly which tasks a `clean` request removes, at the time `now`.
///
/// An age limit above `i64::MAX` is refused: the answer is the failure
/// "`older_than` value is too large.", nothing is removed and the tasks stay as they
/// were. Otherwise a task is removed exactly when it has finished, every task that
/// lists it among its dependencies has finished too, it succeeded if only successful
/// tasks are to go, it belongs to the named group if one is named, and it ended no later
/// than `older_than` hours before `now` if an age limit is set. Every other task stays
/// as it was, the answer is a success, and the removed ids come in increasing order.
pub proof fn lemma_clean_selects_exactly(
    old_m: Map<usize, Task>,
    new_m: Map<usize, Task>,
    message: CleanRequest,
    now: Instant,
    outcome: CleanOutcome,
    id: usize,
)
    requires
        clean_effect(old_m, new_m, message, now, outcome),
        message.older_than matches Some(hours) ==> hours > i64::MAX || (hours * 3600
            <= MAX_DELTA_SECS && now.secs - hours * 3600 >= MIN_TIMESTAMP),
    ensures
        message.older_than matches Some(hours) && hours > i64::MAX ==> {
            &&& outcome.response matches Response::Failure(text) && text@
                == "`older_than` value is too large."@
            &&& outcome.removed@.len() == 0
            &&& new_m == old_m
        },
        !(message.older_than matches Some(hours) && hours > i64::MAX) ==> {
            &&& outcome.response is Success
            &&& forall|i: int, j: int|
                0 <= i < j < outcome.removed@.len() ==> outcome.removed@[i] < outcome.removed@[j]
            &&& new_m.contains_key(id) ==> old_m.contains_key(id) && new_m[id] == old_m[id]
            &&& old_m.contains_key(id) ==> (outcome.removed@.contains(id) <==> !new_m.contains_key(id))
            &&& old_m.contains_key(id) ==> (!new_m.contains_key(id) <==> {
                &&& old_m[id].status is Done
                &&& forall|k: usize|
                    #![trigger old_m[k]]
                    old_m.contains_key(k) && old_m[k].dependencies@.contains(id) ==> old_m[k].status is Done
                &&& message.successful_only ==> (old_m[id].status matches TaskStatus::Done {
                    result: TaskResult::Success,
                    ..
                })
                &&& (message.group matches Some(g) ==> old_m[id].group@ == g@)
                &&& (message.older_than matches Some(hours) ==> (old_m[id].status matches TaskStatus::Done {
                    end,
                    ..
                } && (end.secs < now.secs - hours * 3600 || (end.secs == now.secs - hours * 3600
                    && end.nanos <= now.nanos))))
            })
        },
{
    if !(message.older_than matches Some(hours) && hours > i64::MAX) {
        let removed = cleaned_ids(old_m, message, clean_cutoff(message, now));
        assert(outcome.removed@.to_set() == removed);
        if old_m.contains_key(id) {
            assert(outcome.removed@.contains(id) <==> outcome.removed@.to_set().contains(id));
        }
    }
}

} // verus!
