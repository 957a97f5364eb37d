use vstd::prelude::*;
use std::collections::BTreeMap;
use crate::task::{is_done, Task};
use vstd::std_specs::btree::{increasing_seq, spec_btree_map_iter};
use vstd::std_specs::cmp::OrdSpec;
use vstd::std_specs::iter::IteratorSpec;

verus! {

broadcast use vstd::laws_cmp::group_laws_cmp;

/// The daemon's tasks, by id.
pub struct TaskState {
    pub tasks: BTreeMap<usize, Task>,
}

impl View for TaskState {
    type V = Map<usize, Task>;

    open spec fn view(&self) -> Map<usize, Task> {
        self.tasks@
    }
}

/// Some task that has not finished waits for the task `id`.
pub open spec fn has_unfinished_dependant(m: Map<usize, Task>, id: usize) -> bool {
    exists|k: usize|
        #![trigger m[k]]
        m.contains_key(k) && !is_done(m[k]) && m[k].dependencies@.contains(id)
}

/// Whether `x` occurs in `v`.
pub fn vec_contains(v: &Vec<usize>, x: usize) -> (r: bool)
    ensures
        r == v@.contains(x),
{
    let mut i: usize = 0;
    while i < v.len()
        invariant
            i <= v.len(),
            forall|j: int| 0 <= j < i ==> v@[j] != x,
        decreases v.len() - i,
    {
        if v[i] == x {
            return true;
        }
        i = i + 1;
    }
    false
}

impl TaskState {
    /// A state without tasks.
    pub fn new() -> (r: Self)
        ensures
            r@ == Map::<usize, Task>::empty(),
    {
        TaskState { tasks: BTreeMap::new() }
    }

    /// The ids of the finished tasks, in increasing order.
    pub fn done_task_ids(&self) -> (r: Vec<usize>)
        ensures
            r@.no_duplicates(),
            forall|i: int, j: int| 0 <= i < j < r@.len() ==> r@[i] < r@[j],
            forall|i: int| 0 <= i < r@.len() ==> self@.contains_key(#[trigger] r@[i]) && is_done(self@[r@[i]]),
            forall|k: usize| self@.contains_key(k) && is_done(self@[k]) ==> r@.contains(k),
    {
        assert(vstd::std_specs::btree::key_obeys_cmp_spec::<usize>());
        let mut r: Vec<usize> = Vec::new();
        let ghost seq = spec_btree_map_iter(&self.tasks).remaining();
        for kv in it: self.tasks.iter()
            invariant
                it.seq() == seq,
                seq == spec_btree_map_iter(&self.tasks).remaining(),
                seq.no_duplicates(),
                r@.no_duplicates(),
                forall|i: int, j: int| 0 <= i < j < r@.len() ==> r@[i] < r@[j],
                forall|i: int| 0 <= i < r@.len() ==> self@.contains_key(#[trigger] r@[i]) && is_done(self@[r@[i]]),
                forall|j: int| 0 <= j < it.index() && is_done(*seq[j].1) ==> r@.contains(*seq[j].0),
                increasing_seq(seq.map_values(|kv: (&usize, &Task)| *kv.0)),
                forall|i: int, j: int|
                    #![trigger r@[i], seq[j]]
                    0 <= i < r@.len() && it.index() <= j < seq.len() ==> r@[i] < *seq[j].0,
        {
            let (id, task) = kv;
            let ghost n = it.index();
            proof {
                assert(seq[n] == kv);
                assert(self@.contains_key(*seq[n].0) && self@[*seq[n].0] == *seq[n].1);
                assert forall|i: int| 0 <= i < r@.len() implies r@[i] != *id by {
                    assert(r@[i] < *seq[n].0);
                }
            }
            let ghost old_r = r@;
            if task.status.is_done() {
                r.push(*id);
            }
            proof {
                assert forall|i: int, j: int| 0 <= i < j < r@.len() implies r@[i] < r@[j] by {
                    if j == old_r.len() {
                        assert(old_r[i] < *seq[n].0);
                    }
                }
                let keys = seq.map_values(|kv: (&usize, &Task)| *kv.0);
                assert forall|i: int, j: int|
                    #![trigger r@[i], seq[j]]
                    0 <= i < r@.len() && n + 1 <= j < seq.len() implies r@[i] < *seq[j].0 by {
                    assert(keys[n] == *seq[n].0 && keys[j] == *seq[j].0);
                    assert(keys[n].cmp_spec(&keys[j]) is Less);
                    if i < old_r.len() {
                        assert(old_r[i] == r@[i]);
                        assert(old_r[i] < *seq[n].0);
                    }
                }
                assert forall|j: int| 0 <= j < n + 1 && is_done(*seq[j].1) implies r@.contains(
                    *seq[j].0,
                ) by {
                    if j < n {
                        let i = choose|i: int| 0 <= i < old_r.len() && old_r[i] == *seq[j].0;
                        assert(r@[i] == *seq[j].0);
                    } else {
                        assert(r@[r@.len() - 1] == *seq[j].0);
                    }
                }
            }
        }
        proof {
            assert forall|k: usize| self@.contains_key(k) && is_done(self@[k]) implies r@.contains(k) by {
                assert(seq.contains((&k, &self@[k])));
                let j = choose|j: int| 0 <= j < seq.len() && seq[j] == (&k, &self@[k]);
                assert(is_done(*seq[j].1));
            }
        }
        r
    }

    /// Whether the task `id` may be removed: no task that has not finished depends on it,
    /// so that removing it leaves no task waiting for ever.
    pub fn is_task_removable(&self, id: usize) -> (r: bool)
        ensures
            r == !has_unfinished_dependant(self@, id),
    {
        assert(vstd::std_specs::btree::key_obeys_cmp_spec::<usize>());
        for kv in it: self.tasks.iter()
            invariant
                it.seq() == spec_btree_map_iter(&self.tasks).remaining(),
                forall|j: int| 0 <= j < it.index() ==> !(!is_done(*it.seq()[j].1) && it.seq()[j].1.dependencies@.contains(id)),
        {
            let (k, task) = kv;
            if !task.status.is_done() && vec_contains(&task.dependencies, id) {
                proof {
                    let seq = it.seq();
                    let n = it.index();
                    assert(seq[n] == kv);
                    assert(self@.contains_key(*seq[n].0) && self@[*seq[n].0] == *seq[n].1);
                    assert(self@.contains_key(*k) && !is_done(self@[*k]) && self@[*k].dependencies@.contains(id));
                }
                return false;
            }
        }
        proof {
            let seq = spec_btree_map_iter(&self.tasks).remaining();
            assert forall|k: usize| #![trigger self@[k]]
                self@.contains_key(k) implies !(!is_done(self@[k]) && self@[k].dependencies@.contains(id)) by {
                assert(seq.contains((&k, &self@[k])));
                let j = choose|j: int| 0 <= j < seq.len() && seq[j] == (&k, &self@[k]);
                assert(!(!is_done(*seq[j].1) && seq[j].1.dependencies@.contains(id)));
            }
        }
        true
    }
}

/// Law: a task is held back exactly when some task whose status is not `Done` (queued,
/// stashed, running, paused or locked) lists it among its dependencies.
pub proof fn lemma_unfinished_dependant_exact(m: Map<usize, Task>, id: usize)
    ensures
        has_unfinished_dependant(m, id) <==> exists|k: usize|
            #![trigger m[k]]
            m.contains_key(k) && !(m[k].status is Done) && m[k].dependencies@.contains(id),
{
}

} // verus!
