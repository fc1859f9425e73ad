//! Per-worker overrides: tasks handed to each worker a bounded number of
//! times, ahead of the shared queue.

use std::collections::HashMap;
use vstd::prelude::*;

use crate::work::Task;

verus! {

broadcast use vstd::std_specs::hash::group_hash_axioms;

/// The abstract state of one override: its budget, how many times each
/// worker has been served it, and its task.
pub struct OverrideView {
    pub budget: i32,
    pub served: Map<i32, i32>,
    pub task: Task,
}

/// How many times worker `w` has received this override.
pub open spec fn served_count(v: OverrideView, w: i32) -> int {
    if v.served.contains_key(w) {
        v.served[w] as int
    } else {
        0
    }
}

/// The override still owes worker `w` a repetition.
pub open spec fn owes(v: OverrideView, w: i32) -> bool {
    served_count(v, w) < v.budget
}

/// Every recorded count lies between one and the budget.
pub open spec fn counts_in_budget(v: OverrideView) -> bool {
    forall|w: i32| #[trigger] v.served.contains_key(w) ==> 1 <= v.served[w] <= v.budget
}

/// `v` after serving worker `w` once more.
pub open spec fn bumped(v: OverrideView, w: i32) -> OverrideView {
    OverrideView {
        budget: v.budget,
        served: v.served.insert(w, (served_count(v, w) + 1) as i32),
        task: v.task,
    }
}

/// `i` is the first override in `s` that still owes worker `w`.
pub open spec fn is_first_owing(s: Seq<OverrideView>, w: i32, i: int) -> bool {
    &&& 0 <= i < s.len()
    &&& owes(s[i], w)
    &&& forall|j: int| 0 <= j < i ==> !owes(#[trigger] s[j], w)
}

/// The override that a request from worker `w` is served from, if any.
pub open spec fn first_owing(s: Seq<OverrideView>, w: i32) -> Option<int> {
    if exists|i: int| is_first_owing(s, w, i) {
        Some(choose|i: int| is_first_owing(s, w, i))
    } else {
        None
    }
}

/// The overrides after a request from worker `w`.
pub open spec fn serve(s: Seq<OverrideView>, w: i32) -> Seq<OverrideView> {
    match first_owing(s, w) {
        Some(i) => s.update(i, bumped(s[i], w)),
        None => s,
    }
}

/// The task that a request from worker `w` receives from the overrides.
pub open spec fn served_task(s: Seq<OverrideView>, w: i32) -> Option<Task> {
    match first_owing(s, w) {
        Some(i) => Some(s[i].task),
        None => None,
    }
}

pub proof fn lemma_first_owing_unique(s: Seq<OverrideView>, w: i32, i: int)
    requires
        is_first_owing(s, w, i),
    ensures
        first_owing(s, w) == Some(i),
{
    let j = choose|j: int| is_first_owing(s, w, j);
    if j < i {
        assert(!owes(s[j], w));
    } else if i < j {
        assert(!owes(s[i], w));
    }
}

/// The overrides after the requests of `ws`, in order.
pub open spec fn serve_run(s: Seq<OverrideView>, ws: Seq<i32>) -> Seq<OverrideView>
    decreases ws.len(),
{
    if ws.len() == 0 {
        s
    } else {
        serve(serve_run(s, ws.drop_last()), ws.last())
    }
}

/// How many of the requests in `ws` were made by worker `w` and served from
/// override `k`.
pub open spec fn times_served(s: Seq<OverrideView>, ws: Seq<i32>, k: int, w: i32) -> nat
    decreases ws.len(),
{
    if ws.len() == 0 {
        0
    } else {
        times_served(s, ws.drop_last(), k, w) + if ws.last() == w && first_owing(
            serve_run(s, ws.drop_last()),
            w,
        ) == Some(k) {
            1nat
        } else {
            0nat
        }
    }
}

proof fn lemma_serve_step(s: Seq<OverrideView>, v: i32, k: int, w: i32)
    requires
        0 <= k < s.len(),
    ensures
        serve(s, v).len() == s.len(),
        serve(s, v)[k].budget == s[k].budget,
        served_count(serve(s, v)[k], w) == served_count(s[k], w) + if v == w && first_owing(s, v)
            == Some(k) {
            1int
        } else {
            0int
        },
        v == w && first_owing(s, v) == Some(k) ==> served_count(s[k], w) < s[k].budget,
{
    match first_owing(s, v) {
        Some(i) => {
            let j = choose|j: int| is_first_owing(s, v, j);
            assert(is_first_owing(s, v, j));
            assert(i == j);
            if i != k {
                assert(serve(s, v)[k] == s[k]);
            } else {
                let b = bumped(s[k], v);
                assert(serve(s, v)[k] == b);
                if v != w {
                    assert(b.served.contains_key(w) == s[k].served.contains_key(w));
                }
            }
        },
        None => {},
    }
}

/// However requests from any mix of workers are interleaved, worker `w`
/// receives override `k`'s task at most as many times as the override's
/// budget allows: its count for `w` rises by one per delivery and never past
/// the budget (or past where it already stood).
pub proof fn lemma_budget_bounds_deliveries(s: Seq<OverrideView>, ws: Seq<i32>, k: int, w: i32)
    requires
        0 <= k < s.len(),
    ensures
        serve_run(s, ws).len() == s.len(),
        serve_run(s, ws)[k].budget == s[k].budget,
        served_count(serve_run(s, ws)[k], w) == served_count(s[k], w) + times_served(s, ws, k, w),
        served_count(s[k], w) + times_served(s, ws, k, w) <= if served_count(s[k], w)
            <= s[k].budget {
            s[k].budget as int
        } else {
            served_count(s[k], w)
        },
    decreases ws.len(),
{
    if ws.len() > 0 {
        let prev = ws.drop_last();
        lemma_budget_bounds_deliveries(s, prev, k, w);
        lemma_serve_step(serve_run(s, prev), ws.last(), k, w);
    }
}

/// A request from worker `w` passes over an override that owes `w` nothing
/// more, and leaves it as it was.
pub proof fn lemma_spent_override_skipped(s: Seq<OverrideView>, w: i32, k: int)
    requires
        0 <= k < s.len(),
        served_count(s[k], w) >= s[k].budget,
    ensures
        first_owing(s, w) != Some(k),
        serve(s, w)[k] == s[k],
{
    if first_owing(s, w) == Some(k) {
        let j = choose|j: int| is_first_owing(s, w, j);
        assert(is_first_owing(s, w, j));
    }
}

/// One override: a task that each worker receives at most `times` times.
#[derive(Clone, Debug)]
pub struct PerInstanceTask {
    already_executed: HashMap<i32, i32>,
    times: i32,
    task: Task,
}

impl View for PerInstanceTask {
    type V = OverrideView;

    closed spec fn view(&self) -> OverrideView {
        OverrideView { budget: self.times, served: self.already_executed@, task: self.task }
    }
}

impl PerInstanceTask {
    pub open spec fn wf(&self) -> bool {
        counts_in_budget(self@)
    }

    /// An override handed to each worker once.
    pub fn new(task: Task) -> (r: Self)
        ensures
            r.wf(),
            r@.budget == 1,
            r@.served == Map::<i32, i32>::empty(),
            r@.task == task,
    {
        Self::new_times(task, 1)
    }

    /// An override handed to each worker `times` times.
    pub fn new_times(task: Task, times: i32) -> (r: Self)
        ensures
            r.wf(),
            r@.budget == times,
            r@.served == Map::<i32, i32>::empty(),
            r@.task == task,
    {
        let r = Self { already_executed: HashMap::new(), times, task };
        assert(r@.served =~= Map::<i32, i32>::empty());
        r
    }

    /// Replaces the task and forgets every worker's count.
    pub fn assign_new(&mut self, task: Task)
        ensures
            final(self).wf(),
            final(self)@.budget == old(self)@.budget,
            final(self)@.served == Map::<i32, i32>::empty(),
            final(self)@.task == task,
    {
        self.already_executed.clear();
        self.task = task;
        assert(self@.served =~= Map::<i32, i32>::empty());
    }

    /// Serves worker `id` once more if the override still owes it.
    pub fn task_for(&mut self, id: i32) -> (r: Option<Task>)
        requires
            old(self).wf(),
        ensures
            final(self).wf(),
            owes(old(self)@, id) ==> r == Some(old(self)@.task) && final(self)@ == bumped(
                old(self)@,
                id,
            ),
            !owes(old(self)@, id) ==> r is None && final(self)@ == old(self)@,
    {
        let cur: i32 = match self.already_executed.get(&id) {
            Some(c) => *c,
            None => 0,
        };
        if cur >= self.times {
            return None;
        }
        self.already_executed.insert(id, cur + 1);
        Some(self.task)
    }
}

/// The ordered list of overrides.
#[derive(Clone, Debug)]
pub struct PerInstanceTasks {
    tasks: Vec<PerInstanceTask>,
}

impl View for PerInstanceTasks {
    type V = Seq<OverrideView>;

    closed spec fn view(&self) -> Seq<OverrideView> {
        self.tasks@.map_values(|t: PerInstanceTask| t@)
    }
}

impl PerInstanceTasks {
    pub open spec fn wf(&self) -> bool {
        forall|i: int| 0 <= i < self@.len() ==> counts_in_budget(#[trigger] self@[i])
    }

    /// No overrides.
    pub fn new() -> (r: Self)
        ensures
            r.wf(),
            r@ == Seq::<OverrideView>::empty(),
    {
        let r = Self { tasks: Vec::new() };
        assert(r@ =~= Seq::<OverrideView>::empty());
        r
    }

    /// Appends an override handed to each worker once.
    pub fn new_task(&mut self, task: Task)
        requires
            old(self).wf(),
        ensures
            final(self).wf(),
            final(self)@ == old(self)@.push(
                OverrideView { budget: 1, served: Map::empty(), task },
            ),
    {
        self.new_task_times(task, 1);
    }

    /// Appends an override handed to each worker `times` times. Overrides
    /// with the same task stay separate.
    pub fn new_task_times(&mut self, task: Task, times: i32)
        requires
            old(self).wf(),
        ensures
            final(self).wf(),
            final(self)@ == old(self)@.push(
                OverrideView { budget: times, served: Map::empty(), task },
            ),
    {
        let t = PerInstanceTask::new_times(task, times);
        self.tasks.push(t);
        assert(self@ =~= old(self)@.push(OverrideView { budget: times, served: Map::empty(), task }));
    }

    /// Removes every override.
    pub fn clear(&mut self)
        ensures
            final(self).wf(),
            final(self)@ == Seq::<OverrideView>::empty(),
    {
        self.tasks.clear();
        assert(self@ =~= Seq::<OverrideView>::empty());
    }

    /// Serves worker `id` from the first override that still owes it.
    pub fn task_for(&mut self, id: i32) -> (r: Option<Task>)
        requires
            old(self).wf(),
        ensures
            final(self).wf(),
            r == served_task(old(self)@, id),
            final(self)@ == serve(old(self)@, id),
    {
        let n = self.tasks.len();
        let mut i: usize = 0;
        while i < n
            invariant
                n == self.tasks@.len(),
                n == old(self)@.len(),
                i <= n,
                self.wf(),
                self@ == old(self)@,
                forall|j: int| 0 <= j < i ==> !owes(#[trigger] old(self)@[j], id),
            decreases n - i,
        {
            assert(self@[i as int] == self.tasks@[i as int]@);
            assert(self.tasks@[i as int].wf());
            let r = self.tasks[i].task_for(id);
            match r {
                Some(t) => {
                    proof {
                        assert(old(self)@[i as int] == old(self).tasks@[i as int]@);
                        assert(is_first_owing(old(self)@, id, i as int));
                        lemma_first_owing_unique(old(self)@, id, i as int);
                        assert(self@ =~= serve(old(self)@, id));
                    }
                    return Some(t);
                },
                None => {
                    assert(self@ =~= old(self)@);
                },
            }
            i = i + 1;
        }
        proof {
            assert(!exists|k: int| is_first_owing(old(self)@, id, k));
        }
        None
    }
}

} // verus!
