//! A cycle-by-cycle kitchen that stands in for a processor's execution units.
//!
//! Each chef is an execution unit that handles one kind of task and stays busy
//! for the task's duration. On every cycle the busy chefs make progress, then
//! the queue is scanned front to back and each task goes to the first free chef
//! of its kind; tasks that found no chef stay queued, in order.
use std::collections::VecDeque;
use vstd::prelude::*;

verus! {

/// The kinds of work, each with its own unit.
#[derive(Debug, Clone, Copy, PartialEq, Eq, Structural)]
pub enum TaskType {
    /// Fast work, like an add (one cycle).
    Chop,
    /// Medium work, like a multiply (three cycles).
    Grind,
    /// Slow work, like a floating-point operation (four cycles).
    Sauce,
    /// Wide work, like a vector operation (one cycle).
    Batch,
}

/// A unit of work and the number of cycles it keeps its unit busy.
#[derive(Debug, Clone, Copy, PartialEq, Eq, Structural)]
pub struct Task {
    pub task_type: TaskType,
    pub duration: u64,
}

/// The number of cycles a task of each kind takes.
pub open spec fn standard_duration(t: TaskType) -> u64 {
    match t {
        TaskType::Chop => 1,
        TaskType::Grind => 3,
        TaskType::Sauce => 4,
        TaskType::Batch => 1,
    }
}

impl Task {
    /// A task of the given kind with that kind's usual duration.
    pub fn standard(task_type: TaskType) -> (r: Task)
        ensures
            r.task_type == task_type,
            r.duration == standard_duration(task_type),
    {
        let duration: u64 = match task_type {
            TaskType::Chop => 1,
            TaskType::Grind => 3,
            TaskType::Sauce => 4,
            TaskType::Batch => 1,
        };
        Task { task_type, duration }
    }
}

/// A unit that handles one kind of task, busy for some more cycles.
#[derive(Debug, Clone, Copy, PartialEq, Eq, Structural)]
pub struct ExecutionUnit {
    pub unit_type: TaskType,
    pub busy_cycles: u64,
}

/// A unit is free when it has no cycles of work left.
pub open spec fn is_free(u: ExecutionUnit) -> bool {
    u.busy_cycles == 0
}

/// The unit after it took on a task: busy for the task's duration if the task
/// is of its kind, unchanged otherwise.
pub open spec fn took(u: ExecutionUnit, t: Task) -> ExecutionUnit {
    if u.unit_type == t.task_type {
        ExecutionUnit { unit_type: u.unit_type, busy_cycles: t.duration }
    } else {
        u
    }
}

/// The unit after one cycle of progress.
pub open spec fn ticked(u: ExecutionUnit) -> ExecutionUnit {
    if u.busy_cycles > 0 {
        ExecutionUnit { unit_type: u.unit_type, busy_cycles: (u.busy_cycles - 1) as u64 }
    } else {
        u
    }
}

impl ExecutionUnit {
    /// A free unit of the given kind.
    pub fn new(unit_type: TaskType) -> (r: ExecutionUnit)
        ensures
            r == (ExecutionUnit { unit_type, busy_cycles: 0 }),
    {
        ExecutionUnit { unit_type, busy_cycles: 0 }
    }

    /// Takes on a task of the unit's kind; a task of another kind is ignored.
    pub fn process(&mut self, task: &Task)
        ensures
            *final(self) == took(*old(self), *task),
    {
        if self.unit_type == task.task_type {
            self.busy_cycles = task.duration;
        }
    }

    /// One cycle of progress on the current task, if any.
    pub fn tick(&mut self)
        ensures
            *final(self) == ticked(*old(self)),
    {
        if self.busy_cycles > 0 {
            self.busy_cycles = self.busy_cycles - 1;
        }
    }

    /// Whether the unit can take a task now.
    pub fn is_available(&self) -> (r: bool)
        ensures
            r == is_free(*self),
    {
        self.busy_cycles == 0
    }
}

/// Whether chef `j` is free and of kind `t`.
pub open spec fn fits(chefs: Seq<ExecutionUnit>, j: int, t: TaskType) -> bool {
    is_free(chefs[j]) && chefs[j].unit_type == t
}

/// The index of the first free chef of kind `t` at or after `from`, or
/// `chefs.len()` if there is none.
pub open spec fn first_fit_from(chefs: Seq<ExecutionUnit>, t: TaskType, from: int) -> int
    decreases chefs.len() - from,
{
    if from >= chefs.len() {
        chefs.len() as int
    } else if fits(chefs, from, t) {
        from
    } else {
        first_fit_from(chefs, t, from + 1)
    }
}

/// The index of the first free chef of kind `t`, or `chefs.len()` if none.
pub open spec fn first_fit(chefs: Seq<ExecutionUnit>, t: TaskType) -> int {
    first_fit_from(chefs, t, 0)
}

/// The chefs and the tasks left queued after the first `n` tasks of `queue`
/// were offered, front to back, to the first free chef of their kind.
pub open spec fn dispatch(chefs: Seq<ExecutionUnit>, queue: Seq<Task>, n: nat) -> (Seq<
    ExecutionUnit,
>, Seq<Task>)
    decreases n,
{
    if n == 0 {
        (chefs, Seq::empty())
    } else {
        let (c, kept) = dispatch(chefs, queue, (n - 1) as nat);
        let t = queue[n - 1];
        let j = first_fit(c, t.task_type);
        if j < c.len() {
            (c.update(j, took(c[j], t)), kept)
        } else {
            (c, kept.push(t))
        }
    }
}

proof fn lemma_first_fit_from(chefs: Seq<ExecutionUnit>, t: TaskType, from: int)
    requires
        0 <= from <= chefs.len(),
        forall|k: int| 0 <= k < from ==> !fits(chefs, k, t),
    ensures
        0 <= first_fit_from(chefs, t, from) <= chefs.len(),
        first_fit_from(chefs, t, from) < chefs.len() ==> fits(chefs, first_fit_from(chefs, t, from), t),
        forall|k: int| 0 <= k < first_fit_from(chefs, t, from) ==> !fits(chefs, k, t),
    decreases chefs.len() - from,
{
    if from < chefs.len() && !fits(chefs, from, t) {
        lemma_first_fit_from(chefs, t, from + 1);
    }
}

/// The kitchen: a queue of tasks, one chef per kind, and a cycle counter.
pub struct Kitchen {
    pub queue: VecDeque<Task>,
    pub chefs: Vec<ExecutionUnit>,
    pub cycle: u64,
}

impl Kitchen {
    /// An empty queue, one free chef of each kind, at cycle zero.
    pub fn new() -> (r: Kitchen)
        ensures
            r.queue@ == Seq::<Task>::empty(),
            r.chefs@ == seq![
                ExecutionUnit { unit_type: TaskType::Chop, busy_cycles: 0 },
                ExecutionUnit { unit_type: TaskType::Grind, busy_cycles: 0 },
                ExecutionUnit { unit_type: TaskType::Sauce, busy_cycles: 0 },
                ExecutionUnit { unit_type: TaskType::Batch, busy_cycles: 0 },
            ],
            r.cycle == 0,
    {
        let chefs = vec![
            ExecutionUnit::new(TaskType::Chop),
            ExecutionUnit::new(TaskType::Grind),
            ExecutionUnit::new(TaskType::Sauce),
            ExecutionUnit::new(TaskType::Batch),
        ];
        let r = Kitchen { queue: VecDeque::new(), chefs, cycle: 0 };
        assert(r.chefs@ =~= seq![
            ExecutionUnit { unit_type: TaskType::Chop, busy_cycles: 0 },
            ExecutionUnit { unit_type: TaskType::Grind, busy_cycles: 0 },
            ExecutionUnit { unit_type: TaskType::Sauce, busy_cycles: 0 },
            ExecutionUnit { unit_type: TaskType::Batch, busy_cycles: 0 },
        ]);
        r
    }

    /// Queues a task at the back.
    pub fn add_task(&mut self, task: Task)
        ensures
            final(self).queue@ == old(self).queue@.push(task),
            final(self).chefs@ == old(self).chefs@,
            final(self).cycle == old(self).cycle,
    {
        self.queue.push_back(task);
    }

    /// One cycle: the cycle counter rises, every chef makes progress, then the
    /// queued tasks are offered front to back to the first free chef of their
    /// kind; those that found none stay queued in order.
    pub fn tick(&mut self)
        requires
            old(self).cycle < u64::MAX,
        ensures
            final(self).cycle == old(self).cycle + 1,
            (final(self).chefs@, final(self).queue@) == dispatch(
                old(self).chefs@.map_values(|u: ExecutionUnit| ticked(u)),
                old(self).queue@,
                old(self).queue@.len(),
            ),
    {
        self.cycle = self.cycle + 1;
        let ghost start = self.chefs@;
        let mut c: usize = 0;
        while c < self.chefs.len()
            invariant
                c <= self.chefs@.len(),
                self.chefs@.len() == start.len(),
                start == old(self).chefs@,
                self.cycle == old(self).cycle + 1,
                self.queue@ == old(self).queue@,
                forall|k: int| 0 <= k < c ==> self.chefs@[k] == ticked(start[k]),
                forall|k: int| c <= k < self.chefs@.len() ==> self.chefs@[k] == start[k],
            decreases self.chefs@.len() - c,
        {
            let mut chef = self.chefs[c];
            chef.tick();
            self.chefs.set(c, chef);
            c = c + 1;
        }
        let ghost fresh = self.chefs@;
        assert(fresh =~= start.map_values(|u: ExecutionUnit| ticked(u)));
        let mut kept: VecDeque<Task> = VecDeque::new();
        let mut i: usize = 0;
        while i < self.queue.len()
            invariant
                i <= self.queue@.len(),
                self.cycle == old(self).cycle + 1,
                self.queue@ == old(self).queue@,
                (self.chefs@, kept@) == dispatch(fresh, self.queue@, i as nat),
            decreases self.queue@.len() - i,
        {
            let task = self.queue[i];
            let mut j: usize = 0;
            let mut found = false;
            while j < self.chefs.len() && !found
                invariant
                    j <= self.chefs@.len(),
                    found ==> j < self.chefs@.len() && fits(self.chefs@, j as int, task.task_type),
                    forall|k: int| 0 <= k < j ==> !fits(self.chefs@, k, task.task_type),
                decreases self.chefs@.len() - j + (if found { 0int } else { 1int }),
            {
                if self.chefs[j].is_available() && self.chefs[j].unit_type == task.task_type {
                    found = true;
                } else {
                    j = j + 1;
                }
            }
            proof {
                lemma_first_fit_from(self.chefs@, task.task_type, 0);
                assert(task == self.queue@[i as int]);
            }
            if found {
                let ghost before = self.chefs@;
                assert(first_fit(before, task.task_type) == j as int);
                let mut chef = self.chefs[j];
                chef.process(&task);
                self.chefs.set(j, chef);
            } else {
                assert(first_fit(self.chefs@, task.task_type) == self.chefs@.len());
                kept.push_back(task);
            }
            i = i + 1;
        }
        self.queue = kept;
    }
}

/// The simulator's state, driven one cycle per frame by its front end.
pub struct KitchenApp {
    pub kitchen: Kitchen,
}

impl KitchenApp {
    /// A simulator with a fresh kitchen.
    pub fn new() -> (r: KitchenApp)
        ensures
            r.kitchen.queue@ == Seq::<Task>::empty(),
            r.kitchen.chefs@ == seq![
                ExecutionUnit { unit_type: TaskType::Chop, busy_cycles: 0 },
                ExecutionUnit { unit_type: TaskType::Grind, busy_cycles: 0 },
                ExecutionUnit { unit_type: TaskType::Sauce, busy_cycles: 0 },
                ExecutionUnit { unit_type: TaskType::Batch, busy_cycles: 0 },
            ],
            r.kitchen.cycle == 0,
    {
        KitchenApp { kitchen: Kitchen::new() }
    }
}

} // verus!
