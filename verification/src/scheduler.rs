//! The scheduler: a small bounded queue of tasks keyed by the tick at which
//! each is due and by the static priority of the task.

use vstd::prelude::*;
use crate::tasks::Task;
use crate::ticks::{elapsed, reached, Tick};

verus! {

/// Number of tasks that can wait for their tick at one time.
pub const SCHEDULE_CAPACITY: usize = 8;

/// A task waiting for its tick.
#[derive(Clone, Copy, Debug, PartialEq, Eq, Structural)]
pub struct Pending {
    pub task: Task,
    pub at: Tick,
}

/// Why a task was not taken by the scheduler.
#[derive(Clone, Copy, Debug, PartialEq, Eq, Structural)]
pub enum ScheduleError {
    /// Every slot of the schedule is taken.
    QueueFull,
}

/// The static priority of a task; the higher one runs first among tasks due
/// at the same tick.
///
/// The hold check continues the work of the button interrupt and ranks above
/// the tasks that drive the LEDs.
pub open spec fn priority_of(task: Task) -> int {
    match task {
        Task::HoldCheck => 2,
        Task::Blink => 1,
        Task::Dispatcher => 1,
        Task::Flash => 1,
    }
}

impl Task {
    pub fn priority(&self) -> (level: u8)
        ensures
            level == priority_of(*self),
    {
        match self {
            Task::HoldCheck => 2,
            Task::Blink => 1,
            Task::Dispatcher => 1,
            Task::Flash => 1,
        }
    }
}

/// Whether `a` runs strictly before `b` when the counter reads `now`: its
/// tick lies further back, or the ticks agree and its priority is higher.
pub open spec fn runs_before(a: Pending, b: Pending, now: Tick) -> bool {
    ||| elapsed(now, a.at) > elapsed(now, b.at)
    ||| (elapsed(now, a.at) == elapsed(now, b.at) && priority_of(a.task) > priority_of(b.task))
}

/// No waiting task is due when the counter reads `now`.
pub open spec fn none_due(waiting: Seq<Pending>, now: Tick) -> bool {
    forall|j: int| 0 <= j < waiting.len() ==> !reached((#[trigger] waiting[j]).at, now)
}

/// The task at position `k` is the one to run when the counter reads `now`:
/// it is due, it runs strictly before every due task scheduled ahead of it,
/// and no due task scheduled after it runs strictly before it.
pub open spec fn is_next_due(waiting: Seq<Pending>, now: Tick, k: int) -> bool {
    &&& 0 <= k < waiting.len()
    &&& reached(waiting[k].at, now)
    &&& forall|j: int|
        0 <= j < waiting.len() && reached((#[trigger] waiting[j]).at, now) ==> (if j < k {
            runs_before(waiting[k], waiting[j], now)
        } else {
            !runs_before(waiting[j], waiting[k], now)
        })
}

/// The schedule after `task` was offered for the tick `at`: it joins while
/// there is a free slot, and is dropped otherwise.
pub open spec fn scheduled(waiting: Seq<Pending>, task: Task, at: Tick) -> Seq<Pending> {
    if waiting.len() < SCHEDULE_CAPACITY {
        waiting.push(Pending { task, at })
    } else {
        waiting
    }
}

/// Tasks waiting for their tick, in the order in which they were scheduled.
///
/// The slots are a fixed array, so scheduling never allocates.
pub struct Scheduler {
    slots: [Pending; SCHEDULE_CAPACITY],
    taken: usize,
}

impl View for Scheduler {
    type V = Seq<Pending>;

    closed spec fn view(&self) -> Seq<Pending> {
        self.slots@.subrange(0, self.taken as int)
    }
}

impl Scheduler {
    /// The number of slots taken is within the capacity.
    pub closed spec fn wf(&self) -> bool {
        self.taken <= SCHEDULE_CAPACITY
    }

    pub fn new() -> (scheduler: Self)
        ensures
            scheduler.wf(),
            scheduler@ == Seq::<Pending>::empty(),
    {
        let free = Pending { task: Task::Blink, at: Tick { count: 0 } };
        Scheduler { slots: [free, free, free, free, free, free, free, free], taken: 0 }
    }

    pub fn len(&self) -> (n: usize)
        requires
            self.wf(),
        ensures
            n == self@.len(),
            n <= SCHEDULE_CAPACITY,
    {
        self.taken
    }

    /// Schedules `task` to run once the counter has reached `at`.
    ///
    /// Fails, and changes nothing, when every slot is taken.
    pub fn schedule(&mut self, task: Task, at: Tick) -> (taken: Result<(), ScheduleError>)
        requires
            old(self).wf(),
        ensures
            final(self).wf(),
            final(self)@ == scheduled(old(self)@, task, at),
            taken is Ok <==> old(self)@.len() < SCHEDULE_CAPACITY,
            taken is Err ==> taken == Err::<(), ScheduleError>(ScheduleError::QueueFull),
    {
        if self.taken < SCHEDULE_CAPACITY {
            self.slots[self.taken] = Pending { task, at };
            self.taken = self.taken + 1;
            Ok(())
        } else {
            Err(ScheduleError::QueueFull)
        }
    }

    /// Position of the task to run when the counter reads `now`, if one is due.
    fn find_due(&self, now: Tick) -> (found: Option<usize>)
        requires
            self.wf(),
        ensures
            found is None ==> none_due(self@, now),
            found matches Some(k) ==> is_next_due(self@, now, k as int),
    {
        let mut best: Option<usize> = None;
        let mut i: usize = 0;
        while i < self.taken
            invariant
                self.wf(),
                i <= self.taken,
                best is None ==> forall|j: int| 0 <= j < i ==> !reached((#[trigger] self@[j]).at, now),
                best matches Some(k) ==> {
                    &&& k < i
                    &&& reached(self@[k as int].at, now)
                    &&& forall|j: int|
                        0 <= j < i && reached((#[trigger] self@[j]).at, now) ==> (if j < k {
                            runs_before(self@[k as int], self@[j], now)
                        } else {
                            !runs_before(self@[j], self@[k as int], now)
                        })
                },
            decreases self.taken - i,
        {
            let entry: Pending = self.slots[i];
            if entry.at.is_reached(now) {
                match best {
                    None => {
                        best = Some(i);
                    },
                    Some(k) => {
                        let leader: Pending = self.slots[k];
                        let entry_late: u32 = now.duration_since(entry.at).ticks;
                        let leader_late: u32 = now.duration_since(leader.at).ticks;
                        if entry_late > leader_late || (entry_late == leader_late
                            && entry.task.priority() > leader.task.priority()) {
                            best = Some(i);
                        }
                    },
                }
            }
            i = i + 1;
        }
        best
    }

    /// Takes the task at position `k` out and closes the gap.
    fn take_at(&mut self, k: usize) -> (entry: Pending)
        requires
            old(self).wf(),
            k < old(self)@.len(),
        ensures
            final(self).wf(),
            entry == old(self)@[k as int],
            final(self)@ == old(self)@.remove(k as int),
    {
        let entry: Pending = self.slots[k];
        let mut i: usize = k;
        while i + 1 < self.taken
            invariant
                self.wf(),
                self.taken == old(self).taken,
                k <= i < self.taken,
                forall|j: int| 0 <= j < k ==> self.slots@[j] == old(self).slots@[j],
                forall|j: int| k <= j < i ==> self.slots@[j] == old(self).slots@[j + 1],
                forall|j: int| i <= j < self.taken ==> self.slots@[j] == old(self).slots@[j],
            decreases self.taken - i,
        {
            self.slots[i] = self.slots[i + 1];
            i = i + 1;
        }
        self.taken = self.taken - 1;
        entry
    }

    /// Takes out the task to run when the counter reads `now`.
    ///
    /// Among the tasks that are due, the one whose tick lies furthest back
    /// runs first; at the same tick the higher priority runs first, and at
    /// the same priority the one scheduled first.
    pub fn take_due(&mut self, now: Tick) -> (due: Option<Pending>)
        requires
            old(self).wf(),
        ensures
            final(self).wf(),
            due is None <==> none_due(old(self)@, now),
            due is None ==> final(self)@ == old(self)@,
            due matches Some(entry) ==> exists|k: int|
                #[trigger] is_next_due(old(self)@, now, k) && entry == old(self)@[k] && final(self)@
                    == old(self)@.remove(k),
    {
        match self.find_due(now) {
            Some(k) => {
                let entry: Pending = self.take_at(k);
                assert(is_next_due(old(self)@, now, k as int));
                Some(entry)
            },
            None => None,
        }
    }
}

/// At most one task is the next to run: the rule of [`is_next_due`] singles
/// out one position.
pub proof fn lemma_next_due_is_unique(waiting: Seq<Pending>, now: Tick, a: int, b: int)
    requires
        is_next_due(waiting, now, a),
        is_next_due(waiting, now, b),
    ensures
        a == b,
{
    if a < b {
        assert(reached(waiting[a].at, now));
        assert(runs_before(waiting[b], waiting[a], now));
    } else if b < a {
        assert(reached(waiting[b].at, now));
        assert(runs_before(waiting[a], waiting[b], now));
    }
}

/// Tasks run in the order of their ticks: no task that is due has a tick
/// further back than the one that runs next, and none with the same tick has
/// a higher priority.
pub proof fn lemma_next_due_is_earliest(waiting: Seq<Pending>, now: Tick, k: int, j: int)
    requires
        is_next_due(waiting, now, k),
        0 <= j < waiting.len(),
        reached(waiting[j].at, now),
    ensures
        elapsed(now, waiting[j].at) <= elapsed(now, waiting[k].at),
        elapsed(now, waiting[j].at) == elapsed(now, waiting[k].at) ==> priority_of(waiting[j].task)
            <= priority_of(waiting[k].task),
{
}

/// Scheduling never takes the schedule past its capacity, and past capacity
/// it changes nothing.
pub proof fn lemma_schedule_bounded(waiting: Seq<Pending>, task: Task, at: Tick)
    requires
        waiting.len() <= SCHEDULE_CAPACITY,
    ensures
        scheduled(waiting, task, at).len() <= SCHEDULE_CAPACITY,
        waiting.len() == SCHEDULE_CAPACITY ==> scheduled(waiting, task, at) == waiting,
{
}

} // verus!
