//! Priority-ceiling arbitration between the command task and the sampling
//! task over the shared resources.
use vstd::prelude::*;

verus! {

/// The two kinds of task.
#[derive(PartialEq, Eq, Structural, Clone, Copy, Debug)]
pub enum Task {
    /// Bound to the serial-receive interrupt.
    Command,
    /// Spawned by an arm command; runs a capture pass.
    Sampling,
}

/// The resources shared between tasks, in their global lock order.
#[derive(PartialEq, Eq, Structural, Clone, Copy, Debug)]
pub enum Resource {
    Config,
    Rx,
    Tx,
}

/// Static priority of a task; higher preempts lower.
pub open spec fn priority_of(t: Task) -> u8 {
    match t {
        Task::Command => 2,
        Task::Sampling => 1,
    }
}

/// Whether task `t` ever accesses resource `r`.
pub open spec fn uses(t: Task, r: Resource) -> bool {
    match t {
        Task::Command => true,
        Task::Sampling => r != Resource::Rx,
    }
}

pub open spec fn max_u8(a: u8, b: u8) -> u8 {
    if a >= b {
        a
    } else {
        b
    }
}

/// Ceiling of a resource: the highest priority of a task that uses it.
pub open spec fn ceiling_of(r: Resource) -> u8 {
    max_u8(
        if uses(Task::Command, r) {
            priority_of(Task::Command)
        } else {
            0
        },
        if uses(Task::Sampling, r) {
            priority_of(Task::Sampling)
        } else {
            0
        },
    )
}

/// Position of a resource in the global lock order.
pub open spec fn rank_of(r: Resource) -> u8 {
    match r {
        Resource::Config => 0,
        Resource::Rx => 1,
        Resource::Tx => 2,
    }
}

/// Effective priority of a task of base priority `base` that holds `held`.
pub open spec fn effective(base: u8, held: Seq<Resource>) -> u8
    decreases held.len(),
{
    if held.len() == 0 {
        base
    } else {
        max_u8(effective(base, held.drop_last()), ceiling_of(held.last()))
    }
}

/// Whether `held` follows the global lock order.
pub open spec fn in_lock_order(held: Seq<Resource>) -> bool {
    forall|i: int, j: int| 0 <= i < j < held.len() ==> rank_of(held[i]) < rank_of(held[j])
}

pub fn priority(t: Task) -> (p: u8)
    ensures
        p == priority_of(t),
{
    match t {
        Task::Command => 2,
        Task::Sampling => 1,
    }
}

pub fn ceiling(r: Resource) -> (c: u8)
    ensures
        c == ceiling_of(r),
{
    let a: u8 = priority(Task::Command);
    let b: u8 = if r != Resource::Rx { priority(Task::Sampling) } else { 0 };
    if a >= b {
        a
    } else {
        b
    }
}

pub fn rank(r: Resource) -> (k: u8)
    ensures
        k == rank_of(r),
{
    match r {
        Resource::Config => 0,
        Resource::Rx => 1,
        Resource::Tx => 2,
    }
}

/// The locks that one running task holds, and its effective priority.
pub struct Arbiter {
    task: Task,
    current: u8,
    held: Vec<Resource>,
    saved: Vec<u8>,
}

impl Arbiter {
    pub closed spec fn running(&self) -> Task {
        self.task
    }

    /// The resources held, in the order they were locked.
    pub closed spec fn holding(&self) -> Seq<Resource> {
        self.held@
    }

    /// The priority the running task currently runs at.
    pub closed spec fn current_priority(&self) -> u8 {
        self.current
    }

    pub closed spec fn wf(&self) -> bool {
        &&& self.current == effective(priority_of(self.task), self.held@)
        &&& self.saved@.len() == self.held@.len()
        &&& forall|j: int|
            0 <= j < self.saved@.len() ==> self.saved@[j] == effective(
                priority_of(self.task),
                self.held@.subrange(0, j),
            )
        &&& in_lock_order(self.held@)
    }

    /// A task that holds nothing, running at its own priority.
    pub fn new(task: Task) -> (a: Arbiter)
        ensures
            a.wf(),
            a.running() == task,
            a.holding() == Seq::<Resource>::empty(),
            a.current_priority() == priority_of(task),
    {
        let a = Arbiter { task, current: priority(task), held: Vec::new(), saved: Vec::new() };
        assert(a.held@ =~= Seq::<Resource>::empty());
        a
    }

    pub fn current(&self) -> (p: u8)
        ensures
            p == self.current_priority(),
    {
        self.current
    }

    /// Takes `r`, raising the effective priority to its ceiling. Resources
    /// are taken in the global lock order only.
    pub fn lock(&mut self, r: Resource)
        requires
            old(self).wf(),
            forall|i: int|
                0 <= i < old(self).holding().len() ==> rank_of(old(self).holding()[i]) < rank_of(
                    r,
                ),
        ensures
            final(self).wf(),
            final(self).running() == old(self).running(),
            final(self).holding() == old(self).holding().push(r),
            final(self).current_priority() == max_u8(old(self).current_priority(), ceiling_of(r)),
    {
        let ghost h = self.held@;
        let c = ceiling(r);
        self.saved.push(self.current);
        self.held.push(r);
        if c > self.current {
            self.current = c;
        }
        assert(self.held@.drop_last() =~= h);
        assert forall|i: int, j: int| 0 <= i < j < self.held@.len() implies rank_of(
            self.held@[i],
        ) < rank_of(self.held@[j]) by {
            if j < h.len() {
                assert(rank_of(h[i]) < rank_of(h[j]));
            } else {
                assert(old(self).holding()[i] == h[i]);
                assert(rank_of(h[i]) < rank_of(r));
            }
        }
        assert forall|j: int| 0 <= j < self.saved@.len() implies self.saved@[j] == effective(
            priority_of(self.task),
            self.held@.subrange(0, j),
        ) by {
            assert(self.held@.subrange(0, j) =~= h.subrange(0, j));
            if j == h.len() {
                assert(h.subrange(0, j) =~= h);
            }
        }
    }

    /// Releases the resource taken last and restores the effective priority
    /// that held before it was taken.
    pub fn unlock(&mut self) -> (r: Resource)
        requires
            old(self).wf(),
            old(self).holding().len() > 0,
        ensures
            final(self).wf(),
            final(self).running() == old(self).running(),
            r == old(self).holding().last(),
            final(self).holding() == old(self).holding().drop_last(),
            final(self).current_priority() == effective(
                priority_of(old(self).running()),
                old(self).holding().drop_last(),
            ),
    {
        let ghost h = self.held@;
        let n = self.held.len();
        let p = self.saved[n - 1];
        assert(h.subrange(0, n - 1) =~= h.drop_last());
        self.saved.pop();
        let r = self.held.pop().unwrap();
        self.current = p;
        assert forall|j: int| 0 <= j < self.saved@.len() implies self.saved@[j] == effective(
            priority_of(self.task),
            self.held@.subrange(0, j),
        ) by {
            assert(self.held@.subrange(0, j) =~= h.subrange(0, j));
        }
        r
    }

    /// Whether task `t`, made ready now, preempts the running task.
    pub fn preempts(&self, t: Task) -> (b: bool)
        ensures
            b == (priority_of(t) > self.current_priority()),
    {
        priority(t) > self.current
    }
}

/// The effective priority is at least the ceiling of every resource held.
pub proof fn lemma_effective_covers(base: u8, held: Seq<Resource>, i: int)
    requires
        0 <= i < held.len(),
    ensures
        effective(base, held) >= ceiling_of(held[i]),
    decreases held.len(),
{
    if i < held.len() - 1 {
        lemma_effective_covers(base, held.drop_last(), i);
    }
}

/// While a task holds a resource, no task that uses that resource can
/// preempt it: the holder's accesses are never interleaved with another's.
pub proof fn lemma_holder_not_preempted(a: Arbiter, r: Resource, t: Task)
    requires
        a.wf(),
        a.holding().contains(r),
        uses(t, r),
    ensures
        !(priority_of(t) > a.current_priority()),
{
    let i = choose|i: int| 0 <= i < a.holding().len() && a.holding()[i] == r;
    lemma_effective_covers(priority_of(a.running()), a.holding(), i);
}

/// Resources are always held in the global lock order, so no two tasks can
/// wait on each other.
pub proof fn lemma_lock_order(a: Arbiter)
    requires
        a.wf(),
    ensures
        in_lock_order(a.holding()),
{
}

} // verus!
