//! The round-robin process scheduler.
//!
//! A `Scheduler` owns an ordered ring of processes and a monotonically
//! increasing id counter.  The running process is always re-queued at the
//! tail and the next runnable one promoted from the head, so ties between
//! equally ready processes are broken strictly by queue order.  The
//! structure is not safe for concurrent mutation; every use goes through
//! the mutual-exclusion wrapper `GlobalScheduler`, which hands out the
//! whole structure only under `&mut` access.
//!
//! Each operation's effect is stated as a function on the scheduler's
//! mathematical model, so the fairness and lifecycle laws can be proved
//! once and read directly.

use vstd::prelude::*;
use crate::allocator::Allocator;
use crate::process::Id;
use crate::process::PollContext;
use crate::process::Process;
use crate::process::State;
use crate::process::spec_cond_holds;
use crate::process::spec_ready_now;
use crate::process::spec_release_process;
use crate::traps::TrapFrame;

verus! {

/// Mathematical model of a scheduler: the ring in queue order and the
/// last id handed out.
#[verifier::ext_equal]
pub struct SchedModel {
    /// The ring of processes, head first.
    pub procs: Seq<Process>,
    /// The last process id assigned, if any was.
    pub last_id: Option<Id>,
}

/// The ids of the ring's processes, in queue order.
pub open spec fn ids_of(procs: Seq<Process>) -> Seq<Id> {
    procs.map_values(|p: Process| p.id())
}

impl SchedModel {
    /// The last id handed out, as an integer; zero before the first.
    pub open spec fn last_id_int(self) -> int {
        match self.last_id {
            Some(l) => l as int,
            None => 0,
        }
    }

    /// Scheduler invariant: every process is well-formed and carries a
    /// tag in `[1, last_id]`, and tags are unique across the ring.
    pub open spec fn wf(self) -> bool {
        &&& (forall|i: int| 0 <= i < self.procs.len() ==> (#[trigger] self.procs[i]).wf())
        &&& (forall|i: int|
            0 <= i < self.procs.len() ==> 1 <= (#[trigger] self.procs[i]).id()
                <= self.last_id_int())
        &&& (forall|i: int, j: int|
            0 <= i < j < self.procs.len() ==> (#[trigger] self.procs[i]).id() != (
            #[trigger] self.procs[j]).id())
    }
}

/// The process `p` as `add` enqueues it: tag stamped into the trap frame,
/// state `Ready`.
pub open spec fn stamped(p: Process, id: Id) -> Process {
    Process { context: (TrapFrame { tpidr_el: id, ..p.context }), state: State::Ready, ..p }
}

/// Functional model of `Scheduler::add`: the next id is assigned and the
/// process appended at the tail, or nothing changes when the id space is
/// exhausted.
pub open spec fn spec_add(m: SchedModel, p: Process) -> (SchedModel, Option<Id>) {
    if m.last_id_int() == u64::MAX {
        (m, None)
    } else {
        let id = (m.last_id_int() + 1) as u64;
        (SchedModel { procs: m.procs.push(stamped(p, id)), last_id: Some(id) }, Some(id))
    }
}

/// The first position at or after `i` holding a `Running` process with
/// the given tag.
pub open spec fn find_running_from(procs: Seq<Process>, tag: Id, i: int) -> Option<int>
    decreases procs.len() - i,
{
    if i < 0 || i >= procs.len() {
        None
    } else if procs[i].state is Running && procs[i].id() == tag {
        Some(i)
    } else {
        find_running_from(procs, tag, i + 1)
    }
}

/// The position of the `Running` process carrying the given tag.
pub open spec fn spec_find_running(procs: Seq<Process>, tag: Id) -> Option<int> {
    find_running_from(procs, tag, 0)
}

/// Functional model of `Scheduler::schedule_out`: the running process
/// matching the trap frame's tag absorbs the live frame, takes the new
/// state, and moves to the tail; `false` when no process matches.
pub open spec fn spec_schedule_out(m: SchedModel, new_state: State, tf: TrapFrame) -> (
    SchedModel,
    bool,
) {
    match spec_find_running(m.procs, tf.tpidr_el) {
        None => (m, false),
        Some(i) => {
            let p2 = Process { context: tf, state: new_state, ..m.procs[i] };
            (SchedModel { procs: m.procs.remove(i).push(p2), ..m }, true)
        },
    }
}

/// The first position at or after `i` holding a process that is ready
/// under the observation `ctx`.
pub open spec fn find_ready_from(procs: Seq<Process>, ctx: PollContext, i: int) -> Option<int>
    decreases procs.len() - i,
{
    if i < 0 || i >= procs.len() {
        None
    } else if spec_ready_now(procs[i], ctx) {
        Some(i)
    } else {
        find_ready_from(procs, ctx, i + 1)
    }
}

/// The position of the first ready process under the observation `ctx`.
pub open spec fn spec_find_ready(procs: Seq<Process>, ctx: PollContext) -> Option<int> {
    find_ready_from(procs, ctx, 0)
}

/// Functional model of `Scheduler::switch_to`: the first ready process
/// becomes `Running`, moves to the head, and its saved frame becomes the
/// live frame; nothing changes when no process is ready.
pub open spec fn spec_switch_to(m: SchedModel, tf: TrapFrame, ctx: PollContext) -> (
    SchedModel,
    TrapFrame,
    Option<Id>,
) {
    match spec_find_ready(m.procs, ctx) {
        None => (m, tf, None),
        Some(i) => {
            let p2 = Process { state: State::Running, ..m.procs[i] };
            (
                SchedModel { procs: m.procs.remove(i).insert(0, p2), ..m },
                p2.context,
                Some(p2.id()),
            )
        },
    }
}

/// Functional model of `Scheduler::kill`: the running process matching
/// the trap frame's tag leaves the ring; `None` when no process matches.
pub open spec fn spec_kill(m: SchedModel, tf: TrapFrame) -> (SchedModel, Option<Id>) {
    match spec_find_running(m.procs, tf.tpidr_el) {
        None => (m, None),
        Some(i) => (SchedModel { procs: m.procs.remove(i), ..m }, Some(m.procs[i].id())),
    }
}

/// The first position at or after `i` holding a process with the given
/// tag, in any state.
pub open spec fn find_tag_from(procs: Seq<Process>, tag: Id, i: int) -> Option<int>
    decreases procs.len() - i,
{
    if i < 0 || i >= procs.len() {
        None
    } else if procs[i].id() == tag {
        Some(i)
    } else {
        find_tag_from(procs, tag, i + 1)
    }
}

/// The position of the process with the given tag, in any state.
pub open spec fn spec_find_tag(procs: Seq<Process>, tag: Id) -> Option<int> {
    find_tag_from(procs, tag, 0)
}

/// Internal scheduler struct which is not thread-safe.
pub struct Scheduler {
    processes: Vec<Process>,
    last_id: Option<Id>,
}

impl View for Scheduler {
    type V = SchedModel;

    closed spec fn view(&self) -> SchedModel {
        SchedModel { procs: self.processes@, last_id: self.last_id }
    }
}

impl Scheduler {
    /// Returns a new `Scheduler` with an empty queue.
    pub fn new() -> (r: Scheduler)
        ensures
            r@.wf(),
            r@.procs =~= Seq::<Process>::empty(),
            r@.last_id is None,
    {
        Scheduler { processes: Vec::new(), last_id: None }
    }

    /// Adds a process to the scheduler's queue and returns that process's
    /// ID, newly assigned and saved in its trap frame, with its state set
    /// to `Ready`.  Returns `None`, changing nothing, if no further
    /// processes can be scheduled.
    pub fn add(&mut self, process: Process) -> (r: Option<Id>)
        requires
            old(self)@.wf(),
            process.wf(),
        ensures
            final(self)@.wf(),
            ({
                let (m2, rid) = spec_add(old(self)@, process);
                final(self)@ =~~= m2 && r == rid
            }),
            r matches Some(id) ==> id == old(self)@.last_id_int() + 1,
    {
        let id: u64 = match self.last_id {
            None => 1,
            Some(l) => {
                if l == u64::MAX {
                    return None;
                }
                l + 1
            },
        };
        self.last_id = Some(id);
        let mut process = process;
        process.context.tpidr_el = id;
        process.state = State::Ready;
        self.processes.push(process);
        proof {
            assert(self@ =~~= spec_add(old(self)@, process).0);
            assert forall|i: int, j: int|
                0 <= i < j < self@.procs.len() implies (#[trigger] self@.procs[i]).id() != (
            #[trigger] self@.procs[j]).id() by {
                if j == self@.procs.len() - 1 {
                    assert(self@.procs[i].id() <= old(self)@.last_id_int());
                }
            }
        }
        Some(id)
    }

    /// Finds the running process whose tag matches the live trap frame,
    /// saves the frame into it, sets its state to `new_state`, and moves
    /// it to the tail of the queue.  `new_state` is what the process
    /// leaves `Running` for: `Ready`, `Waiting` or `Dead`.  Returns
    /// whether a match was found; no match is a normal outcome before any
    /// process has run.
    pub fn schedule_out(&mut self, new_state: State, tf: &mut TrapFrame) -> (r: bool)
        requires
            old(self)@.wf(),
            !(new_state is Running),
        ensures
            final(self)@.wf(),
            *final(tf) == *old(tf),
            ({
                let (m2, found) = spec_schedule_out(old(self)@, new_state, *old(tf));
                final(self)@ =~~= m2 && r == found
            }),
    {
        let ghost m0 = self@;
        let n = self.processes.len();
        let mut i: usize = 0;
        while i < n
            invariant
                self@ == m0,
                m0 == old(self)@,
                *tf == *old(tf),
                !(new_state is Running),
                m0.wf(),
                n == m0.procs.len(),
                i <= n,
                find_running_from(m0.procs, tf.tpidr_el, 0) == find_running_from(
                    m0.procs,
                    tf.tpidr_el,
                    i as int,
                ),
            decreases n - i,
        {
            let cand = &self.processes[i];
            let is_running = match cand.state {
                State::Running => true,
                _ => false,
            };
            if is_running && cand.context.tpidr_el == tf.tpidr_el {
                let mut p = self.processes.remove(i);
                p.state = new_state;
                p.context = *tf;
                self.processes.push(p);
                proof {
                    assert(find_running_from(m0.procs, tf.tpidr_el, i as int) == Some(i as int));
                    assert(self@.procs =~= m0.procs.remove(i as int).push(p));
                    assert(self@ =~~= spec_schedule_out(m0, new_state, *tf).0);
                    lemma_remove_push_wf(m0, i as int, p);
                }
                return true;
            }
            i = i + 1;
        }
        proof {
            assert(find_running_from(m0.procs, tf.tpidr_el, n as int) is None);
        }
        false
    }

    /// Finds the first process that is ready under the observation `ctx`,
    /// makes it `Running`, moves it to the head of the queue, and
    /// restores its saved trap frame into the live one.  Returns its id,
    /// or `None`, changing nothing, when no process is ready.
    pub fn switch_to(&mut self, tf: &mut TrapFrame, ctx: &PollContext) -> (r: Option<Id>)
        requires
            old(self)@.wf(),
        ensures
            final(self)@.wf(),
            ({
                let (m2, tf2, rid) = spec_switch_to(old(self)@, *old(tf), *ctx);
                final(self)@ =~~= m2 && *final(tf) == tf2 && r == rid
            }),
    {
        let ghost m0 = self@;
        let n = self.processes.len();
        let mut i: usize = 0;
        while i < n
            invariant
                self@ == m0,
                m0 == old(self)@,
                *tf == *old(tf),
                m0.wf(),
                n == m0.procs.len(),
                i <= n,
                find_ready_from(m0.procs, *ctx, 0) == find_ready_from(m0.procs, *ctx, i as int),
            decreases n - i,
        {
            let ghost pold = self.processes@[i as int];
            let p = &mut self.processes[i];
            let ready = p.is_ready(ctx);
            if ready {
                p.state = State::Running;
                proof {
                    assert(*p == (Process { state: State::Running, ..pold }));
                }
                let q = self.processes.remove(i);
                *tf = q.context;
                self.processes.insert(0, q);
                proof {
                    assert(find_ready_from(m0.procs, *ctx, i as int) == Some(i as int));
                    assert(self@.procs =~= m0.procs.remove(i as int).insert(
                        0,
                        Process { state: State::Running, ..m0.procs[i as int] },
                    ));
                    assert(self@ =~~= spec_switch_to(m0, *old(tf), *ctx).0);
                    lemma_remove_insert_wf(m0, i as int);
                }
                return Some(tf.tpidr_el);
            }
            proof {
                assert(self.processes@ =~= m0.procs);
            }
            i = i + 1;
        }
        proof {
            assert(find_ready_from(m0.procs, *ctx, n as int) is None);
        }
        None
    }

    /// Kills the running process matching the live trap frame: sets its
    /// state to `Dead`, releases its kernel stack, backing pages and page
    /// table back to the allocator, removes it from the queue, and
    /// returns its id.  Returns `None`, changing nothing, when no running
    /// process matches.
    pub fn kill(&mut self, tf: &mut TrapFrame, alloc: &mut Allocator) -> (r: Option<Id>)
        requires
            old(self)@.wf(),
            old(alloc)@.wf(),
        ensures
            final(self)@.wf(),
            final(alloc)@.wf(),
            *final(tf) == *old(tf),
            ({
                let (m2, rid) = spec_kill(old(self)@, *old(tf));
                final(self)@ =~~= m2 && r == rid
            }),
            match spec_find_running(old(self)@.procs, old(tf).tpidr_el) {
                Some(i) => final(alloc)@ =~~= spec_release_process(
                    old(alloc)@,
                    old(self)@.procs[i],
                ),
                None => *final(alloc) == *old(alloc),
            },
    {
        let ghost m0 = self@;
        let n = self.processes.len();
        let mut i: usize = 0;
        while i < n
            invariant
                self@ == m0,
                m0 == old(self)@,
                *tf == *old(tf),
                m0.wf(),
                alloc@.wf(),
                *alloc == *old(alloc),
                n == m0.procs.len(),
                i <= n,
                find_running_from(m0.procs, tf.tpidr_el, 0) == find_running_from(
                    m0.procs,
                    tf.tpidr_el,
                    i as int,
                ),
            decreases n - i,
        {
            let cand = &self.processes[i];
            let is_running = match cand.state {
                State::Running => true,
                _ => false,
            };
            if is_running && cand.context.tpidr_el == tf.tpidr_el {
                let mut p = self.processes.remove(i);
                let id = p.context.tpidr_el;
                p.state = State::Dead;
                proof {
                    assert(find_running_from(m0.procs, tf.tpidr_el, i as int) == Some(i as int));
                    assert(self@.procs =~= m0.procs.remove(i as int));
                    assert(self@ =~~= spec_kill(m0, *tf).0);
                    lemma_remove_wf(m0, i as int);
                }
                p.release(alloc);
                return Some(id);
            }
            i = i + 1;
        }
        proof {
            assert(find_running_from(m0.procs, tf.tpidr_el, n as int) is None);
        }
        None
    }

    /// The process at position `i` of the queue, as `find_process`
    /// reports positions.
    pub fn get_process(&self, i: usize) -> (r: &Process)
        requires
            i < self@.procs.len(),
        ensures
            *r == self@.procs[i as int],
    {
        &self.processes[i]
    }

    /// The number of processes in the queue.
    pub fn len(&self) -> (r: usize)
        ensures
            r == self@.procs.len(),
    {
        self.processes.len()
    }

    /// Finds the position of the process whose tag is saved in the given
    /// trap frame.  `None` means the frame claims a tag no process in the
    /// ring owns, which the caller must treat as a detected
    /// inconsistency.
    pub fn find_process(&self, tf: &TrapFrame) -> (r: Option<usize>)
        requires
            self@.wf(),
        ensures
            ({
                match spec_find_tag(self@.procs, tf.tpidr_el) {
                    Some(i) => r == Some(i as usize) && 0 <= i < self@.procs.len()
                        && self@.procs[i].id() == tf.tpidr_el,
                    None => r is None && (forall|i: int|
                        0 <= i < self@.procs.len() ==> (#[trigger] self@.procs[i]).id()
                            != tf.tpidr_el),
                }
            }),
    {
        let ghost m0 = self@;
        let n = self.processes.len();
        let mut i: usize = 0;
        while i < n
            invariant
                self@ == m0,
                n == m0.procs.len(),
                i <= n,
                find_tag_from(m0.procs, tf.tpidr_el, 0) == find_tag_from(
                    m0.procs,
                    tf.tpidr_el,
                    i as int,
                ),
                forall|j: int| 0 <= j < i ==> (#[trigger] m0.procs[j]).id() != tf.tpidr_el,
            decreases n - i,
        {
            let cand = &self.processes[i];
            if cand.context.tpidr_el == tf.tpidr_el {
                return Some(i);
            }
            i = i + 1;
        }
        None
    }
}

/// Process scheduler for the entire machine: the mutual-exclusion wrapper
/// around the local scheduler, with a documented
/// initialize-before-use lifecycle.  Exclusive access is expressed here
/// by `&mut` ownership; the surrounding system holds this structure
/// behind its one lock and acquires it for the duration of each call.
pub struct GlobalScheduler {
    inner: Option<Scheduler>,
}

impl GlobalScheduler {
    /// Whether `initialize` has run.
    pub closed spec fn is_initialized(self) -> bool {
        self.inner is Some
    }

    /// The model of the wrapped scheduler.
    pub closed spec fn sched(self) -> SchedModel
        recommends
            self.is_initialized(),
    {
        self.inner.unwrap()@
    }

    /// The wrapped scheduler, once installed, satisfies its invariant.
    pub open spec fn wf(self) -> bool {
        self.is_initialized() ==> self.sched().wf()
    }

    /// Returns an uninitialized wrapper around a local scheduler.
    pub fn uninitialized() -> (r: GlobalScheduler)
        ensures
            !r.is_initialized(),
            r.wf(),
    {
        GlobalScheduler { inner: None }
    }

    /// Installs an empty scheduler.  The boot sequence seeds it with
    /// `add` afterwards; every other method requires this to have run.
    pub fn initialize(&mut self)
        ensures
            final(self).is_initialized(),
            final(self).wf(),
            final(self).sched().procs =~= Seq::<Process>::empty(),
            final(self).sched().last_id is None,
    {
        self.inner = Some(Scheduler::new());
    }

    /// Adds a process to the scheduler's queue and returns that process's
    /// ID.  For more details, see the documentation on `Scheduler::add()`.
    pub fn add(&mut self, process: Process) -> (r: Option<Id>)
        requires
            old(self).is_initialized(),
            old(self).wf(),
            process.wf(),
        ensures
            final(self).is_initialized(),
            final(self).wf(),
            ({
                let (m2, rid) = spec_add(old(self).sched(), process);
                final(self).sched() =~~= m2 && r == rid
            }),
    {
        match &mut self.inner {
            Some(s) => s.add(process),
            None => {
                proof {
                    assert(false);
                }
                None
            },
        }
    }

    /// Performs a context switch using `tf` by scheduling the current
    /// process out into `new_state` and switching the first ready process
    /// in.  For more details, see the documentation on
    /// `Scheduler::schedule_out()` and `Scheduler::switch_to()`.
    pub fn switch(&mut self, new_state: State, tf: &mut TrapFrame, ctx: &PollContext) -> (r: Option<
        Id,
    >)
        requires
            old(self).is_initialized(),
            old(self).wf(),
            !(new_state is Running),
        ensures
            final(self).is_initialized(),
            final(self).wf(),
            ({
                let (m1, found) = spec_schedule_out(old(self).sched(), new_state, *old(tf));
                let (m2, tf2, rid) = spec_switch_to(m1, *old(tf), *ctx);
                final(self).sched() =~~= m2 && *final(tf) == tf2 && r == rid
            }),
    {
        match &mut self.inner {
            Some(s) => {
                s.schedule_out(new_state, tf);
                s.switch_to(tf, ctx)
            },
            None => {
                proof {
                    assert(false);
                }
                None
            },
        }
    }

    /// One scheduling pass: switches the first ready process in and
    /// returns its id, or `None` when no process is ready.  The caller
    /// loops, waiting for an event between passes; a new pass is
    /// guaranteed at the next timer tick.
    pub fn switch_to(&mut self, tf: &mut TrapFrame, ctx: &PollContext) -> (r: Option<Id>)
        requires
            old(self).is_initialized(),
            old(self).wf(),
        ensures
            final(self).is_initialized(),
            final(self).wf(),
            ({
                let (m2, tf2, rid) = spec_switch_to(old(self).sched(), *old(tf), *ctx);
                final(self).sched() =~~= m2 && *final(tf) == tf2 && r == rid
            }),
    {
        match &mut self.inner {
            Some(s) => s.switch_to(tf, ctx),
            None => {
                proof {
                    assert(false);
                }
                None
            },
        }
    }

    /// Kills the running process matching `tf` and returns its ID.  For
    /// more details, see the documentation on `Scheduler::kill()`.
    pub fn kill(&mut self, tf: &mut TrapFrame, alloc: &mut Allocator) -> (r: Option<Id>)
        requires
            old(self).is_initialized(),
            old(self).wf(),
            old(alloc)@.wf(),
        ensures
            final(self).is_initialized(),
            final(self).wf(),
            final(alloc)@.wf(),
            *final(tf) == *old(tf),
            ({
                let (m2, rid) = spec_kill(old(self).sched(), *old(tf));
                final(self).sched() =~~= m2 && r == rid
            }),
            match spec_find_running(old(self).sched().procs, old(tf).tpidr_el) {
                Some(i) => final(alloc)@ =~~= spec_release_process(
                    old(alloc)@,
                    old(self).sched().procs[i],
                ),
                None => *final(alloc) == *old(alloc),
            },
    {
        match &mut self.inner {
            Some(s) => s.kill(tf, alloc),
            None => {
                proof {
                    assert(false);
                }
                None
            },
        }
    }
}

/// A search for a running process reports a position in range holding a
/// `Running` process with the sought tag, behind no earlier match.
pub proof fn lemma_find_running_props(procs: Seq<Process>, tag: Id, i0: int)
    requires
        0 <= i0,
    ensures
        match find_running_from(procs, tag, i0) {
            Some(i) => i0 <= i < procs.len() && procs[i].state is Running && procs[i].id() == tag,
            None => forall|j: int|
                i0 <= j < procs.len() ==> !((#[trigger] procs[j]).state is Running && procs[j].id()
                    == tag),
        },
    decreases procs.len() - i0,
{
    if i0 < procs.len() {
        lemma_find_running_props(procs, tag, i0 + 1);
    }
}

/// A search for a ready process reports a position in range holding a
/// process that is ready under the observation, behind no earlier one.
pub proof fn lemma_find_ready_props(procs: Seq<Process>, ctx: PollContext, i0: int)
    requires
        0 <= i0,
    ensures
        match find_ready_from(procs, ctx, i0) {
            Some(i) => i0 <= i < procs.len() && spec_ready_now(procs[i], ctx),
            None => forall|j: int|
                i0 <= j < procs.len() ==> !spec_ready_now(#[trigger] procs[j], ctx),
        },
    decreases procs.len() - i0,
{
    if i0 < procs.len() {
        lemma_find_ready_props(procs, ctx, i0 + 1);
    }
}

/// Law: process ids are monotonic.  Successive additions hand out
/// strictly increasing ids, never zero, and each new id exceeds the id of
/// every process already in the ring.
pub proof fn lemma_monotonic_ids(m: SchedModel, p1: Process, p2: Process)
    requires
        m.wf(),
    ensures
        ({
            let (m1, r1) = spec_add(m, p1);
            let (m2, r2) = spec_add(m1, p2);
            &&& (r1 matches Some(id1) ==> id1 > 0 && (forall|i: int|
                0 <= i < m.procs.len() ==> (#[trigger] m.procs[i]).id() < id1))
            &&& ((r1 is Some && r2 is Some) ==> r1.unwrap() < r2.unwrap())
        }),
{
}

/// Law: with no processes, a scheduling pass selects nothing and changes
/// nothing; selections can begin only after an addition.
pub proof fn lemma_empty_no_selection(m: SchedModel, tf: TrapFrame, ctx: PollContext)
    requires
        m.procs.len() == 0,
    ensures
        spec_switch_to(m, tf, ctx) == (m, tf, None::<Id>),
{
}

/// Law: round-robin fairness, first selection.  When every process is
/// `Ready` and none is running, a switch cycle finds nothing to schedule
/// out and selects the head of the ring; the ring order is unchanged.
pub proof fn lemma_round_robin_first(m: SchedModel, tf: TrapFrame, ctx: PollContext)
    requires
        m.wf(),
        m.procs.len() > 0,
        forall|i: int| 0 <= i < m.procs.len() ==> (#[trigger] m.procs[i]).state is Ready,
    ensures
        ({
            let (m1, found) = spec_schedule_out(m, State::Ready, tf);
            let (m2, tf2, rid) = spec_switch_to(m1, tf, ctx);
            let len = m.procs.len() as int;
            &&& !found
            &&& m1 == m
            &&& rid == Some(ids_of(m.procs)[0])
            &&& ids_of(m2.procs) =~= ids_of(m.procs)
            &&& m2.wf()
            &&& m2.procs.len() == len
            &&& m2.procs[0].state is Running
            &&& tf2.tpidr_el == m2.procs[0].id()
            &&& (forall|i: int| 1 <= i < len ==> (#[trigger] m2.procs[i]).state is Ready)
        }),
{
    lemma_find_running_props(m.procs, tf.tpidr_el, 0);
    let (m1, found) = spec_schedule_out(m, State::Ready, tf);
    assert(m1 == m);
    let p2 = Process { state: State::Running, ..m.procs[0] };
    assert(spec_ready_now(m.procs[0], ctx));
    assert(spec_find_ready(m.procs, ctx) == Some(0int));
    let (m2, tf2, rid) = spec_switch_to(m1, tf, ctx);
    assert(m2.procs =~= m.procs.update(0, p2));
    assert(ids_of(m2.procs) =~= ids_of(m.procs));
    lemma_remove_insert_wf(m, 0);
    assert(m2.procs =~= m.procs.remove(0).insert(0, p2));
}

/// Law: round-robin fairness, steady state.  With the head running under
/// the live frame's tag and every other process `Ready`, one switch cycle
/// re-queues the head at the tail and selects the next process in queue
/// order: the ring of ids rotates by one, and the cycle's preconditions
/// hold again for the next cycle.
pub proof fn lemma_round_robin_cycle(m: SchedModel, tf: TrapFrame, ctx: PollContext)
    requires
        m.wf(),
        m.procs.len() > 0,
        m.procs[0].state is Running,
        tf.tpidr_el == m.procs[0].id(),
        forall|i: int| 1 <= i < m.procs.len() ==> (#[trigger] m.procs[i]).state is Ready,
    ensures
        ({
            let (m1, found) = spec_schedule_out(m, State::Ready, tf);
            let (m2, tf2, rid) = spec_switch_to(m1, tf, ctx);
            let len = m.procs.len() as int;
            &&& found
            &&& rid == Some(ids_of(m.procs)[1int % len])
            &&& ids_of(m2.procs) =~= ids_of(m.procs).subrange(1, len).push(ids_of(m.procs)[0])
            &&& m2.wf()
            &&& m2.procs.len() == len
            &&& m2.procs[0].state is Running
            &&& tf2.tpidr_el == m2.procs[0].id()
            &&& (forall|i: int| 1 <= i < len ==> (#[trigger] m2.procs[i]).state is Ready)
        }),
{
    let len = m.procs.len() as int;
    assert(spec_find_running(m.procs, tf.tpidr_el) == Some(0int));
    let p0 = Process { context: tf, state: State::Ready, ..m.procs[0] };
    let (m1, found) = spec_schedule_out(m, State::Ready, tf);
    assert(m1.procs == m.procs.remove(0).push(p0));
    assert(forall|i: int|
        0 <= i < len - 1 ==> #[trigger] m1.procs[i] == m.procs[i + 1]);
    assert(m1.procs[len - 1] == p0);
    lemma_remove_push_wf(m, 0, p0);
    assert(spec_ready_now(m1.procs[0], ctx));
    assert(spec_find_ready(m1.procs, ctx) == Some(0int));
    let p2 = Process { state: State::Running, ..m1.procs[0] };
    let (m2, tf2, rid) = spec_switch_to(m1, tf, ctx);
    assert(m2.procs =~= m1.procs.update(0, p2));
    assert(rid == Some(m1.procs[0].id()));
    assert(ids_of(m.procs)[1int % len] == m.procs[1int % len].id());
    assert(ids_of(m2.procs) =~= ids_of(m.procs).subrange(1, len).push(ids_of(m.procs)[0])) by {
        assert(forall|i: int| 0 <= i < len ==> ids_of(m2.procs)[i] == (#[trigger] m2.procs[i]).id());
    }
    lemma_remove_insert_wf(m1, 0);
    assert(m2.procs =~= m1.procs.remove(0).insert(0, p2));
    assert(m2.procs.len() == len);
    assert(m2.procs[0].state is Running);
    assert(tf2.tpidr_el == m2.procs[0].id());
    assert(m2.wf());
    assert(forall|i: int| 1 <= i < len ==> (#[trigger] m2.procs[i]).state is Ready);
    if len == 1 {
        assert(m1.procs[0] == p0);
        assert(p0.id() == m.procs[0].id());
        assert(ids_of(m.procs)[0int] == m.procs[0int].id());
        assert(1int % len == 0);

    } else {
        assert(m1.procs[0] == m.procs[1]);
        assert(ids_of(m.procs)[1int] == m.procs[1int].id());
        vstd::arithmetic::div_mod::lemma_small_mod(1nat, len as nat);
        assert(1int % len == 1);
    }
    assert(rid == Some(ids_of(m.procs)[1int % len]));
    assert(ids_of(m2.procs) =~= ids_of(m.procs).subrange(1, len).push(ids_of(m.procs)[0]));
    assert(found);
}

/// One full preemption cycle as the timer handler drives it: the current
/// process is scheduled out as `Ready` and the next one switched in.
pub open spec fn spec_cycle(m: SchedModel, tf: TrapFrame, ctx: PollContext) -> (
    SchedModel,
    TrapFrame,
    Option<Id>,
) {
    let (m1, found) = spec_schedule_out(m, State::Ready, tf);
    spec_switch_to(m1, tf, ctx)
}

/// The selections of `k` successive preemption cycles, in order.
pub open spec fn spec_cycle_ids(m: SchedModel, tf: TrapFrame, ctx: PollContext, k: nat) -> Seq<
    Option<Id>,
>
    decreases k,
{
    if k == 0 {
        Seq::empty()
    } else {
        let (m2, tf2, rid) = spec_cycle(m, tf, ctx);
        Seq::empty().push(rid) + spec_cycle_ids(m2, tf2, ctx, (k - 1) as nat)
    }
}

/// The steady state between preemption cycles: the head of the ring runs
/// under the live frame's tag and everything else is `Ready`.
pub open spec fn steady_state(m: SchedModel, tf: TrapFrame) -> bool {
    &&& m.wf()
    &&& m.procs.len() > 0
    &&& m.procs[0].state is Running
    &&& tf.tpidr_el == m.procs[0].id()
    &&& (forall|i: int| 1 <= i < m.procs.len() ==> (#[trigger] m.procs[i]).state is Ready)
}

proof fn lemma_cycles_from_steady(m: SchedModel, tf: TrapFrame, ctx: PollContext, k: nat)
    requires
        steady_state(m, tf),
    ensures
        ({
            let len = m.procs.len() as int;
            spec_cycle_ids(m, tf, ctx, k) =~= Seq::new(
                k,
                |i: int| Some(ids_of(m.procs)[(i + 1) % len]),
            )
        }),
    decreases k,
{
    let len = m.procs.len() as int;
    if k > 0 {
        lemma_round_robin_cycle(m, tf, ctx);
        let (m1, found) = spec_schedule_out(m, State::Ready, tf);
        let (m2, tf2, rid) = spec_switch_to(m1, tf, ctx);
        lemma_cycles_from_steady(m2, tf2, ctx, (k - 1) as nat);
        let ids = ids_of(m.procs);
        let ids2 = ids_of(m2.procs);
        assert(ids2 =~= ids.subrange(1, len).push(ids[0]));
        assert forall|j: int| 0 <= j < len implies ids2[j] == ids[(j + 1) % len] by {
            if j < len - 1 {
                vstd::arithmetic::div_mod::lemma_small_mod((j + 1) as nat, len as nat);
            } else {
                assert((j + 1) % len == 0) by {
                    vstd::arithmetic::div_mod::lemma_mod_self_0(len);
                }
            }
        }
        let rest = spec_cycle_ids(m2, tf2, ctx, (k - 1) as nat);
        assert forall|i: int| 0 <= i < k - 1 implies rest[i] == Some(ids[(i + 2) % len]) by {
            assert(rest[i] == Some(ids2[(i + 1) % len]));
            vstd::arithmetic::div_mod::lemma_mod_bound(i + 1, len);
            assert(ids2[(i + 1) % len] == ids[((i + 1) % len + 1) % len]);
            assert(((i + 1) % len + 1) % len == (i + 2) % len) by {
                vstd::arithmetic::div_mod::lemma_add_mod_noop(i + 1, 1, len);
                if len == 1 {
                    vstd::arithmetic::div_mod::lemma_mod_division_less_than_divisor(
                        (i + 1) % len + 1,
                        len,
                    );
                    vstd::arithmetic::div_mod::lemma_mod_division_less_than_divisor(i + 2, len);
                } else {
                    vstd::arithmetic::div_mod::lemma_small_mod(1nat, len as nat);
                }
            }
        }
    }
}

/// Law: round-robin fairness, indefinitely.  Starting with every process
/// `Ready` and none ever entering a wait, any number of preemption
/// cycles selects the ring's ids in queue order, cyclically, forever:
/// the `j`-th cycle selects the id at position `j` modulo the ring size.
pub proof fn lemma_round_robin_fair(m: SchedModel, tf: TrapFrame, ctx: PollContext, k: nat)
    requires
        m.wf(),
        m.procs.len() > 0,
        forall|i: int| 0 <= i < m.procs.len() ==> (#[trigger] m.procs[i]).state is Ready,
    ensures
        ({
            let len = m.procs.len() as int;
            spec_cycle_ids(m, tf, ctx, k) =~= Seq::new(
                k,
                |j: int| Some(ids_of(m.procs)[j % len]),
            )
        }),
{
    let len = m.procs.len() as int;
    if k > 0 {
        lemma_round_robin_first(m, tf, ctx);
        let (m1, found) = spec_schedule_out(m, State::Ready, tf);
        let (m2, tf2, rid) = spec_switch_to(m1, tf, ctx);
        assert(steady_state(m2, tf2));
        lemma_cycles_from_steady(m2, tf2, ctx, (k - 1) as nat);
        let ids = ids_of(m.procs);
        let ids2 = ids_of(m2.procs);
        assert(ids2 =~= ids);
        let all = spec_cycle_ids(m, tf, ctx, k);
        let rest = spec_cycle_ids(m2, tf2, ctx, (k - 1) as nat);
        assert forall|j: int| 0 <= j < k implies all[j] == Some(ids[j % len]) by {
            if j == 0 {
                vstd::arithmetic::div_mod::lemma_small_mod(0nat, len as nat);
                assert(all[0] == rid);
            } else {
                assert(all[j] == rest[j - 1]);
                assert(rest[j - 1] == Some(ids2[((j - 1) + 1) % len]));
            }
        }
    }
}

/// Law: waiting gates scheduling.  A process whose wait condition fails
/// under the observation is never the one a pass selects; and a lone
/// waiting process is selected, and only then reads as `Running`, exactly
/// when its condition has come true.
pub proof fn lemma_waiting_gating(m: SchedModel, tf: TrapFrame, ctx: PollContext, i: int)
    requires
        m.wf(),
        0 <= i < m.procs.len(),
        m.procs[i].state matches State::Waiting(c) && !spec_cond_holds(c, ctx),
    ensures
        spec_switch_to(m, tf, ctx).2 != Some(m.procs[i].id()),
        m.procs.len() == 1 ==> spec_switch_to(m, tf, ctx) == (m, tf, None::<Id>),
{
    lemma_find_ready_props(m.procs, ctx, 0);
    match spec_find_ready(m.procs, ctx) {
        None => {},
        Some(j) => {
            assert(j != i);
            assert(m.procs[j].id() != m.procs[i].id());
        },
    }
}

/// Law: a lone waiting process is selected exactly when its condition
/// holds, and only upon selection does its state become `Running`.
pub proof fn lemma_waiting_release(m: SchedModel, tf: TrapFrame, ctx: PollContext)
    requires
        m.wf(),
        m.procs.len() == 1,
        m.procs[0].state matches State::Waiting(c) && spec_cond_holds(c, ctx),
    ensures
        ({
            let (m2, tf2, rid) = spec_switch_to(m, tf, ctx);
            &&& rid == Some(m.procs[0].id())
            &&& m2.procs[0].state is Running
            &&& tf2 == m.procs[0].context
        }),
{
    assert(spec_ready_now(m.procs[0], ctx));
    assert(spec_find_ready(m.procs, ctx) == Some(0int));
}

/// Law: a killed process is gone.  After a kill that removed a process,
/// no ring member carries its id any more, and no later scheduling pass
/// can select it.
pub proof fn lemma_kill_removes(m: SchedModel, tf: TrapFrame, tf2: TrapFrame, ctx: PollContext)
    requires
        m.wf(),
        spec_kill(m, tf).1 is Some,
    ensures
        ({
            let (m2, rid) = spec_kill(m, tf);
            &&& m2.wf()
            &&& m2.procs.len() == m.procs.len() - 1
            &&& (forall|j: int|
                0 <= j < m2.procs.len() ==> (#[trigger] m2.procs[j]).id() != rid.unwrap())
            &&& spec_switch_to(m2, tf2, ctx).2 != Some(rid.unwrap())
        }),
{
    lemma_find_running_props(m.procs, tf.tpidr_el, 0);
    let i = spec_find_running(m.procs, tf.tpidr_el).unwrap();
    let (m2, rid) = spec_kill(m, tf);
    lemma_remove_wf(m, i);
    assert forall|j: int| 0 <= j < m2.procs.len() implies (#[trigger] m2.procs[j]).id()
        != rid.unwrap() by {
        let oj = if j < i {
            j
        } else {
            j + 1
        };
        assert(m2.procs[j] == m.procs[oj]);
    }
    lemma_find_ready_props(m2.procs, ctx, 0);
    match spec_find_ready(m2.procs, ctx) {
        None => {},
        Some(j) => {
            assert(m2.procs[j].id() != rid.unwrap());
        },
    }
}

/// Removing position `i` and appending a process with the same id as the
/// removed one preserves the scheduler invariant.
proof fn lemma_remove_push_wf(m: SchedModel, i: int, p2: Process)
    requires
        m.wf(),
        0 <= i < m.procs.len(),
        p2.id() == m.procs[i].id(),
        p2.wf(),
    ensures
        (SchedModel { procs: m.procs.remove(i).push(p2), ..m }).wf(),
{
    let procs2 = m.procs.remove(i).push(p2);
    assert forall|a: int, b: int| 0 <= a < b < procs2.len() implies (#[trigger] procs2[a]).id() != (
    #[trigger] procs2[b]).id() by {
        let oa = if a < i {
            a
        } else {
            a + 1
        };
        if b < procs2.len() - 1 {
            let ob = if b < i {
                b
            } else {
                b + 1
            };
            assert(procs2[a] == m.procs[oa] && procs2[b] == m.procs[ob]);
        } else {
            assert(procs2[a] == m.procs[oa]);
            assert(procs2[b].id() == m.procs[i].id());
        }
    }
}

/// Removing position `i` and reinserting the same process at the head,
/// with only its state changed, preserves the scheduler invariant.
proof fn lemma_remove_insert_wf(m: SchedModel, i: int)
    requires
        m.wf(),
        0 <= i < m.procs.len(),
    ensures
        (SchedModel {
            procs: m.procs.remove(i).insert(0, Process { state: State::Running, ..m.procs[i] }),
            ..m
        }).wf(),
{
    let p2 = Process { state: State::Running, ..m.procs[i] };
    let procs2 = m.procs.remove(i).insert(0, p2);
    assert(p2.wf());
    assert forall|a: int, b: int| 0 <= a < b < procs2.len() implies (#[trigger] procs2[a]).id() != (
    #[trigger] procs2[b]).id() by {
        if a == 0 {
            let ob = if b - 1 < i {
                b - 1
            } else {
                b
            };
            assert(procs2[b] == m.procs[ob]);
            assert(procs2[a].id() == m.procs[i].id());
        } else {
            let oa = if a - 1 < i {
                a - 1
            } else {
                a
            };
            let ob = if b - 1 < i {
                b - 1
            } else {
                b
            };
            assert(procs2[a] == m.procs[oa] && procs2[b] == m.procs[ob]);
        }
    }
}

/// Removing one position preserves the scheduler invariant.
proof fn lemma_remove_wf(m: SchedModel, i: int)
    requires
        m.wf(),
        0 <= i < m.procs.len(),
    ensures
        (SchedModel { procs: m.procs.remove(i), ..m }).wf(),
{
    let procs2 = m.procs.remove(i);
    assert forall|a: int, b: int| 0 <= a < b < procs2.len() implies (#[trigger] procs2[a]).id() != (
    #[trigger] procs2[b]).id() by {
        let oa = if a < i {
            a
        } else {
            a + 1
        };
        let ob = if b < i {
            b
        } else {
            b + 1
        };
        assert(procs2[a] == m.procs[oa] && procs2[b] == m.procs[ob]);
    }
}

} // verus!
