//! The round-robin process scheduler.
//!
//! The scheduler owns the ordered collection of all processes (ready and
//! waiting alike — state is an attribute, not a location), the identifier of
//! the process now on the CPU, and the last identifier it handed out. A
//! context switch saves the live trap frame into the outgoing process, rotates
//! it to the back, and scans one full rotation for the first process whose
//! readiness check passes; that process's saved frame is restored into the
//! live frame. When no process is ready the scan reports so and the trap layer
//! idles the CPU and retries on the next tick — the library never spins.
//!
//! All timing enters through the `now` parameter (microseconds from a
//! monotonic clock), so every path here is verified for every clock reading.
use vstd::prelude::*;

use std::collections::VecDeque;

use crate::process::{Id, Process, State};
use crate::trap_frame::TrapFrame;

verus! {

/// The preemption period, in microseconds: how far in the future the trap
/// layer arms the next timer interrupt after each switch.
pub const TICK: u32 = 1000;

/// A process that leaves the CPU is recorded as eligible again rather than
/// `Running`: only the process now on the CPU may be `Running`.
pub open spec fn normalized(s: State) -> State {
    if s is Running {
        State::Ready
    } else {
        s
    }
}

/// The outgoing process as the switch records it: the live frame `tf` saved
/// over its trap frame (committing its full register state) and its state set
/// to the normalized `new_state`.
pub open spec fn saved(p: Process, tf: TrapFrame, new_state: State) -> Process {
    Process { trap_frame: tf, state: normalized(new_state), ..p }
}

/// The index of the first process in `q` whose readiness check at time `now`
/// would pass; `q.len()` when none would.
pub open spec fn first_ready(q: Seq<Process>, now: u64) -> int
    decreases q.len(),
{
    if q.len() == 0 {
        0
    } else if q[0].ready_at(now) {
        0
    } else {
        1 + first_ready(q.drop_first(), now)
    }
}

/// `first_ready` is the least index of a ready process, and lies in
/// `0 ..= q.len()`.
pub proof fn lemma_first_ready(q: Seq<Process>, now: u64)
    ensures
        0 <= first_ready(q, now) <= q.len(),
        forall|j: int| 0 <= j < first_ready(q, now) ==> !(#[trigger] q[j]).ready_at(now),
        first_ready(q, now) < q.len() ==> q[first_ready(q, now)].ready_at(now),
    decreases q.len(),
{
    if q.len() > 0 && !q[0].ready_at(now) {
        lemma_first_ready(q.drop_first(), now);
        assert(forall|j: int|
            1 <= j < q.len() ==> (#[trigger] q[j]) == q.drop_first()[j - 1]);
    }
}

/// The queue a scan of `q` at time `now` leaves behind. Every process the scan
/// reached gets exactly one readiness evaluation. If one was ready, it stands
/// at the front marked `Running`, the unreached tail follows in order, and the
/// skipped (evaluated, still waiting) processes follow at the back in order;
/// processes after the chosen one are not evaluated at all. If none was ready,
/// the whole rotation was evaluated once.
pub open spec fn after_scan(q: Seq<Process>, now: u64) -> Seq<Process> {
    let k = first_ready(q, now);
    if k < q.len() {
        seq![Process { state: State::Running, ..q[k].evaluated(now) }] + q.subrange(
            k + 1,
            q.len() as int,
        ) + q.subrange(0, k).map_values(|p: Process| p.evaluated(now))
    } else {
        q.map_values(|p: Process| p.evaluated(now))
    }
}

/// Process scheduler for one core.
pub struct Scheduler {
    /// All processes, ready and waiting, in rotation order. The front is the
    /// current process while one is on the CPU.
    pub processes: VecDeque<Process>,
    /// The identifier of the process now on the CPU, or `None` before the
    /// first process is added and while the whole queue is waiting.
    pub current: Option<Id>,
    /// The last identifier handed out; identifiers start at 1 and are never
    /// reused.
    pub last_id: Option<Id>,
}

impl Scheduler {
    /// The scheduler's internal invariant: identifiers are nonzero, distinct
    /// and bounded by `last_id`; a `Running` process can only be the front,
    /// with `current` naming it; `current` always names the front.
    pub open spec fn wf(&self) -> bool {
        &&& forall|i: int|
            0 <= i < self.processes@.len() ==> (#[trigger] self.processes@[i]).wf()
        &&& forall|i: int|
            0 <= i < self.processes@.len() ==> (#[trigger] self.processes@[i]).spec_id() >= 1
        &&& forall|i: int, j: int|
            0 <= i < self.processes@.len() && 0 <= j < self.processes@.len() && i != j
                ==> (#[trigger] self.processes@[i]).spec_id() != (
            #[trigger] self.processes@[j]).spec_id()
        &&& match self.last_id {
            Some(l) => l >= 1 && forall|i: int|
                0 <= i < self.processes@.len() ==> (#[trigger] self.processes@[i]).spec_id() <= l,
            None => self.processes@.len() == 0,
        }
        &&& forall|i: int|
            0 <= i < self.processes@.len() && (#[trigger] self.processes@[i]).state is Running
                ==> i == 0 && self.current == Some(self.processes@[0].spec_id())
        &&& match self.current {
            Some(id) => self.processes@.len() > 0 && self.processes@[0].spec_id() == id,
            None => true,
        }
    }

    /// At most one process is ever `Running`: any two `Running` entries are
    /// the same entry.
    pub proof fn lemma_at_most_one_running(&self)
        requires
            self.wf(),
        ensures
            forall|i: int, j: int|
                0 <= i < self.processes@.len() && 0 <= j < self.processes@.len() && (
                #[trigger] self.processes@[i]).state is Running && (
                #[trigger] self.processes@[j]).state is Running ==> i == j,
    {
    }

    /// A new scheduler: empty queue, no current process, no identifier handed
    /// out yet.
    pub fn new() -> (r: Scheduler)
        ensures
            r.wf(),
            r.processes@ == Seq::<Process>::empty(),
            r.current is None,
            r.last_id is None,
    {
        Scheduler { processes: VecDeque::new(), current: None, last_id: None }
    }

    /// How `add` relates the scheduler before (`pre`) to the scheduler after
    /// (`post`): the very first process gets identifier 1 and becomes current;
    /// each later one gets the next identifier, stamped into its trap frame
    /// and appended at the back; once the identifier space is exhausted the
    /// call returns `None` and changes nothing.
    pub open spec fn add_rel(pre: Scheduler, p: Process, post: Scheduler, r: Option<Id>) -> bool {
        match pre.last_id {
            None => {
                &&& r == Some(1u64)
                &&& post.last_id == Some(1u64)
                &&& post.current == Some(1u64)
                &&& post.processes@ == pre.processes@.push(
                    Process { trap_frame: TrapFrame { tpidr: 1, ..p.trap_frame }, ..p },
                )
            },
            Some(l) => if l == u64::MAX {
                &&& r is None
                &&& post == pre
            } else {
                &&& r == Some((l + 1) as u64)
                &&& post.last_id == Some((l + 1) as u64)
                &&& post.current == pre.current
                &&& post.processes@ == pre.processes@.push(
                    Process {
                        trap_frame: TrapFrame { tpidr: (l + 1) as u64, ..p.trap_frame },
                        ..p
                    },
                )
            },
        }
    }

    /// Adds a process, assigning it the next identifier and stamping that
    /// identifier into its trap frame. Returns the identifier, or `None` once
    /// the identifier space is exhausted — the only allocation failure, after
    /// which nothing is changed. Identifiers start at 1 and increase by
    /// exactly 1 per successful call.
    ///
    /// The first process added becomes the current one; the caller must see to
    /// it that this process is the one executing when `switch` is first
    /// called. A process is handed in off the CPU, so it may not claim
    /// `Running`.
    pub fn add(&mut self, process: Process) -> (r: Option<Id>)
        requires
            old(self).wf(),
            process.wf(),
            !(process.state is Running),
        ensures
            final(self).wf(),
            Scheduler::add_rel(*old(self), process, *final(self), r),
    {
        let mut process = process;
        let id: Id = match self.last_id {
            None => {
                self.last_id = Some(1);
                self.current = Some(1);
                1
            },
            Some(l) => {
                if l == u64::MAX {
                    return None;
                }
                self.last_id = Some(l + 1);
                l + 1
            },
        };
        process.trap_frame.tpidr = id;
        self.processes.push_back(process);
        Some(id)
    }

    /// How one scan rotation relates the scheduler and live frame before to
    /// those after. `q` is the queue the scan walks; each process up to and
    /// including the first ready one gets exactly one readiness evaluation.
    /// If one is ready it becomes current and `Running`, its (possibly just
    /// delivered-into) saved frame is restored into the live frame, and its
    /// identifier is returned. If none is ready, nothing is current, the live
    /// frame is untouched, and `None` says the caller must idle and rescan.
    pub open spec fn scan_rel(
        q: Seq<Process>,
        now: u64,
        post: Scheduler,
        tf_pre: TrapFrame,
        tf_post: TrapFrame,
        r: Option<Id>,
    ) -> bool {
        let k = first_ready(q, now);
        &&& post.processes@ == after_scan(q, now)
        &&& if k < q.len() {
            &&& r == Some(q[k].spec_id())
            &&& post.current == Some(q[k].spec_id())
            &&& tf_post == q[k].evaluated(now).trap_frame
        } else {
            &&& r is None
            &&& post.current is None
            &&& tf_post == tf_pre
        }
    }

    /// Scans one full rotation for the first ready process and restores it
    /// into `tf`. This is the retry entry of the scheduler's idle loop: when
    /// `switch` or an earlier scan found nobody ready, the trap layer waits
    /// for the next interrupt and calls this again with the later time.
    #[verifier::loop_isolation(false)]
    #[verifier::rlimit(60)]
    pub fn find_next(&mut self, tf: &mut TrapFrame, now: u64) -> (r: Option<Id>)
        requires
            old(self).wf(),
            old(self).current is None,
        ensures
            final(self).wf(),
            final(self).last_id == old(self).last_id,
            Scheduler::scan_rel(
                old(self).processes@,
                now,
                *final(self),
                *old(tf),
                *final(tf),
                r,
            ),
    {
        let ghost q = self.processes@;
        let ghost tf0 = *tf;
        proof {
            lemma_first_ready(q, now);
        }
        let n = self.processes.len();
        let mut i: usize = 0;
        while i < n
            invariant
                i <= n,
                n == q.len(),
                self.processes@.len() == n,
                self.current is None,
                self.last_id == old(self).last_id,
                *tf == tf0,
                forall|j: int| 0 <= j < q.len() ==> (#[trigger] q[j]).wf(),
                forall|j: int| 0 <= j < q.len() ==> (#[trigger] q[j]).spec_id() >= 1,
                forall|j: int, l: int|
                    0 <= j < q.len() && 0 <= l < q.len() && j != l ==> (
                    #[trigger] q[j]).spec_id() != (#[trigger] q[l]).spec_id(),
                match old(self).last_id {
                    Some(l) => l >= 1 && forall|j: int|
                        0 <= j < q.len() ==> (#[trigger] q[j]).spec_id() <= l,
                    None => q.len() == 0,
                },
                forall|j: int| 0 <= j < q.len() ==> !((#[trigger] q[j]).state is Running),
                forall|j: int| 0 <= j < i ==> !(#[trigger] q[j]).ready_at(now),
                forall|j: int|
                    0 <= j < n - i ==> (#[trigger] self.processes@[j]) == q[j + i],
                forall|j: int|
                    n - i <= j < n ==> (#[trigger] self.processes@[j]) == q[j - (n
                        - i)].evaluated(now),
            decreases n - i,
        {
            let popped = self.processes.pop_front();
            let mut cand = popped.unwrap();
            assert(cand == q[i as int]);
            if cand.is_ready(now) {
                proof {
                    lemma_first_ready(q, now);
                    assert(q[i as int].ready_at(now));
                    assert(first_ready(q, now) == i) by {
                        if first_ready(q, now) < i {
                            assert(q[first_ready(q, now)].ready_at(now));
                        }
                        if first_ready(q, now) > i {
                            assert(!q[i as int].ready_at(now));
                        }
                    }
                }
                let id = cand.id();
                self.current = Some(id);
                *tf = cand.trap_frame;
                cand.state = State::Running;
                self.processes.push_front(cand);
                proof {
                    let k = i as int;
                    assert(self.processes@ =~= after_scan(q, now)) by {
                        assert(self.processes@[0] == Process {
                            state: State::Running,
                            ..q[k].evaluated(now)
                        });
                        assert(forall|j: int|
                            1 <= j < n - k ==> (#[trigger] self.processes@[j]) == q.subrange(
                                k + 1,
                                n as int,
                            )[j - 1]);
                        assert(forall|j: int|
                            n - k <= j < n ==> (#[trigger] self.processes@[j]) == q.subrange(
                                0,
                                k,
                            ).map_values(|p: Process| p.evaluated(now))[j - (n - k)]);
                    }
                }
                return Some(id);
            } else {
                self.processes.push_back(cand);
                i = i + 1;
            }
        }
        proof {
            lemma_first_ready(q, now);
            assert(first_ready(q, now) == q.len()) by {
                if first_ready(q, now) < q.len() {
                    assert(q[first_ready(q, now)].ready_at(now));
                }
            }
            assert(self.processes@ =~= after_scan(q, now));
        }
        None
    }

    /// How `switch` relates the scheduler and live frame before to those
    /// after. With no current process nothing happens and `None` comes back.
    /// Otherwise the outgoing front is saved (`saved`), rotated to the back,
    /// and the rotated queue is scanned as `scan_rel` says.
    pub open spec fn switch_rel(
        pre: Scheduler,
        new_state: State,
        now: u64,
        post: Scheduler,
        tf_pre: TrapFrame,
        tf_post: TrapFrame,
        r: Option<Id>,
    ) -> bool {
        match pre.current {
            None => r is None && post == pre && tf_post == tf_pre,
            Some(_) => Scheduler::scan_rel(
                pre.processes@.drop_first().push(saved(pre.processes@[0], tf_pre, new_state)),
                now,
                post,
                tf_pre,
                tf_post,
                r,
            ),
        }
    }

    /// The context switch. Saves the live frame `tf` into the current process,
    /// records that process in `new_state` (`Running` — a mere preemption — is
    /// recorded as `Ready`, since the process is leaving the CPU), rotates it
    /// to the back, and scans one rotation for the next ready process, whose
    /// saved frame is restored into `tf` and whose identifier is returned.
    ///
    /// Returns `None` without touching anything when no process is current —
    /// in particular on a scheduler nothing was added to. Returns `None` after
    /// saving the outgoing process when nobody in the rotation is ready; the
    /// caller then idles until the next interrupt and retries with
    /// `find_next`.
    ///
    /// The live frame is the current process's register state, so its
    /// identifier slot carries the current identifier.
    #[must_use]
    pub fn switch(&mut self, new_state: State, tf: &mut TrapFrame, now: u64) -> (r: Option<Id>)
        requires
            old(self).wf(),
            new_state.wf(),
            match old(self).current {
                Some(id) => old(tf).tpidr == id,
                None => true,
            },
        ensures
            final(self).wf(),
            final(self).last_id == old(self).last_id,
            Scheduler::switch_rel(
                *old(self),
                new_state,
                now,
                *final(self),
                *old(tf),
                *final(tf),
                r,
            ),
    {
        if self.current.is_none() {
            return None;
        }
        let popped = self.processes.pop_front();
        let mut curr = popped.unwrap();
        curr.trap_frame = *tf;
        curr.state = match new_state {
            State::Running => State::Ready,
            s => s,
        };
        self.processes.push_back(curr);
        self.current = None;
        proof {
            assert(self.processes@ =~= old(self).processes@.drop_first().push(
                saved(old(self).processes@[0], *old(tf), new_state),
            ));
        }
        self.find_next(tf, now)
    }
}

/// The identifiers of a queue, in queue order.
pub open spec fn ids_of(q: Seq<Process>) -> Seq<Id> {
    q.map_values(|p: Process| p.spec_id())
}

/// Identifier allocation starts at 1: the first `add` ever returns `Some(1)`.
pub proof fn lemma_first_id_is_one(pre: Scheduler, p: Process, post: Scheduler, r: Option<Id>)
    requires
        Scheduler::add_rel(pre, p, post, r),
        pre.last_id is None,
    ensures
        r == Some(1u64),
{
}

/// Identifiers increase by exactly 1: two consecutive successful `add` calls
/// return consecutive identifiers.
pub proof fn lemma_ids_increase_by_one(
    s0: Scheduler,
    p0: Process,
    s1: Scheduler,
    i: Id,
    p1: Process,
    s2: Scheduler,
    j: Id,
)
    requires
        Scheduler::add_rel(s0, p0, s1, Some(i)),
        Scheduler::add_rel(s1, p1, s2, Some(j)),
    ensures
        j == i + 1,
{
}

/// Exhaustion is sterile: once `last_id` has reached the top of the
/// identifier space, `add` returns `None` and allocates no process.
pub proof fn lemma_add_exhausted(pre: Scheduler, p: Process, post: Scheduler, r: Option<Id>)
    requires
        Scheduler::add_rel(pre, p, post, r),
        pre.last_id == Some(u64::MAX),
    ensures
        r is None,
        post.processes@ == pre.processes@,
        post.last_id == pre.last_id,
{
}

/// No process, no switch: on a scheduler with no current process — in
/// particular one nothing was ever added to — `switch` returns `None` and
/// mutates neither the scheduler nor the live frame.
pub proof fn lemma_no_process_no_switch(
    pre: Scheduler,
    new_state: State,
    now: u64,
    post: Scheduler,
    tf_pre: TrapFrame,
    tf_post: TrapFrame,
    r: Option<Id>,
)
    requires
        Scheduler::switch_rel(pre, new_state, now, post, tf_pre, tf_post, r),
        pre.current is None,
    ensures
        r is None,
        post == pre,
        tf_post == tf_pre,
{
}

/// One step of round-robin rotation. On a well-formed scheduler whose
/// processes are all eligible (everyone `Ready` but for the front, which may
/// be the `Running` current process), a preemption switch hands the CPU to the
/// process behind the front, rotates the queue left by one, and leaves the
/// queue in the same all-eligible shape — so the step applies again to the
/// next switch.
pub proof fn lemma_round_robin_step(
    pre: Scheduler,
    now: u64,
    post: Scheduler,
    tf_pre: TrapFrame,
    tf_post: TrapFrame,
    r: Option<Id>,
)
    requires
        pre.wf(),
        pre.current is Some,
        tf_pre.tpidr == pre.processes@[0].spec_id(),
        forall|i: int|
            1 <= i < pre.processes@.len() ==> (#[trigger] pre.processes@[i]).state is Ready,
        pre.processes@[0].state is Ready || pre.processes@[0].state is Running,
        Scheduler::switch_rel(pre, State::Running, now, post, tf_pre, tf_post, r),
    ensures
        ({
            let n = pre.processes@.len() as int;
            &&& r == Some(ids_of(pre.processes@)[1int % n])
            &&& ids_of(post.processes@) == ids_of(pre.processes@).drop_first().push(
                ids_of(pre.processes@)[0],
            )
            &&& post.current == r
            &&& tf_post.tpidr == ids_of(pre.processes@)[1int % n]
            &&& forall|i: int|
                1 <= i < post.processes@.len() ==> (#[trigger] post.processes@[i]).state is Ready
            &&& post.processes@[0].state is Running
            &&& post.processes@.len() == n
        }),
{
    let n = pre.processes@.len() as int;
    let q = pre.processes@.drop_first().push(saved(pre.processes@[0], tf_pre, State::Running));
    assert(q[0].state is Ready);
    assert(first_ready(q, now) == 0);
    assert(q[0].evaluated(now) == q[0]);
    assert(post.processes@ == seq![Process { state: State::Running, ..q[0] }] + q.subrange(
        1,
        n,
    ) + q.subrange(0, 0).map_values(|p: Process| p.evaluated(now)));
    assert(ids_of(post.processes@) =~= ids_of(pre.processes@).drop_first().push(
        ids_of(pre.processes@)[0],
    )) by {
        assert(forall|i: int|
            1 <= i < n - 1 ==> (#[trigger] post.processes@[i]) == q.subrange(1, n)[i - 1]);
        if n >= 2 {
            assert(post.processes@[n - 1] == q.subrange(1, n)[n - 2]);
            assert(q[n - 1] == saved(pre.processes@[0], tf_pre, State::Running));
        }
    }
    if n >= 2 {
        assert(1int % n == 1) by {
            vstd::arithmetic::div_mod::lemma_small_mod(1nat, n as nat);
        }
        assert(q[0] == pre.processes@[1]);
    } else {
        assert(1int % n == 0);
        assert(q[0] == saved(pre.processes@[0], tf_pre, State::Running));
    }
    assert(forall|i: int|
        1 <= i < post.processes@.len() ==> (#[trigger] post.processes@[i]).state is Ready) by {
        assert(forall|i: int| 1 <= i < n ==> post.processes@[i] == q[i]);
        assert(forall|i: int| 1 <= i < n - 1 ==> q[i] == pre.processes@[i + 1]);
    }
}

/// Whether `id` is among the identifiers that `n` consecutive rotation steps
/// on the queue `ids` hand the CPU to (the step at position `k` visits
/// `ids[(k + 1) % n]`).
pub open spec fn rotation_visits(ids: Seq<Id>, id: Id) -> bool {
    exists|k: int|
        0 <= k < ids.len() && #[trigger] ids[(k + 1) % (ids.len() as int)] == id
}

/// Round-robin fairness, on the visit order the rotation step produces: with
/// all `n` processes eligible, the process visited on the `k`-th of `n`
/// consecutive preemption switches is the one at queue position
/// `(k + 1) % n` of the starting queue — every process exactly once, none
/// twice, before the rotation repeats.
pub proof fn lemma_rotation_visits_each_once(ids: Seq<Id>)
    requires
        ids.len() >= 1,
        forall|i: int, j: int|
            0 <= i < ids.len() && 0 <= j < ids.len() && i != j ==> ids[i] != ids[j],
    ensures
        forall|a: int, b: int|
            0 <= a < b < ids.len() ==> #[trigger] ids[(a + 1) % (ids.len() as int)]
                != #[trigger] ids[(b + 1) % (ids.len() as int)],
        forall|j: int| 0 <= j < ids.len() ==> #[trigger] rotation_visits(ids, ids[j]),
{
    let n = ids.len() as int;
    assert forall|a: int, b: int|
        0 <= a < b < ids.len() implies #[trigger] ids[(a + 1) % (ids.len() as int)]
        != #[trigger] ids[(b + 1) % (ids.len() as int)] by {
        vstd::arithmetic::div_mod::lemma_small_mod((a + 1) as nat, n as nat);
        if b + 1 < n {
            vstd::arithmetic::div_mod::lemma_small_mod((b + 1) as nat, n as nat);
        } else {
            vstd::arithmetic::div_mod::lemma_mod_self_0(n);
        }
    }
    assert forall|j: int| 0 <= j < ids.len() implies #[trigger] rotation_visits(
        ids,
        ids[j],
    ) by {
        let k = if j == 0 {
            n - 1
        } else {
            j - 1
        };
        if j == 0 {
            vstd::arithmetic::div_mod::lemma_mod_self_0(n);
        } else {
            vstd::arithmetic::div_mod::lemma_small_mod(j as nat, n as nat);
        }
        assert(0 <= k < ids.len() && ids[(k + 1) % (ids.len() as int)] == ids[j]);
    }
}

/// The queue identifiers after `k` rotation steps: the first `k` entries
/// moved, in order, to the back.
pub open spec fn rotated(ids: Seq<Id>, k: int) -> Seq<Id> {
    ids.subrange(k, ids.len() as int) + ids.subrange(0, k)
}

/// The heart of round-robin fairness, over a whole cycle. Given `n`
/// consecutive preemption switches on a well-formed scheduler of `n`
/// eligible processes (everyone `Ready` but for the front, which may be the
/// `Running` current process), the `k`-th switch visits exactly the process
/// at starting position `(k + 1) % n` — so, with `lemma_rotation_visits_each_once`,
/// every process is visited exactly once before the order repeats.
///
/// `states` are the scheduler states around each switch (`n + 1` of them),
/// `tfs` the live frames around each switch, `nows` the clock readings, and
/// `visits` what each switch returned.
pub proof fn lemma_round_robin_cycle(
    states: Seq<Scheduler>,
    tfs: Seq<TrapFrame>,
    nows: Seq<u64>,
    visits: Seq<Option<Id>>,
)
    requires
        states.len() >= 2,
        states[0].processes@.len() == states.len() - 1,
        tfs.len() == states.len(),
        nows.len() == states.len() - 1,
        visits.len() == states.len() - 1,
        forall|k: int| 0 <= k < states.len() ==> (#[trigger] states[k]).wf(),
        states[0].current is Some,
        tfs[0].tpidr == states[0].processes@[0].spec_id(),
        forall|i: int|
            1 <= i < states[0].processes@.len() ==> (#[trigger] states[0].processes@[i]).state
                is Ready,
        states[0].processes@[0].state is Ready || states[0].processes@[0].state is Running,
        forall|k: int|
            0 <= k < states.len() - 1 ==> #[trigger] Scheduler::switch_rel(
                states[k],
                State::Running,
                nows[k],
                states[k + 1],
                tfs[k],
                tfs[k + 1],
                visits[k],
            ),
    ensures
        forall|k: int|
            0 <= k < states.len() - 1 ==> #[trigger] visits[k] == Some(
                ids_of(states[0].processes@)[(k + 1) % (states.len() - 1)],
            ),
{
    let n = states.len() - 1;
    lemma_round_robin_chain(states, tfs, nows, visits, n);
}

/// The induction behind `lemma_round_robin_cycle`: after `k` switches the
/// queue's identifiers are the starting ones rotated by `k`, the all-eligible
/// shape has been kept, and every switch so far visited the rotation's pick.
proof fn lemma_round_robin_chain(
    states: Seq<Scheduler>,
    tfs: Seq<TrapFrame>,
    nows: Seq<u64>,
    visits: Seq<Option<Id>>,
    k: int,
)
    requires
        states.len() >= 2,
        states[0].processes@.len() == states.len() - 1,
        tfs.len() == states.len(),
        nows.len() == states.len() - 1,
        visits.len() == states.len() - 1,
        forall|m: int| 0 <= m < states.len() ==> (#[trigger] states[m]).wf(),
        states[0].current is Some,
        tfs[0].tpidr == states[0].processes@[0].spec_id(),
        forall|i: int|
            1 <= i < states[0].processes@.len() ==> (#[trigger] states[0].processes@[i]).state
                is Ready,
        states[0].processes@[0].state is Ready || states[0].processes@[0].state is Running,
        forall|m: int|
            0 <= m < states.len() - 1 ==> #[trigger] Scheduler::switch_rel(
                states[m],
                State::Running,
                nows[m],
                states[m + 1],
                tfs[m],
                tfs[m + 1],
                visits[m],
            ),
        0 <= k <= states.len() - 1,
    ensures
        states[k].processes@.len() == states.len() - 1,
        ids_of(states[k].processes@) == rotated(ids_of(states[0].processes@), k % (states.len()
            - 1)),
        states[k].current is Some,
        tfs[k].tpidr == states[k].processes@[0].spec_id(),
        forall|i: int|
            1 <= i < states[k].processes@.len() ==> (#[trigger] states[k].processes@[i]).state
                is Ready,
        states[k].processes@[0].state is Ready || states[k].processes@[0].state is Running,
        forall|m: int|
            0 <= m < k ==> #[trigger] visits[m] == Some(
                ids_of(states[0].processes@)[(m + 1) % (states.len() - 1)],
            ),
    decreases k,
{
    let n = states.len() - 1;
    let ids0 = ids_of(states[0].processes@);
    assert(ids0.len() == n);
    if k == 0 {
        vstd::arithmetic::div_mod::lemma_small_mod(0nat, n as nat);
        assert(ids_of(states[0].processes@) =~= rotated(ids0, 0));
    } else {
        lemma_round_robin_chain(states, tfs, nows, visits, k - 1);
        let pre = states[k - 1];
        let post = states[k];
        let m = k - 1;
        assert(Scheduler::switch_rel(
            states[m],
            State::Running,
            nows[m],
            states[m + 1],
            tfs[m],
            tfs[m + 1],
            visits[m],
        ));
        lemma_round_robin_step(pre, nows[k - 1], post, tfs[k - 1], tfs[k], visits[k - 1]);
        let km1 = (k - 1) % n;
        let km = k % n;
        assert(0 <= km1 < n && 0 <= km < n) by {
            vstd::arithmetic::div_mod::lemma_mod_bound(k - 1, n);
            vstd::arithmetic::div_mod::lemma_mod_bound(k, n);
        }
        assert(km == if km1 + 1 < n {
            km1 + 1
        } else {
            0
        }) by {
            if k < n {
                vstd::arithmetic::div_mod::lemma_small_mod((k - 1) as nat, n as nat);
                vstd::arithmetic::div_mod::lemma_small_mod(k as nat, n as nat);
            } else {
                vstd::arithmetic::div_mod::lemma_small_mod((k - 1) as nat, n as nat);
                vstd::arithmetic::div_mod::lemma_mod_self_0(n);
            }
        }
        let ids_pre = ids_of(pre.processes@);
        assert(ids_pre == rotated(ids0, km1));
        // one step rotates the queue left by one more
        assert(ids_of(post.processes@) =~= rotated(ids0, km)) by {
            assert(ids_of(post.processes@) == ids_pre.drop_first().push(ids_pre[0]));
        }
        // and the step visited the process at starting position k % n
        assert(visits[k - 1] == Some(ids_pre[1int % n]));
        if n >= 2 {
            vstd::arithmetic::div_mod::lemma_small_mod(1nat, n as nat);
            assert(ids_pre[1] == ids0[km]);
        } else {
            assert(ids_pre[0] == ids0[0]);
        }
        assert(visits[k - 1] == Some(ids0[km]));
        assert((k - 1) + 1 == k);
    }
}

/// The wait contract, per scan. For a waiting process at position `j` of the
/// scanned queue: while its condition is unmet and no earlier process is ready
/// it is evaluated exactly once and stays `Waiting` with its condition
/// stepped; on the scan where it is the first ready process it is chosen,
/// marked `Running`, and whatever its condition delivered into its trap frame
/// is restored into the live frame before it runs; and a process behind the
/// chosen one is not evaluated at all — no double delivery.
pub proof fn lemma_wait_contract(
    q: Seq<Process>,
    now: u64,
    post: Scheduler,
    tf_pre: TrapFrame,
    tf_post: TrapFrame,
    r: Option<Id>,
    j: int,
)
    requires
        Scheduler::scan_rel(q, now, post, tf_pre, tf_post, r),
        0 <= j < q.len(),
        q[j].state is Waiting,
    ensures
        ({
            let k = first_ready(q, now);
            let c = q[j].state->Waiting_0;
            &&& (!c.met(now) && j < k) ==> {
                let idx = if k < q.len() {
                    q.len() - k + j
                } else {
                    j
                };
                &&& post.processes@[idx] == q[j].evaluated(now)
                &&& post.processes@[idx].state == State::Waiting(c.stepped())
                &&& post.processes@[idx].trap_frame == q[j].trap_frame
            }
            &&& (c.met(now) && j == k) ==> {
                &&& r == Some(q[j].spec_id())
                &&& post.processes@[0].state is Running
                &&& post.processes@[0].trap_frame == c.delivered(q[j].trap_frame, now)
                &&& tf_post == c.delivered(q[j].trap_frame, now)
            }
            &&& (j > k) ==> post.processes@[j - k] == q[j]
        }),
{
    let k = first_ready(q, now);
    lemma_first_ready(q, now);
    let n = q.len() as int;
    if k < n {
        assert(post.processes@ == seq![Process { state: State::Running, ..q[k].evaluated(now) }]
            + q.subrange(k + 1, n) + q.subrange(0, k).map_values(
            |p: Process| p.evaluated(now),
        ));
        if j < k {
            assert(post.processes@[n - k + j] == q.subrange(0, k).map_values(
                |p: Process| p.evaluated(now),
            )[j]);
        }
        if j > k {
            assert(post.processes@[j - k] == q.subrange(k + 1, n)[j - k - 1]);
        }
    } else {
        assert(post.processes@[j] == q.map_values(|p: Process| p.evaluated(now))[j]);
    }
}

/// A process-wide wrapper holding the one scheduler instance. It starts
/// uninitialized so it can live in static storage before any allocation runs;
/// `initialize` constructs the scheduler exactly once, and `add` and `switch`
/// forward to it. On the single core, exclusive access (`&mut`) stands for the
/// lock the kernel takes around it: trap handlers are non-reentrant, so no two
/// uses overlap.
pub struct GlobalScheduler {
    /// `None` until `initialize`; `Some` ever after.
    pub inner: Option<Scheduler>,
}

impl GlobalScheduler {
    /// Whether `initialize` has run.
    pub open spec fn spec_is_initialized(&self) -> bool {
        self.inner is Some
    }

    /// The wrapped scheduler.
    pub open spec fn sched(&self) -> Scheduler {
        self.inner.unwrap()
    }

    /// An uninitialized wrapper: usable as a static initializer, fatal to
    /// schedule with until `initialize` runs.
    pub fn uninitialized() -> (r: GlobalScheduler)
        ensures
            !r.spec_is_initialized(),
    {
        GlobalScheduler { inner: None }
    }

    /// Whether `initialize` has run.
    #[verifier::when_used_as_spec(spec_is_initialized)]
    pub fn is_initialized(&self) -> (r: bool)
        ensures
            r == self.spec_is_initialized(),
    {
        self.inner.is_some()
    }

    /// Constructs the scheduler. Runs exactly once, before any `add` or
    /// `switch`; the trap layer then arms the timer, adds the first process
    /// and transfers control into it.
    pub fn initialize(&mut self)
        requires
            !old(self).spec_is_initialized(),
        ensures
            final(self).spec_is_initialized(),
            final(self).sched().wf(),
            final(self).sched().processes@ == Seq::<Process>::empty(),
            final(self).sched().current is None,
            final(self).sched().last_id is None,
    {
        self.inner = Some(Scheduler::new());
    }

    /// Adds a process to the scheduler's queue and returns that process's
    /// identifier; see `Scheduler::add`. Calling this before `initialize` is a
    /// boot-sequence bug and is excluded by contract (the kernel would halt).
    pub fn add(&mut self, process: Process) -> (r: Option<Id>)
        requires
            old(self).spec_is_initialized(),
            old(self).sched().wf(),
            process.wf(),
            !(process.state is Running),
        ensures
            final(self).spec_is_initialized(),
            final(self).sched().wf(),
            Scheduler::add_rel(old(self).sched(), process, final(self).sched(), r),
    {
        match &mut self.inner {
            Some(s) => s.add(process),
            None => vstd::pervasive::unreached(),
        }
    }

    /// Performs a context switch using the live frame `tf`; see
    /// `Scheduler::switch`. Calling this before `initialize` is a
    /// boot-sequence bug and is excluded by contract.
    #[must_use]
    pub fn switch(&mut self, new_state: State, tf: &mut TrapFrame, now: u64) -> (r: Option<Id>)
        requires
            old(self).spec_is_initialized(),
            old(self).sched().wf(),
            new_state.wf(),
            match old(self).sched().current {
                Some(id) => old(tf).tpidr == id,
                None => true,
            },
        ensures
            final(self).spec_is_initialized(),
            final(self).sched().wf(),
            final(self).sched().last_id == old(self).sched().last_id,
            Scheduler::switch_rel(
                old(self).sched(),
                new_state,
                now,
                final(self).sched(),
                *old(tf),
                *final(tf),
                r,
            ),
    {
        match &mut self.inner {
            Some(s) => s.switch(new_state, tf, now),
            None => vstd::pervasive::unreached(),
        }
    }

    /// Rescans for a ready process after an idle wait; see
    /// `Scheduler::find_next`.
    pub fn find_next(&mut self, tf: &mut TrapFrame, now: u64) -> (r: Option<Id>)
        requires
            old(self).spec_is_initialized(),
            old(self).sched().wf(),
            old(self).sched().current is None,
        ensures
            final(self).spec_is_initialized(),
            final(self).sched().wf(),
            final(self).sched().last_id == old(self).sched().last_id,
            Scheduler::scan_rel(
                old(self).sched().processes@,
                now,
                final(self).sched(),
                *old(tf),
                *final(tf),
                r,
            ),
    {
        match &mut self.inner {
            Some(s) => s.find_next(tf, now),
            None => vstd::pervasive::unreached(),
        }
    }
}

} // verus!
