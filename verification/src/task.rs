//! Virtual task manager: the concurrency core of the capability layer.
//!
//! The manager tracks every unit of concurrent work from the moment it is
//! spawned to the moment its resources are reclaimed.  The embedder drives
//! the actual execution (threads or a cooperative event loop) and reports
//! back through [`VirtualTaskManager::finish`]; the manager decides, and is
//! verified to decide correctly, when a spawn must be refused, what a
//! completion handle delivers, and when a unit's resources are given back.

use vstd::prelude::*;

verus! {

/// How a spawned unit runs: occupying a dedicated thread-of-execution until
/// it completes, or yielding back to a scheduler at suspension points.
#[derive(Clone, Copy, PartialEq, Eq, Structural, Debug)]
pub enum ExecutionKind {
    Blocking,
    Cooperative,
}

/// Which memory region the spawned unit operates over: an isolated region of
/// its own, or one shared with its spawner (trusted host-side helpers only).
#[derive(Clone, Copy, PartialEq, Eq, Structural, Debug)]
pub enum MemoryMode {
    Dedicated,
    Shared,
}

/// One unit of concurrent work.  The payload is an embedder-chosen name for
/// the work itself, which the embedder maps back to the code to run; the two
/// axes say how the manager must schedule it.
#[derive(Clone, Copy, PartialEq, Eq, Structural, Debug)]
pub struct SpawnDescriptor {
    pub execution: ExecutionKind,
    pub memory: MemoryMode,
    pub payload: u64,
}

impl SpawnDescriptor {
    /// Which backend action this descriptor calls for.
    pub open spec fn action_spec(&self) -> BackendAction {
        match (self.execution, self.memory) {
            (ExecutionKind::Blocking, MemoryMode::Dedicated) => BackendAction::IsolatedThread,
            (ExecutionKind::Blocking, MemoryMode::Shared) => BackendAction::SharedMemoryThread,
            (ExecutionKind::Cooperative, MemoryMode::Dedicated) => BackendAction::IsolatedTask,
            (ExecutionKind::Cooperative, MemoryMode::Shared) => BackendAction::SharedMemoryTask,
        }
    }

    /// Decide, exhaustively over both axes, what the backend must do with
    /// this unit: blocking units get a thread-of-execution of their own,
    /// cooperative units a scheduler slot, each over an isolated or a shared
    /// memory region as the descriptor demands.
    pub fn action(&self) -> (r: BackendAction)
        ensures
            r == self.action_spec(),
    {
        match (self.execution, self.memory) {
            (ExecutionKind::Blocking, MemoryMode::Dedicated) => BackendAction::IsolatedThread,
            (ExecutionKind::Blocking, MemoryMode::Shared) => BackendAction::SharedMemoryThread,
            (ExecutionKind::Cooperative, MemoryMode::Dedicated) => BackendAction::IsolatedTask,
            (ExecutionKind::Cooperative, MemoryMode::Shared) => BackendAction::SharedMemoryTask,
        }
    }
}

/// The concrete action an embedder's execution backend takes for one unit:
/// the four combinations of the two spawn axes, closed and exhaustive, so
/// that the dispatch decision stands in one place.
#[derive(Clone, Copy, PartialEq, Eq, Structural, Debug)]
pub enum BackendAction {
    /// Occupy a dedicated thread-of-execution over an isolated memory region.
    IsolatedThread,
    /// Occupy a dedicated thread-of-execution over the spawner's memory
    /// (trusted host-side helper work only).
    SharedMemoryThread,
    /// Schedule a cooperative task over an isolated memory region.
    IsolatedTask,
    /// Schedule a cooperative task over the spawner's memory.
    SharedMemoryTask,
}

/// What a finished unit delivered through its completion handle.  A unit's
/// own failure travels here, isolated from the scheduler's health.
#[derive(Clone, Copy, PartialEq, Eq, Structural, Debug)]
pub enum UnitOutcome {
    Success(u64),
    Failure(u64),
}

/// Lifecycle phase of one spawned unit.
///
/// `Running` units hold their resources (thread-of-execution and memory
/// region).  A unit whose handle was dropped while running is reclaimed the
/// moment it finishes; one whose handle is still live parks its outcome in
/// `Finished` until the handle resolves.  `Reclaimed` units hold nothing.
#[derive(Clone, Copy, PartialEq, Eq, Structural, Debug)]
pub enum UnitPhase {
    Running { handle_live: bool },
    Finished { outcome: UnitOutcome },
    Reclaimed { observed: bool },
}

/// Everything the manager remembers of one spawned unit.
#[derive(Clone, Copy, PartialEq, Eq, Structural, Debug)]
pub struct UnitRecord {
    pub desc: SpawnDescriptor,
    pub phase: UnitPhase,
}

/// The manager could not obtain resources for a new unit.
#[derive(Clone, Copy, PartialEq, Eq, Structural, Debug)]
pub enum SchedulingError {
    CapacityExhausted,
}

/// A unit in this phase still occupies a thread-of-execution slot or an
/// outcome slot; a reclaimed unit occupies nothing.
pub open spec fn holds_resources(u: UnitRecord) -> bool {
    !(u.phase is Reclaimed)
}

/// Whether a completion handle for this unit is still held by some caller.
pub open spec fn handle_live(u: UnitRecord) -> bool {
    match u.phase {
        UnitPhase::Running { handle_live } => handle_live,
        UnitPhase::Finished { .. } => true,
        UnitPhase::Reclaimed { .. } => false,
    }
}

/// How many units of a history still hold resources.
pub open spec fn live_count(s: Seq<UnitRecord>) -> int
    decreases s.len(),
{
    if s.len() == 0 {
        0
    } else {
        live_count(s.drop_last()) + if holds_resources(s.last()) {
            1int
        } else {
            0int
        }
    }
}

/// Effect of a spawn on the unit history: one fresh slot at the end, running,
/// with its handle live.
pub open spec fn spawn_effect(s: Seq<UnitRecord>, desc: SpawnDescriptor) -> Seq<UnitRecord> {
    s.push(UnitRecord { desc, phase: UnitPhase::Running { handle_live: true } })
}

/// Effect of a unit finishing: if its handle is still live the outcome is
/// parked for the handle to resolve; otherwise the unit is reclaimed on the
/// spot and the outcome is discarded.
pub open spec fn finish_effect(s: Seq<UnitRecord>, id: int, outcome: UnitOutcome) -> Seq<
    UnitRecord,
> {
    if handle_live(s[id]) {
        s.update(id, UnitRecord { desc: s[id].desc, phase: UnitPhase::Finished { outcome } })
    } else {
        s.update(id, UnitRecord { desc: s[id].desc, phase: UnitPhase::Reclaimed { observed: false } })
    }
}

/// Effect of resolving a completion handle: the unit is retired and marked
/// as observed.
pub open spec fn take_effect(s: Seq<UnitRecord>, id: int) -> Seq<UnitRecord> {
    s.update(id, UnitRecord { desc: s[id].desc, phase: UnitPhase::Reclaimed { observed: true } })
}

/// Effect of dropping a completion handle before it resolves: a running unit
/// keeps running with no handle; a parked outcome is discarded and its unit
/// reclaimed, unobserved.
pub open spec fn drop_effect(s: Seq<UnitRecord>, id: int) -> Seq<UnitRecord> {
    match s[id].phase {
        UnitPhase::Running { .. } => s.update(
            id,
            UnitRecord { desc: s[id].desc, phase: UnitPhase::Running { handle_live: false } },
        ),
        UnitPhase::Finished { .. } => s.update(
            id,
            UnitRecord { desc: s[id].desc, phase: UnitPhase::Reclaimed { observed: false } },
        ),
        UnitPhase::Reclaimed { .. } => s,
    }
}

/// A completion can be observed at `id` exactly when an outcome is parked
/// there.
pub open spec fn completion_available(s: Seq<UnitRecord>, id: int) -> bool {
    0 <= id < s.len() && s[id].phase is Finished
}

/// The virtual task manager.
///
/// `capacity` is the number of units the deployment can keep in flight at
/// once (its thread pool size, or the slot budget of its event loop); a
/// spawn that would exceed it fails fast with a [`SchedulingError`] rather
/// than panicking.
pub struct VirtualTaskManager {
    pub capacity: usize,
    pub units: Vec<UnitRecord>,
}

impl VirtualTaskManager {
    /// A manager for a deployment that can keep `capacity` units in flight.
    pub fn new(capacity: usize) -> (r: VirtualTaskManager)
        ensures
            r.capacity == capacity,
            r.units@ === Seq::<UnitRecord>::empty(),
    {
        let r = VirtualTaskManager { capacity, units: Vec::new() };
        proof {
            assert(r.units@ =~= Seq::<UnitRecord>::empty());
        }
        r
    }

    /// How many units currently hold resources (threads-of-execution or
    /// parked outcomes).  This is the figure that returns to its baseline
    /// after handle-drop cycles.
    pub fn in_use(&self) -> (n: usize)
        ensures
            n == live_count(self.units@),
    {
        let ghost s = self.units@;
        let mut n: usize = 0;
        let mut i: usize = 0;
        while i < self.units.len()
            invariant
                0 <= i <= self.units.len(),
                self.units@ === s,
                n <= i,
                n == live_count(s.take(i as int)),
            decreases self.units.len() - i,
        {
            proof {
                assert(s.take(i + 1).drop_last() =~= s.take(i as int));
                assert(s.take(i + 1).last() == s[i as int]);
            }
            let live = match self.units[i].phase {
                UnitPhase::Reclaimed { .. } => false,
                _ => true,
            };
            if live {
                n = n + 1;
            }
            i = i + 1;
        }
        proof {
            assert(s.take(s.len() as int) =~= s);
        }
        n
    }

    /// Schedule one unit of work.
    ///
    /// On success the unit occupies a fresh slot, running, with a live
    /// completion handle, and the returned identifier names that slot.  The
    /// spawn is refused, with an explicit error and no other effect, exactly
    /// when the deployment's capacity is already fully in use.
    pub fn spawn(&mut self, desc: SpawnDescriptor) -> (r: Result<usize, SchedulingError>)
        ensures
            match r {
                Ok(id) => {
                    &&& live_count(old(self).units@) < old(self).capacity
                    &&& id == old(self).units@.len()
                    &&& final(self).units@ === spawn_effect(old(self).units@, desc)
                    &&& final(self).capacity == old(self).capacity
                },
                Err(e) => {
                    &&& e == SchedulingError::CapacityExhausted
                    &&& live_count(old(self).units@) >= old(self).capacity
                    &&& *final(self) == *old(self)
                },
            },
    {
        let used = self.in_use();
        if used < self.capacity {
            let id = self.units.len();
            self.units.push(UnitRecord { desc, phase: UnitPhase::Running { handle_live: true } });
            Ok(id)
        } else {
            Err(SchedulingError::CapacityExhausted)
        }
    }

    /// Record that the unit in slot `id` has finished with `outcome`.
    ///
    /// The embedder's execution backend calls this once per unit.  Returns
    /// false, with no effect, if `id` names no running unit.  If the unit's
    /// handle was dropped while it ran, the unit is reclaimed immediately;
    /// otherwise the outcome is parked for the handle to resolve.
    pub fn finish(&mut self, id: usize, outcome: UnitOutcome) -> (r: bool)
        ensures
            r == (id < old(self).units@.len() && old(self).units@[id as int].phase is Running),
            r ==> final(self).units@ === finish_effect(old(self).units@, id as int, outcome),
            r ==> final(self).capacity == old(self).capacity,
            !r ==> *final(self) == *old(self),
    {
        if id >= self.units.len() {
            return false;
        }
        let desc = self.units[id].desc;
        match self.units[id].phase {
            UnitPhase::Running { handle_live } => {
                if handle_live {
                    self.units.set(
                        id,
                        UnitRecord { desc, phase: UnitPhase::Finished { outcome } },
                    );
                } else {
                    self.units.set(
                        id,
                        UnitRecord { desc, phase: UnitPhase::Reclaimed { observed: false } },
                    );
                }
                true
            },
            _ => false,
        }
    }

    /// Resolve the completion handle of slot `id`.
    ///
    /// Delivers the parked outcome exactly when the unit has finished and
    /// its outcome has not been observed yet; the unit is then retired, so a
    /// second resolution of the same handle delivers nothing.  A unit still
    /// running delivers nothing and is left untouched, for the caller to try
    /// again once the backend reports it finished.
    pub fn take_completion(&mut self, id: usize) -> (r: Option<UnitOutcome>)
        ensures
            match r {
                Some(outcome) => {
                    &&& completion_available(old(self).units@, id as int)
                    &&& old(self).units@[id as int].phase == (UnitPhase::Finished { outcome })
                    &&& final(self).units@ === take_effect(old(self).units@, id as int)
                    &&& final(self).capacity == old(self).capacity
                },
                None => {
                    &&& !completion_available(old(self).units@, id as int)
                    &&& *final(self) == *old(self)
                },
            },
    {
        if id >= self.units.len() {
            return None;
        }
        let desc = self.units[id].desc;
        match self.units[id].phase {
            UnitPhase::Finished { outcome } => {
                self.units.set(
                    id,
                    UnitRecord { desc, phase: UnitPhase::Reclaimed { observed: true } },
                );
                Some(outcome)
            },
            _ => None,
        }
    }

    /// Release the completion handle of slot `id` without resolving it.
    ///
    /// Returns true when a live handle was released.  A running unit keeps
    /// running, but unobserved; a parked outcome is discarded and its unit
    /// reclaimed at once.  Reclamation is the manager's duty, never the
    /// caller's: no slot keeps resources on account of a dropped handle.
    pub fn drop_handle(&mut self, id: usize) -> (r: bool)
        ensures
            r == (id < old(self).units@.len() && handle_live(old(self).units@[id as int])),
            r ==> final(self).units@ === drop_effect(old(self).units@, id as int),
            r ==> final(self).capacity == old(self).capacity,
            !r ==> *final(self) == *old(self),
    {
        if id >= self.units.len() {
            return false;
        }
        let desc = self.units[id].desc;
        match self.units[id].phase {
            UnitPhase::Running { handle_live } => {
                if handle_live {
                    self.units.set(
                        id,
                        UnitRecord { desc, phase: UnitPhase::Running { handle_live: false } },
                    );
                    true
                } else {
                    false
                }
            },
            UnitPhase::Finished { .. } => {
                self.units.set(
                    id,
                    UnitRecord { desc, phase: UnitPhase::Reclaimed { observed: false } },
                );
                true
            },
            UnitPhase::Reclaimed { .. } => false,
        }
    }
}

/// A push appends one slot: the resource count grows by one exactly when the
/// new slot holds resources.
pub proof fn lemma_live_count_push(s: Seq<UnitRecord>, u: UnitRecord)
    ensures
        live_count(s.push(u)) == live_count(s) + if holds_resources(u) {
            1int
        } else {
            0int
        },
{
    assert(s.push(u).drop_last() =~= s);
    assert(s.push(u).last() == u);
}

/// Replacing one slot changes the resource count by the difference the slot
/// contributes.
pub proof fn lemma_live_count_update(s: Seq<UnitRecord>, i: int, u: UnitRecord)
    requires
        0 <= i < s.len(),
    ensures
        live_count(s.update(i, u)) == live_count(s) + (if holds_resources(u) {
            1int
        } else {
            0int
        }) - (if holds_resources(s[i]) {
            1int
        } else {
            0int
        }),
    decreases s.len(),
{
    let t = s.update(i, u);
    if i == s.len() - 1 {
        assert(t.drop_last() =~= s.drop_last());
        assert(t.last() == u);
    } else {
        assert(t.drop_last() =~= s.drop_last().update(i, u));
        assert(t.last() == s.last());
        lemma_live_count_update(s.drop_last(), i, u);
    }
}

/// The state after the handles named by `ids` have been resolved one after
/// the other, in order.
pub open spec fn take_all(s: Seq<UnitRecord>, ids: Seq<int>) -> Seq<UnitRecord>
    decreases ids.len(),
{
    if ids.len() == 0 {
        s
    } else {
        take_all(take_effect(s, ids[0]), ids.skip(1))
    }
}

/// Resolving one more handle after a batch is the batch extended by it.
proof fn lemma_take_all_push(s: Seq<UnitRecord>, p: Seq<int>, x: int)
    ensures
        take_all(s, p.push(x)) == take_effect(take_all(s, p), x),
    decreases p.len(),
{
    if p.len() == 0 {
        assert(p.push(x)[0] == x);
        assert(p.push(x).skip(1) =~= Seq::<int>::empty());
        assert(take_all(take_effect(s, x), Seq::<int>::empty()) == take_effect(s, x));
        assert(take_all(s, Seq::<int>::empty()) == s);
    } else {
        let s1 = take_effect(s, p[0]);
        assert(p.push(x)[0] == p[0]);
        assert(p.push(x).skip(1) =~= p.skip(1).push(x));
        assert(take_all(s, p.push(x)) == take_all(s1, p.skip(1).push(x)));
        lemma_take_all_push(s1, p.skip(1), x);
        assert(take_all(s, p) == take_all(s1, p.skip(1)));
    }
}

/// A batch of resolutions splits at any point into its first `k` steps
/// followed by the rest.
proof fn lemma_take_all_split(s: Seq<UnitRecord>, ids: Seq<int>, k: int)
    requires
        0 <= k <= ids.len(),
    ensures
        take_all(s, ids) == take_all(take_all(s, ids.take(k)), ids.skip(k)),
    decreases ids.len(),
{
    if k == 0 {
        assert(ids.take(0) =~= Seq::<int>::empty());
        assert(ids.skip(0) =~= ids);
    } else {
        let s1 = take_effect(s, ids[0]);
        lemma_take_all_split(s1, ids.skip(1), k - 1);
        assert(ids.skip(1).take(k - 1) =~= ids.take(k).skip(1));
        assert(ids.skip(1).skip(k - 1) =~= ids.skip(k));
        assert(ids.take(k)[0] == ids[0]);
    }
}

/// A batch of resolutions does not change the length of the history.
proof fn lemma_take_all_len(s: Seq<UnitRecord>, ids: Seq<int>)
    requires
        forall|m: int| 0 <= m < ids.len() ==> 0 <= #[trigger] ids[m] < s.len(),
    ensures
        take_all(s, ids).len() == s.len(),
    decreases ids.len(),
{
    if ids.len() > 0 {
        let s1 = take_effect(s, ids[0]);
        assert forall|m: int| 0 <= m < ids.skip(1).len() implies 0 <= #[trigger] ids.skip(1)[m]
            < s1.len() by {
            assert(ids.skip(1)[m] == ids[m + 1]);
        }
        lemma_take_all_len(s1, ids.skip(1));
    }
}

/// A slot that none of the batch's handles name is left exactly as it was.
proof fn lemma_take_all_untouched_one(s: Seq<UnitRecord>, ids: Seq<int>, j: int)
    requires
        forall|m: int| 0 <= m < ids.len() ==> 0 <= #[trigger] ids[m] < s.len(),
        forall|m: int| 0 <= m < ids.len() ==> #[trigger] ids[m] != j,
        0 <= j < s.len(),
    ensures
        take_all(s, ids)[j] == s[j],
    decreases ids.len(),
{
    if ids.len() > 0 {
        let s1 = take_effect(s, ids[0]);
        assert forall|m: int| 0 <= m < ids.skip(1).len() implies 0 <= #[trigger] ids.skip(1)[m]
            < s1.len() && ids.skip(1)[m] != j by {
            assert(ids.skip(1)[m] == ids[m + 1]);
        }
        lemma_take_all_untouched_one(s1, ids.skip(1), j);
    }
}

/// Exactly-once completion: a parked outcome at `id` is delivered as it was
/// recorded, and resolving it retires the unit, so the same handle delivers
/// nothing a second time; every other slot is left exactly as it was, so the
/// completions of independent units are neither duplicated nor lost.
pub proof fn lemma_completion_exactly_once(s: Seq<UnitRecord>, id: int)
    requires
        completion_available(s, id),
    ensures
        !completion_available(take_effect(s, id), id),
        take_effect(s, id).len() == s.len(),
        forall|j: int| 0 <= j < s.len() && j != id ==> take_effect(s, id)[j] == s[j],
        forall|j: int|
            completion_available(s, j) && j != id ==> completion_available(take_effect(s, id), j),
{
}

/// All N completions observed exactly once, for any N: over a state where
/// the distinct handles named by `ids` each hold a parked completion,
/// resolving them in order finds, at the k-th step, slot `ids[k]` exactly as
/// it was recorded at the start — so the outcome delivered is the recorded
/// one, none lost, none altered by the earlier steps — and afterwards every
/// one of the N slots is retired and observed, so no handle of the batch
/// can deliver a second time; slots outside the batch are untouched.
pub proof fn lemma_batch_completions_exactly_once(s: Seq<UnitRecord>, ids: Seq<int>)
    requires
        forall|k: int| 0 <= k < ids.len() ==> completion_available(s, #[trigger] ids[k]),
        forall|k1: int, k2: int| 0 <= k1 < k2 < ids.len() ==> ids[k1] != ids[k2],
    ensures
        forall|k: int|
            0 <= k < ids.len() ==> take_all(s, ids.take(k))[#[trigger] ids[k]] == s[ids[k]],
        forall|k: int|
            0 <= k < ids.len() ==> !completion_available(take_all(s, ids), #[trigger] ids[k])
                && take_all(s, ids)[ids[k]].phase == (UnitPhase::Reclaimed { observed: true }),
        take_all(s, ids).len() == s.len(),
        forall|j: int|
            0 <= j < s.len() && !ids.contains(j) ==> #[trigger] take_all(s, ids)[j] == s[j],
{
    let n = ids.len() as int;
    lemma_take_all_len(s, ids);

    // At the k-th step, the earlier steps have not touched slot ids[k].
    assert forall|k: int| 0 <= k < n implies take_all(s, ids.take(k))[#[trigger] ids[k]]
        == s[ids[k]] by {
        assert forall|m: int| 0 <= m < ids.take(k).len() implies 0 <= #[trigger] ids.take(k)[m]
            < s.len() && ids.take(k)[m] != ids[k] by {
            assert(ids.take(k)[m] == ids[m]);
        }
        lemma_take_all_untouched_one(s, ids.take(k), ids[k]);
    }

    // After the whole batch, the k-th slot stands retired and observed: the
    // k-th step retires it, and the later steps do not touch it.
    assert forall|k: int| 0 <= k < n implies !completion_available(
        take_all(s, ids),
        #[trigger] ids[k],
    ) && take_all(s, ids)[ids[k]].phase == (UnitPhase::Reclaimed { observed: true }) by {
        let before = take_all(s, ids.take(k));
        let mid = take_all(s, ids.take(k + 1));
        assert forall|m: int| 0 <= m < ids.take(k).len() implies 0 <= #[trigger] ids.take(k)[m]
            < s.len() by {
            assert(ids.take(k)[m] == ids[m]);
        }
        lemma_take_all_len(s, ids.take(k));
        assert(ids.take(k + 1) =~= ids.take(k).push(ids[k]));
        lemma_take_all_push(s, ids.take(k), ids[k]);
        assert(mid[ids[k]].phase == (UnitPhase::Reclaimed { observed: true }));
        assert forall|m: int| 0 <= m < ids.take(k + 1).len() implies 0 <= #[trigger] ids.take(
            k + 1,
        )[m] < s.len() by {
            assert(ids.take(k + 1)[m] == ids[m]);
        }
        lemma_take_all_len(s, ids.take(k + 1));
        assert forall|m: int| 0 <= m < ids.skip(k + 1).len() implies 0 <= #[trigger] ids.skip(
            k + 1,
        )[m] < mid.len() && ids.skip(k + 1)[m] != ids[k] by {
            assert(ids.skip(k + 1)[m] == ids[m + k + 1]);
        }
        lemma_take_all_untouched_one(mid, ids.skip(k + 1), ids[k]);
        lemma_take_all_split(s, ids, k + 1);
    }

    // A slot outside the batch is untouched.
    assert forall|j: int| 0 <= j < s.len() && !ids.contains(j) implies #[trigger] take_all(
        s,
        ids,
    )[j] == s[j] by {
        assert forall|m: int| 0 <= m < ids.len() implies #[trigger] ids[m] != j by {
            if ids[m] == j {
                assert(ids.contains(j));
            }
        }
        lemma_take_all_untouched_one(s, ids, j);
    }
}

/// No leak on handle drop: spawning a unit, dropping its handle before it
/// resolves, and letting the unit finish leaves the resource count exactly
/// where it stood before the spawn — the manager reclaims the thread and the
/// outcome on its own.
pub proof fn lemma_drop_cycle_returns_to_baseline(
    s: Seq<UnitRecord>,
    desc: SpawnDescriptor,
    outcome: UnitOutcome,
)
    ensures
        ({
            let id = s.len() as int;
            let after = finish_effect(drop_effect(spawn_effect(s, desc), id), id, outcome);
            live_count(after) == live_count(s)
        }),
{
    let id = s.len() as int;
    let spawned = spawn_effect(s, desc);
    let dropped = drop_effect(spawned, id);
    let after = finish_effect(dropped, id, outcome);
    lemma_live_count_push(s, UnitRecord { desc, phase: UnitPhase::Running { handle_live: true } });
    lemma_live_count_update(
        spawned,
        id,
        UnitRecord { desc, phase: UnitPhase::Running { handle_live: false } },
    );
    lemma_live_count_update(
        dropped,
        id,
        UnitRecord { desc, phase: UnitPhase::Reclaimed { observed: false } },
    );
}

/// The same, for a handle dropped only after the unit finished: the parked
/// outcome is discarded and the count still returns to its baseline.
pub proof fn lemma_drop_after_finish_returns_to_baseline(
    s: Seq<UnitRecord>,
    desc: SpawnDescriptor,
    outcome: UnitOutcome,
)
    ensures
        ({
            let id = s.len() as int;
            let after = drop_effect(finish_effect(spawn_effect(s, desc), id, outcome), id);
            live_count(after) == live_count(s)
        }),
{
    let id = s.len() as int;
    let spawned = spawn_effect(s, desc);
    let finished = finish_effect(spawned, id, outcome);
    let after = drop_effect(finished, id);
    lemma_live_count_push(s, UnitRecord { desc, phase: UnitPhase::Running { handle_live: true } });
    lemma_live_count_update(
        spawned,
        id,
        UnitRecord { desc: desc, phase: UnitPhase::Finished { outcome } },
    );
    lemma_live_count_update(
        finished,
        id,
        UnitRecord { desc: desc, phase: UnitPhase::Reclaimed { observed: false } },
    );
}

} // verus!
