//! The advisory-lock scheduler.
//!
//! Each named periodic task runs forever: derive a numeric lock identifier
//! from the task's name with a stable hash, try a non-blocking advisory
//! lock under that identifier, run the task body only when the lock was
//! acquired, release unconditionally (also when the body failed), and
//! sleep the task's interval whatever happened. The lock namespace is
//! modelled as the set of identifiers currently held, with acquisition
//! and release as its two atomic moves; the per-task control flow is a
//! pure transition function.

use vstd::prelude::*;
use std::collections::hash_map::DefaultHasher;
use std::hash::Hasher;
use vstd::std_specs::hash::DefaultHasherAdditionalSpecFns;
use vstd::string::StringSliceAdditionalSpecFns;

verus! {

/// The lock code of a task name: the low half of the stable digest of its
/// bytes.
pub open spec fn spec_lock_name_code(bytes: Seq<u8>) -> u32 {
    DefaultHasher::spec_finish(seq![bytes]) as u32
}

/// Derives the numeric lock identifier of a task name. The digest depends
/// on the name's bytes alone, so the same name maps to the same lock
/// identifier in every run of the same build.
pub fn hash_lock_name(name: &str) -> (r: u32)
    ensures
        r == spec_lock_name_code(name.spec_bytes()),
{
    let mut hasher = DefaultHasher::new();
    hasher.write(name.as_bytes());
    proof {
        assert(seq![name.spec_bytes()] =~= Seq::<Seq<u8>>::empty().push(name.spec_bytes()));
    }
    hasher.finish() as u32
}

/// The advisory-lock namespace: which numeric identifiers are held right
/// now, across every cooperating process.
#[derive(Debug)]
pub struct LockTable {
    pub held: Vec<i64>,
}

/// What a non-blocking acquisition attempt does to the held set: nothing
/// when the identifier is already held (and it fails), else it adds the
/// identifier (and succeeds).
pub open spec fn spec_try_acquire(held: Set<i64>, id: i64) -> (Set<i64>, bool) {
    if held.contains(id) {
        (held, false)
    } else {
        (held.insert(id), true)
    }
}

/// What a release does to the held set: it removes the identifier; the
/// report says whether it was held at all.
pub open spec fn spec_release(held: Set<i64>, id: i64) -> (Set<i64>, bool) {
    (held.remove(id), held.contains(id))
}

impl LockTable {
    /// The position of an identifier in the held list, if present.
    #[verifier::loop_isolation(false)]
    fn find_index(&self, id: i64) -> (r: Option<usize>)
        ensures
            match r {
                Some(j) => j < self.held@.len() && self.held@[j as int] == id,
                None => forall|m: int| 0 <= m < self.held@.len() ==> self.held@[m] != id,
            },
    {
        let n = self.held.len();
        for i in 0..n
            invariant
                forall|m: int| 0 <= m < i ==> self.held@[m] != id,
        {
            if self.held[i] == id {
                return Some(i);
            }
        }
        None
    }

    /// The identifiers held right now.
    pub open spec fn held_set(&self) -> Set<i64> {
        self.held@.to_set()
    }

    /// No identifier is held twice.
    pub open spec fn wf(&self) -> bool {
        forall|i: int, j: int|
            0 <= i < j < self.held@.len() ==> self.held@[i] != self.held@[j]
    }

    pub fn new() -> (r: LockTable)
        ensures
            r.wf(),
            r.held_set() =~= Set::empty(),
    {
        LockTable { held: Vec::new() }
    }

    /// Non-blocking acquisition: fails fast when the identifier is held.
    #[verifier::loop_isolation(false)]
    pub fn try_acquire(&mut self, id: i64) -> (acquired: bool)
        requires
            old(self).wf(),
        ensures
            final(self).wf(),
            (final(self).held_set(), acquired) == spec_try_acquire(old(self).held_set(), id),
    {
        match self.find_index(id) {
            Some(_) => {
                proof {
                    assert(old(self).held_set().contains(id));
                }
                false
            },
            None => {
                proof {
                    assert(!old(self).held_set().contains(id)) by {
                        if old(self).held_set().contains(id) {
                            let w = choose|w: int|
                                0 <= w < old(self).held@.len() && old(self).held@[w] == id;
                        }
                    }
                }
                self.held.push(id);
                proof {
                    assert(self.held@ == old(self).held@.push(id));
                    let before = old(self).held@;
                    let after = self.held@;
                    assert forall|v: i64| #[trigger] after.contains(v) implies before.contains(v)
                        || v == id by {
                        let w = choose|w: int| 0 <= w < after.len() && after[w] == v;
                        if w < before.len() {
                            assert(before[w] == v);
                        }
                    }
                    assert forall|v: i64| #[trigger] before.contains(v) implies after.contains(
                        v,
                    ) by {
                        let w = choose|w: int| 0 <= w < before.len() && before[w] == v;
                        assert(after[w] == v);
                    }
                    assert(after.contains(id)) by {
                        assert(after[after.len() - 1] == id);
                    }
                    assert(self.held_set() =~= old(self).held_set().insert(id));
                }
                true
            },
        }
    }

    /// Unconditional release: afterwards the identifier is not held.
    #[verifier::loop_isolation(false)]
    pub fn release(&mut self, id: i64) -> (was_held: bool)
        requires
            old(self).wf(),
        ensures
            final(self).wf(),
            (final(self).held_set(), was_held) == spec_release(old(self).held_set(), id),
    {
        match self.find_index(id) {
            Some(i) => {
                self.held.remove(i);
                proof {
                    assert(old(self).held_set().contains(id));
                    assert(self.held@ =~= old(self).held@.remove(i as int));
                    assert(self.held_set() =~= old(self).held_set().remove(id)) by {
                        lemma_remove_unique(old(self).held@, i as int);
                    }
                }
                true
            },
            None => {
                proof {
                    assert(!old(self).held_set().contains(id)) by {
                        if old(self).held_set().contains(id) {
                            let w = choose|w: int|
                                0 <= w < old(self).held@.len() && old(self).held@[w] == id;
                        }
                    }
                    assert(self.held_set() =~= old(self).held_set().remove(id));
                }
                false
            },
        }
    }
}

/// Removing the only occurrence of a value from a duplicate-free sequence
/// removes exactly that value from its set.
proof fn lemma_remove_unique(held: Seq<i64>, i: int)
    requires
        0 <= i < held.len(),
        forall|a: int, b: int| 0 <= a < b < held.len() ==> held[a] != held[b],
    ensures
        held.remove(i).to_set() =~= held.to_set().remove(held[i]),
        forall|a: int, b: int|
            0 <= a < b < held.remove(i).len() ==> held.remove(i)[a] != held.remove(i)[b],
{
    let removed = held.remove(i);
    assert forall|v: i64| removed.to_set().contains(v) implies held.to_set().remove(
        held[i],
    ).contains(v) by {
        let w = choose|w: int| 0 <= w < removed.len() && removed[w] == v;
        if w < i {
            assert(held[w] == v);
        } else {
            assert(held[w + 1] == v);
        }
    }
    assert forall|v: i64| held.to_set().remove(held[i]).contains(v) implies removed.to_set()
        .contains(v) by {
        let w = choose|w: int| 0 <= w < held.len() && held[w] == v;
        if w < i {
            assert(removed[w] == v);
        } else {
            assert(removed[w - 1] == v);
        }
    }
}

/// Under one lock identifier, of two acquisition attempts in a row the
/// first succeeds and the second fails: only one runner can hold a task's
/// lock, and the loser changes nothing.
pub proof fn lemma_lock_mutual_exclusion(held: Set<i64>, id: i64)
    requires
        !held.contains(id),
    ensures
        ({
            let first = spec_try_acquire(held, id);
            let second = spec_try_acquire(first.0, id);
            &&& first.1
            &&& !second.1
            &&& second.0 == first.0
        }),
{
}

/// Releasing after a successful acquisition restores the held set, so a
/// finished task frees its name for the next tick.
pub proof fn lemma_release_restores(held: Set<i64>, id: i64)
    requires
        !held.contains(id),
    ensures
        spec_release(spec_try_acquire(held, id).0, id).0 =~= held,
        spec_release(spec_try_acquire(held, id).0, id).1,
{
}

/// Where a task's control flow stands between two moves.
#[derive(Debug, Clone, Copy, PartialEq, Eq, Structural)]
pub enum TaskState {
    /// Waiting for the next tick.
    Idle,
    /// A lock attempt is under way.
    Acquiring,
    /// The lock is held and the body runs.
    Running,
    /// The body is done and the lock is being released.
    Releasing,
}

/// What just happened to a task.
#[derive(Debug, Clone, Copy, PartialEq, Eq, Structural)]
pub enum TaskEvent {
    /// The sleep ended; time for the next attempt.
    TickDue,
    /// The lock attempt reported back.
    AcquireResult(bool),
    /// The body finished; the payload says whether it succeeded.
    BodyFinished(bool),
    /// The release completed.
    Released,
}

/// What the runner must do next.
#[derive(Debug, Clone, Copy, PartialEq, Eq, Structural)]
pub enum TaskAction {
    /// Attempt the non-blocking lock under this identifier.
    TryAcquire(i64),
    /// Run the task body.
    RunBody,
    /// Release the lock under this identifier.
    ReleaseLock(i64),
    /// Sleep this many seconds, then report a tick.
    Sleep(u64),
}

/// The per-task transition function: on a tick attempt the lock; run the
/// body only when it was acquired, else skip straight to the sleep; after
/// the body — however it ended — release; after the release, sleep. An
/// event that does not belong to the state changes nothing but the sleep.
pub open spec fn spec_scheduler_step(
    state: TaskState,
    event: TaskEvent,
    lock_id: i64,
    interval_secs: u64,
) -> (TaskState, TaskAction) {
    match (state, event) {
        (TaskState::Idle, TaskEvent::TickDue) => (
            TaskState::Acquiring,
            TaskAction::TryAcquire(lock_id),
        ),
        (TaskState::Acquiring, TaskEvent::AcquireResult(true)) => (
            TaskState::Running,
            TaskAction::RunBody,
        ),
        (TaskState::Acquiring, TaskEvent::AcquireResult(false)) => (
            TaskState::Idle,
            TaskAction::Sleep(interval_secs),
        ),
        (TaskState::Running, TaskEvent::BodyFinished(_)) => (
            TaskState::Releasing,
            TaskAction::ReleaseLock(lock_id),
        ),
        (TaskState::Releasing, TaskEvent::Released) => (
            TaskState::Idle,
            TaskAction::Sleep(interval_secs),
        ),
        _ => (state, TaskAction::Sleep(interval_secs)),
    }
}

/// Drives one task transition. A contended lock is a routine skip, never
/// an abort; a finished body — successful or not — is always followed by
/// the release; and every path returns to sleeping out the interval.
pub fn scheduler_step(state: TaskState, event: TaskEvent, lock_id: i64, interval_secs: u64) -> (r:
    (TaskState, TaskAction))
    ensures
        r == spec_scheduler_step(state, event, lock_id, interval_secs),
        state is Running && event is BodyFinished ==> r == (
            TaskState::Releasing,
            TaskAction::ReleaseLock(lock_id),
        ),
{
    match (state, event) {
        (TaskState::Idle, TaskEvent::TickDue) => (
            TaskState::Acquiring,
            TaskAction::TryAcquire(lock_id),
        ),
        (TaskState::Acquiring, TaskEvent::AcquireResult(true)) => (
            TaskState::Running,
            TaskAction::RunBody,
        ),
        (TaskState::Acquiring, TaskEvent::AcquireResult(false)) => (
            TaskState::Idle,
            TaskAction::Sleep(interval_secs),
        ),
        (TaskState::Running, TaskEvent::BodyFinished(_)) => (
            TaskState::Releasing,
            TaskAction::ReleaseLock(lock_id),
        ),
        (TaskState::Releasing, TaskEvent::Released) => (
            TaskState::Idle,
            TaskAction::Sleep(interval_secs),
        ),
        (s, _) => (s, TaskAction::Sleep(interval_secs)),
    }
}

} // verus!
