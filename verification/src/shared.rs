//! The shared world handle: the single mutable resource behind one lock.
//!
//! Exactly one `WorldState` exists per handle. The stepping path takes the
//! lock exclusively for the whole step; the read path holds it only for the
//! copy of tick and population. The lock (vstd's verified reader-writer lock)
//! only ever stores fully stepped, well-formed states: a reader sees the
//! world before a step or after it, never between the births addition and
//! the deaths subtraction.

use vstd::prelude::*;
use vstd::rwlock::RwLock;
use vstd::rwlock::RwLockPredicate;

use crate::step::StepRecord;
use crate::step::spec_record;
use crate::world::WorldModel;
use crate::world::WorldState;

verus! {

/// The lock invariant: every value the lock can hold is a well-formed world
/// whose age group table still has the cardinality fixed at construction.
pub struct WorldPred {
    pub groups_len: nat,
}

impl RwLockPredicate<WorldState> for WorldPred {
    open spec fn inv(self, w: WorldState) -> bool {
        w.wf() && w.age_groups@.len() == self.groups_len
    }
}

/// A consistent point-in-time copy of tick and population: what the query
/// path hands to a caller for rendering.
#[derive(Clone, Copy, PartialEq, Eq, Structural, Debug)]
pub struct Snapshot {
    pub tick: u32,
    pub population: u32,
}

impl WorldState {
    /// A snapshot of this one state: tick and population copied together, so
    /// the pair is internally consistent by construction.
    pub fn snapshot(&self) -> (s: Snapshot)
        ensures
            s.tick == self@.tick,
            s.population == self@.population,
    {
        Snapshot { tick: self.tick, population: self.population }
    }
}

/// The one shared world of a running process: the stepping task and any
/// number of concurrent query callers all go through this handle.
pub struct SharedWorld {
    lock: RwLock<WorldState, WorldPred>,
}

impl SharedWorld {
    /// The cardinality of the age group table behind this handle: fixed at
    /// construction, never changed by a step.
    pub closed spec fn table_len(self) -> nat {
        self.lock.pred().groups_len
    }

    pub fn new(initial: WorldState) -> (s: SharedWorld)
        requires
            initial.wf(),
        ensures
            s.table_len() == initial@.age_groups.len(),
    {
        let ghost pred = WorldPred { groups_len: initial.age_groups@.len() };
        SharedWorld { lock: RwLock::new(initial, Ghost(pred)) }
    }

    /// The read path: acquire the guard, copy tick and population, release.
    /// No formatting or other work happens while the guard is held. The two
    /// fields always come from one single well-formed world, so a read that
    /// overlaps a step in time returns the pre-step or the post-step pair,
    /// never a torn one.
    pub fn query(&self) -> (s: Snapshot)
        ensures
            exists|w: WorldModel| #[trigger]
                w.wf() && w.age_groups.len() == self.table_len() && s.tick == w.tick
                    && s.population == w.population,
    {
        let handle = self.lock.acquire_read();
        let state = handle.borrow();
        let snap = state.snapshot();
        proof {
            assert(state@.wf() && state@.age_groups.len() == self.table_len() && snap.tick
                == state@.tick && snap.population == state@.population);
        }
        handle.release_read();
        snap
    }

    /// One scheduler-driven tick: acquire the guard exclusively, advance the
    /// world by one step (with freshly drawn event flags), release. The lock
    /// never holds a partially stepped state: the pre-step value stays in
    /// place until the fully stepped one replaces it.
    pub fn step_once(&self) -> (r: StepRecord)
        ensures
            exists|w: WorldModel, s: bool, ill: bool|
                w.wf() && w.age_groups.len() == self.table_len() && r == #[trigger] spec_record(
                    w,
                    s,
                    ill,
                ),
    {
        let (mut state, write_handle) = self.lock.acquire_write();
        let ghost before = state@;
        let r = state.advance();
        write_handle.release_write(state);
        proof {
            assert(before.wf() && before.age_groups.len() == self.table_len());
        }
        r
    }
}

} // verus!
