//! The fan-out coordinator, modeled as a state machine over a bounded
//! connection pool. Each launched unit acquires one pooled connection,
//! attempts its insert, and releases the connection on every exit path;
//! the coordinator joins on all units before reporting. The functions
//! here are the decision core; an unverified outer layer performs the
//! actual pool checkout and database round trips and feeds the results
//! back in as events.

use vstd::prelude::*;

use crate::outcome::{behavior_succeeds, classification, InsertOutcome, UnitBehavior};

verus! {

/// A bounded connection pool, described by how many connections it was
/// created with and how many are currently available for checkout.
#[derive(Clone, Copy, PartialEq, Eq, Structural, Debug)]
pub struct PoolModel {
    pub capacity: usize,
    pub available: usize,
}

impl PoolModel {
    /// A pool never has more connections available than it was created with.
    pub open spec fn wf(self) -> bool {
        self.available <= self.capacity
    }

    /// A fresh pool with every connection available.
    pub fn new(capacity: usize) -> (p: PoolModel)
        ensures
            p.capacity == capacity,
            p.available == capacity,
            p.wf(),
    {
        PoolModel { capacity, available: capacity }
    }
}

/// One scheduling event of a running batch: a pending unit obtains a
/// connection, a pending unit's acquisition errors, or a unit holding a
/// connection finishes (successfully, failing to prepare, or failing to
/// execute) and gives its connection back.
#[derive(Clone, Copy, PartialEq, Eq, Structural, Debug)]
pub enum UnitEvent {
    AcquireOk,
    AcquireFailed,
    FinishOk,
    FinishPrepareFailed,
    FinishExecuteFailed,
}

/// The state of one fan-out batch: how many of its `width` units are
/// still pending, currently hold a connection, or have reached a terminal
/// state, together with the pool they share. `baseline` records how many
/// connections were available when the batch started.
#[derive(Clone, Copy, PartialEq, Eq, Structural, Debug)]
pub struct BatchState {
    pub width: usize,
    pub pending: usize,
    pub holding: usize,
    pub succeeded: usize,
    pub failed: usize,
    pub pool: PoolModel,
    pub baseline: usize,
}

impl BatchState {
    /// The batch invariant: every unit is in exactly one state, the pool
    /// is well formed, and every connection is either available or held
    /// by a unit — none is ever lost.
    pub open spec fn wf(self) -> bool {
        &&& self.pending + self.holding + self.succeeded + self.failed == self.width
        &&& self.pool.wf()
        &&& self.holding + self.pool.available == self.baseline
        &&& self.baseline <= self.pool.capacity
    }

    /// All units have reached a terminal state: the join barrier is open.
    pub open spec fn complete(self) -> bool {
        self.pending == 0 && self.holding == 0
    }

    /// An event can fire only when a unit is in the state it moves from,
    /// and a unit can obtain a connection only when one is available.
    pub open spec fn enabled(self, ev: UnitEvent) -> bool {
        match ev {
            UnitEvent::AcquireOk => self.pending > 0 && self.pool.available > 0,
            UnitEvent::AcquireFailed => self.pending > 0,
            UnitEvent::FinishOk => self.holding > 0,
            UnitEvent::FinishPrepareFailed => self.holding > 0,
            UnitEvent::FinishExecuteFailed => self.holding > 0,
        }
    }

    /// The state an enabled event moves the batch to.
    pub open spec fn apply(self, ev: UnitEvent) -> BatchState
        recommends
            self.enabled(ev),
    {
        match ev {
            UnitEvent::AcquireOk => BatchState {
                pending: (self.pending - 1) as usize,
                holding: (self.holding + 1) as usize,
                pool: PoolModel {
                    available: (self.pool.available - 1) as usize,
                    ..self.pool
                },
                ..self
            },
            UnitEvent::AcquireFailed => BatchState {
                pending: (self.pending - 1) as usize,
                failed: (self.failed + 1) as usize,
                ..self
            },
            UnitEvent::FinishOk => BatchState {
                holding: (self.holding - 1) as usize,
                succeeded: (self.succeeded + 1) as usize,
                pool: PoolModel {
                    available: (self.pool.available + 1) as usize,
                    ..self.pool
                },
                ..self
            },
            UnitEvent::FinishPrepareFailed => BatchState {
                holding: (self.holding - 1) as usize,
                failed: (self.failed + 1) as usize,
                pool: PoolModel {
                    available: (self.pool.available + 1) as usize,
                    ..self.pool
                },
                ..self
            },
            UnitEvent::FinishExecuteFailed => BatchState {
                holding: (self.holding - 1) as usize,
                failed: (self.failed + 1) as usize,
                pool: PoolModel {
                    available: (self.pool.available + 1) as usize,
                    ..self.pool
                },
                ..self
            },
        }
    }

    /// Starts a batch of `width` units against `pool`: every unit is
    /// pending, nothing has been checked out by the batch yet.
    pub fn start(pool: PoolModel, width: usize) -> (b: BatchState)
        requires
            pool.wf(),
        ensures
            b.wf(),
            b.width == width,
            b.pending == width,
            b.holding == 0,
            b.succeeded == 0,
            b.failed == 0,
            b.pool == pool,
            b.baseline == pool.available,
    {
        BatchState {
            width,
            pending: width,
            holding: 0,
            succeeded: 0,
            failed: 0,
            pool,
            baseline: pool.available,
        }
    }

    /// Fires one scheduling event if it is enabled; reports whether it
    /// was. Preserves the batch invariant, so no interleaving of events
    /// can lose a connection or overdraw the pool.
    pub fn step(&mut self, ev: UnitEvent) -> (applied: bool)
        requires
            old(self).wf(),
        ensures
            final(self).wf(),
            applied == old(self).enabled(ev),
            applied ==> *final(self) == old(self).apply(ev),
            !applied ==> *final(self) == *old(self),
            final(self).width == old(self).width,
            final(self).baseline == old(self).baseline,
            final(self).pool.capacity == old(self).pool.capacity,
    {
        match ev {
            UnitEvent::AcquireOk => {
                if self.pending > 0 && self.pool.available > 0 {
                    self.pending = self.pending - 1;
                    self.holding = self.holding + 1;
                    self.pool.available = self.pool.available - 1;
                    true
                } else {
                    false
                }
            },
            UnitEvent::AcquireFailed => {
                if self.pending > 0 {
                    self.pending = self.pending - 1;
                    self.failed = self.failed + 1;
                    true
                } else {
                    false
                }
            },
            UnitEvent::FinishOk => {
                if self.holding > 0 {
                    self.holding = self.holding - 1;
                    self.succeeded = self.succeeded + 1;
                    self.pool.available = self.pool.available + 1;
                    true
                } else {
                    false
                }
            },
            UnitEvent::FinishPrepareFailed => {
                if self.holding > 0 {
                    self.holding = self.holding - 1;
                    self.failed = self.failed + 1;
                    self.pool.available = self.pool.available + 1;
                    true
                } else {
                    false
                }
            },
            UnitEvent::FinishExecuteFailed => {
                if self.holding > 0 {
                    self.holding = self.holding - 1;
                    self.failed = self.failed + 1;
                    self.pool.available = self.pool.available + 1;
                    true
                } else {
                    false
                }
            },
        }
    }

    /// Whether all units have reached a terminal state.
    pub fn is_complete(&self) -> (r: bool)
        ensures
            r == self.complete(),
    {
        self.pending == 0 && self.holding == 0
    }

    /// Where a schedule of events leads from `s`, firing each enabled
    /// event in order and skipping the rest, together with how many events
    /// fired.
    pub open spec fn after_schedule(s: BatchState, sched: Seq<UnitEvent>) -> (BatchState, nat)
        decreases sched.len(),
    {
        if sched.len() == 0 {
            (s, 0)
        } else if s.enabled(sched[0]) {
            let rest = Self::after_schedule(s.apply(sched[0]), sched.subrange(1, sched.len() as int));
            (rest.0, rest.1 + 1)
        } else {
            Self::after_schedule(s, sched.subrange(1, sched.len() as int))
        }
    }

    /// Fires a whole schedule of events in order, skipping any that are
    /// not enabled, and reports how many fired. Whatever the interleaving,
    /// the batch invariant holds afterward (and, by `wf`, held at every
    /// intermediate state).
    pub fn run_schedule(&mut self, schedule: &Vec<UnitEvent>) -> (applied_count: usize)
        requires
            old(self).wf(),
        ensures
            final(self).wf(),
            *final(self) == Self::after_schedule(*old(self), schedule@).0,
            applied_count == Self::after_schedule(*old(self), schedule@).1,
            applied_count <= schedule@.len(),
            final(self).width == old(self).width,
            final(self).baseline == old(self).baseline,
            final(self).pool.capacity == old(self).pool.capacity,
    {
        let mut applied_count: usize = 0;
        let mut k: usize = 0;
        proof {
            assert(schedule@.subrange(0, schedule@.len() as int) =~= schedule@);
        }
        while k < schedule.len()
            invariant
                self.wf(),
                k <= schedule@.len(),
                applied_count <= k,
                self.width == old(self).width,
                self.baseline == old(self).baseline,
                self.pool.capacity == old(self).pool.capacity,
                Self::after_schedule(*old(self), schedule@).0 == Self::after_schedule(
                    *self,
                    schedule@.subrange(k as int, schedule@.len() as int),
                ).0,
                Self::after_schedule(*old(self), schedule@).1 == applied_count
                    + Self::after_schedule(
                    *self,
                    schedule@.subrange(k as int, schedule@.len() as int),
                ).1,
            decreases schedule@.len() - k,
        {
            let ghost suffix = schedule@.subrange(k as int, schedule@.len() as int);
            let fired = self.step(schedule[k]);
            proof {
                assert(suffix[0] == schedule@[k as int]);
                assert(suffix.subrange(1, suffix.len() as int) =~= schedule@.subrange(
                    k + 1,
                    schedule@.len() as int,
                ));
            }
            if fired {
                applied_count = applied_count + 1;
            }
            k = k + 1;
        }
        proof {
            assert(schedule@.subrange(schedule@.len() as int, schedule@.len() as int)
                =~= Seq::<UnitEvent>::empty());
        }
        applied_count
    }
}

/// How many units of a batch end up inserted when the collaborators
/// behave as `behaviors` says, unit by unit.
pub open spec fn count_inserted(behaviors: Seq<UnitBehavior>) -> nat
    decreases behaviors.len(),
{
    if behaviors.len() == 0 {
        0
    } else {
        count_inserted(behaviors.drop_last()) + (if behavior_succeeds(behaviors.last()) {
            1nat
        } else {
            0nat
        })
    }
}

/// The aggregate outcome of one fan-out batch: every launched unit's
/// terminal state, folded to counts at the join point.
#[derive(Clone, Copy, PartialEq, Eq, Structural, Debug)]
pub struct AggregateOutcome {
    pub launched: usize,
    pub succeeded: usize,
    pub failed: usize,
}

impl BatchState {
    /// Runs one pending unit to its terminal state: acquire a connection,
    /// prepare, execute, and release the connection on every exit path —
    /// it never leaks, whichever step failed. The three flags of `beh`
    /// say what the pool and the database did for this unit.
    pub fn insert_unit(&mut self, beh: UnitBehavior) -> (r: InsertOutcome)
        requires
            old(self).wf(),
            old(self).pending > 0,
            beh.acquire_ok ==> old(self).pool.available > 0,
        ensures
            final(self).wf(),
            r == classification(beh),
            final(self).pending == old(self).pending - 1,
            final(self).holding == old(self).holding,
            final(self).pool == old(self).pool,
            final(self).width == old(self).width,
            final(self).baseline == old(self).baseline,
            behavior_succeeds(beh) ==> final(self).succeeded == old(self).succeeded + 1
                && final(self).failed == old(self).failed,
            !behavior_succeeds(beh) ==> final(self).failed == old(self).failed + 1
                && final(self).succeeded == old(self).succeeded,
    {
        if !beh.acquire_ok {
            self.step(UnitEvent::AcquireFailed);
            return InsertOutcome::PoolExhaustedOrBroken;
        }
        self.step(UnitEvent::AcquireOk);
        if !beh.prepare_ok {
            self.step(UnitEvent::FinishPrepareFailed);
            InsertOutcome::StatementPrepareError
        } else if !beh.execute_ok {
            self.step(UnitEvent::FinishExecuteFailed);
            InsertOutcome::ExecutionError
        } else {
            self.step(UnitEvent::FinishOk);
            InsertOutcome::Inserted
        }
    }
}

/// The fan-out coordinator: launches one insert unit per entry of
/// `behaviors` against the shared pool and joins on all of them. It
/// returns only once every unit has reached a terminal state, reports how
/// many succeeded and how many failed, and hands the pool back with
/// exactly as many connections available as it found.
pub fn ingest_batch(pool: &mut PoolModel, behaviors: &Vec<UnitBehavior>) -> (agg:
    AggregateOutcome)
    requires
        old(pool).wf(),
        (forall|k: int|
            0 <= k < behaviors@.len() && behaviors@[k].acquire_ok ==> old(
                pool,
            ).available > 0),
    ensures
        *final(pool) == *old(pool),
        agg.launched == behaviors@.len(),
        agg.succeeded == count_inserted(behaviors@),
        agg.succeeded + agg.failed == agg.launched,
{
    let width = behaviors.len();
    let mut b = BatchState::start(*pool, width);
    let mut k: usize = 0;
    proof {
        assert(behaviors@.subrange(0, 0) =~= Seq::<UnitBehavior>::empty());
    }
    while k < width
        invariant
            b.wf(),
            k <= width,
            width == behaviors@.len(),
            forall|j: int|
                0 <= j < behaviors@.len() && behaviors@[j].acquire_ok ==> old(
                    pool,
                ).available > 0,
            b.width == width,
            b.pending == width - k,
            b.holding == 0,
            b.pool == *old(pool),
            b.baseline == old(pool).available,
            b.succeeded == count_inserted(behaviors@.subrange(0, k as int)),
            b.succeeded + b.failed == k,
        decreases width - k,
    {
        let beh = behaviors[k];
        b.insert_unit(beh);
        proof {
            let pre = behaviors@.subrange(0, k as int);
            let post = behaviors@.subrange(0, k + 1);
            assert(post.drop_last() =~= pre);
            assert(post.last() == behaviors@[k as int]);
        }
        k = k + 1;
    }
    proof {
        assert(behaviors@.subrange(0, width as int) =~= behaviors@);
        assert(b.complete());
        lemma_complete_no_leak(b);
        lemma_complete_all_terminal(b);
    }
    *pool = b.pool;
    AggregateOutcome { launched: width, succeeded: b.succeeded, failed: b.failed }
}

/// Join barrier: once a batch is complete, every one of its `width` units
/// has reached a terminal state — the successes and failures account for
/// the whole batch.
pub proof fn lemma_complete_all_terminal(b: BatchState)
    requires
        b.wf(),
        b.complete(),
    ensures
        b.succeeded + b.failed == b.width,
{
}

/// Connection-leak freedom: once no unit holds a connection, the pool has
/// exactly as many connections available as when the batch started,
/// however many units succeeded or failed.
pub proof fn lemma_complete_no_leak(b: BatchState)
    requires
        b.wf(),
        b.complete(),
    ensures
        b.pool.available == b.baseline,
{
}

/// Bounded checkout: at any reachable state, the units simultaneously
/// holding a connection never outnumber the pool's capacity.
pub proof fn lemma_holding_bounded(b: BatchState)
    requires
        b.wf(),
    ensures
        b.holding <= b.pool.capacity,
{
}

} // verus!
