//! Outcomes of one record-insert operation and the error taxonomy of the
//! service's database paths.

use vstd::prelude::*;

verus! {

/// Every way a database path can fail: pool acquisition errored or the
/// pool is broken, the statement could not be prepared (malformed SQL or
/// schema mismatch), execution failed (constraint violation, type
/// mismatch, connection loss), or a read path found no row where one was
/// expected.
#[derive(Clone, Copy, PartialEq, Eq, Structural, Debug)]
pub enum DbError {
    PoolExhaustedOrBroken,
    StatementPrepareError,
    ExecutionError,
    NotFound,
}

/// The terminal state of one insert operation: the row was persisted, or
/// exactly one of the failure kinds occurred — never both.
#[derive(Clone, Copy, PartialEq, Eq, Structural, Debug)]
pub enum InsertOutcome {
    Inserted,
    PoolExhaustedOrBroken,
    StatementPrepareError,
    ExecutionError,
}

/// What the external collaborators (pool and database) did for one unit of
/// work: whether acquisition, statement preparation, and execution each
/// succeeded.
#[derive(Clone, Copy, PartialEq, Eq, Structural, Debug)]
pub struct UnitBehavior {
    pub acquire_ok: bool,
    pub prepare_ok: bool,
    pub execute_ok: bool,
}

/// The outcome an insert operation reaches for a given collaborator
/// behavior: the steps run in order and the first failure short-circuits
/// the rest.
pub open spec fn classification(beh: UnitBehavior) -> InsertOutcome {
    if !beh.acquire_ok {
        InsertOutcome::PoolExhaustedOrBroken
    } else if !beh.prepare_ok {
        InsertOutcome::StatementPrepareError
    } else if !beh.execute_ok {
        InsertOutcome::ExecutionError
    } else {
        InsertOutcome::Inserted
    }
}

/// A unit succeeds exactly when all three steps succeed.
pub open spec fn behavior_succeeds(beh: UnitBehavior) -> bool {
    beh.acquire_ok && beh.prepare_ok && beh.execute_ok
}

/// Classifies one insert attempt from the outcomes of its three
/// externally performed steps.
pub fn classify_insert(beh: UnitBehavior) -> (r: InsertOutcome)
    ensures
        r == classification(beh),
        r == InsertOutcome::Inserted <==> behavior_succeeds(beh),
{
    if !beh.acquire_ok {
        InsertOutcome::PoolExhaustedOrBroken
    } else if !beh.prepare_ok {
        InsertOutcome::StatementPrepareError
    } else if !beh.execute_ok {
        InsertOutcome::ExecutionError
    } else {
        InsertOutcome::Inserted
    }
}

} // verus!
