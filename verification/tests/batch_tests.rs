use plant_ingest::batch::{ingest_batch, BatchState, PoolModel, UnitEvent};
use plant_ingest::outcome::{classify_insert, InsertOutcome, UnitBehavior};

fn behavior(acquire_ok: bool, prepare_ok: bool, execute_ok: bool) -> UnitBehavior {
    UnitBehavior { acquire_ok, prepare_ok, execute_ok }
}

#[test]
fn classify_covers_every_failure_kind() {
    assert_eq!(
        classify_insert(behavior(false, true, true)),
        InsertOutcome::PoolExhaustedOrBroken
    );
    assert_eq!(
        classify_insert(behavior(true, false, true)),
        InsertOutcome::StatementPrepareError
    );
    assert_eq!(
        classify_insert(behavior(true, true, false)),
        InsertOutcome::ExecutionError
    );
    assert_eq!(classify_insert(behavior(true, true, true)), InsertOutcome::Inserted);
}

#[test]
fn scenario_capacity_five_width_one_hundred() {
    let mut pool = PoolModel::new(5);
    let mut behaviors = Vec::new();
    for k in 0..100 {
        // a mixed batch: every fourth unit fails at a different step
        behaviors.push(match k % 4 {
            0 => behavior(true, true, true),
            1 => behavior(false, true, true),
            2 => behavior(true, false, true),
            _ => behavior(true, true, false),
        });
    }
    let agg = ingest_batch(&mut pool, &behaviors);
    assert_eq!(agg.launched, 100);
    assert_eq!(agg.succeeded, 25);
    assert_eq!(agg.failed, 75);
    assert_eq!(agg.succeeded + agg.failed, 100);
    assert_eq!(pool.available, 5);
    assert_eq!(pool.capacity, 5);
}

#[test]
fn all_success_batch_leaves_pool_unchanged() {
    let mut pool = PoolModel::new(5);
    let behaviors = vec![behavior(true, true, true); 100];
    let agg = ingest_batch(&mut pool, &behaviors);
    assert_eq!(agg.succeeded, 100);
    assert_eq!(agg.failed, 0);
    assert_eq!(pool.available, 5);
}

#[test]
fn all_failure_batch_leaves_pool_unchanged() {
    let mut pool = PoolModel::new(5);
    let behaviors = vec![behavior(true, true, false); 100];
    let agg = ingest_batch(&mut pool, &behaviors);
    assert_eq!(agg.succeeded, 0);
    assert_eq!(agg.failed, 100);
    assert_eq!(pool.available, 5);
}

#[test]
fn malformed_statement_fails_every_insert_and_pool_recovers() {
    // a malformed field list surfaces at prepare time in every unit
    let mut pool = PoolModel::new(5);
    let beh = behavior(true, false, true);
    assert_eq!(classify_insert(beh), InsertOutcome::StatementPrepareError);
    let behaviors = vec![beh; 100];
    let agg = ingest_batch(&mut pool, &behaviors);
    assert_eq!(agg.succeeded, 0);
    assert_eq!(agg.failed, 100);
    assert_eq!(pool.available, 5);
    assert_eq!(pool.capacity, 5);
}

#[test]
fn checked_out_connections_never_exceed_capacity() {
    let pool = PoolModel::new(5);
    let mut batch = BatchState::start(pool, 100);
    for _ in 0..5 {
        assert!(batch.step(UnitEvent::AcquireOk));
    }
    assert_eq!(batch.holding, 5);
    assert_eq!(batch.pool.available, 0);
    // a sixth unit cannot obtain a connection while five are held
    assert!(!batch.step(UnitEvent::AcquireOk));
    assert_eq!(batch.holding, 5);
    // once one unit finishes, the freed connection can be checked out again
    assert!(batch.step(UnitEvent::FinishOk));
    assert!(batch.step(UnitEvent::AcquireOk));
    assert_eq!(batch.holding, 5);
}

#[test]
fn batch_is_complete_only_after_every_unit_is_terminal() {
    let pool = PoolModel::new(2);
    let mut batch = BatchState::start(pool, 2);
    assert!(!batch.is_complete());
    assert!(batch.step(UnitEvent::AcquireOk));
    assert!(batch.step(UnitEvent::FinishOk));
    // one unit is terminal, one is still pending: the barrier stays shut
    assert!(!batch.is_complete());
    assert!(batch.step(UnitEvent::AcquireOk));
    assert!(!batch.is_complete());
    assert!(batch.step(UnitEvent::FinishExecuteFailed));
    assert!(batch.is_complete());
    assert_eq!(batch.succeeded, 1);
    assert_eq!(batch.failed, 1);
    assert_eq!(batch.succeeded + batch.failed, batch.width);
    assert_eq!(batch.pool.available, batch.baseline);
}

#[test]
fn run_schedule_preserves_accounting() {
    let pool = PoolModel::new(1);
    let mut batch = BatchState::start(pool, 3);
    let schedule = vec![
        UnitEvent::AcquireOk,
        UnitEvent::AcquireOk, // not enabled: the only connection is held
        UnitEvent::FinishPrepareFailed,
        UnitEvent::AcquireFailed,
        UnitEvent::AcquireOk,
        UnitEvent::FinishOk,
    ];
    let applied = batch.run_schedule(&schedule);
    assert_eq!(applied, 5);
    assert!(batch.is_complete());
    assert_eq!(batch.succeeded, 1);
    assert_eq!(batch.failed, 2);
    assert_eq!(batch.pool.available, 1);
}
