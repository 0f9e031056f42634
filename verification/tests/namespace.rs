use pmc_ledger::activity::ActivityReplay;
use pmc_ledger::load_error::ActionPersistenceLoadError;
use pmc_ledger::model::{
    ActionPersistenceCommand, ActionPersistenceResult, ActionReplayCapsule, AuditTarget,
    RejectedPreparedIntentOutcome,
};
use pmc_ledger::namespace::assemble_namespace;

fn capsule(key: &str, ordinal: u64) -> ActionReplayCapsule {
    ActionReplayCapsule {
        idempotency_id: key.to_string(),
        correlation_id: format!("corr-{key}"),
        operation_ordinal: ordinal,
        command: ActionPersistenceCommand::RejectPrepared {
            prepared_id: format!("pi-{key}"),
            actor: "head_of_products".to_string(),
        },
        result: ActionPersistenceResult::Rejected(RejectedPreparedIntentOutcome {
            prepared_intent_id: format!("pi-{key}"),
            expired: false,
            audit_event_id: format!("audit-{key}"),
            occurred_at: 100,
            target: AuditTarget::ActionRequest("req-1".to_string()),
        }),
    }
}

fn replayed(replay: Vec<ActionReplayCapsule>) -> ActivityReplay {
    ActivityReplay { actions: Vec::new(), replay, pending: Vec::new(), discarded: Vec::new() }
}

#[test]
fn assembled_namespace_orders_the_recorded_commands() {
    let snapshot = assemble_namespace(Vec::new(), replayed(vec![capsule("b", 1), capsule("a", 0), capsule("c", 2)])).unwrap();
    let ordinals: Vec<u64> = snapshot.replay.iter().map(|c| c.operation_ordinal).collect();
    assert_eq!(ordinals, vec![0, 1, 2]);
    assert_eq!(snapshot.replay[0].idempotency_id, "a");
    assert!(snapshot.prepared.is_empty());
    assert!(snapshot.discarded.is_empty());
}

#[test]
fn a_gap_or_repeat_in_the_ordinals_is_an_invalid_snapshot() {
    let gap = assemble_namespace(Vec::new(), replayed(vec![capsule("a", 0), capsule("b", 2)]));
    assert!(matches!(gap, Err(ActionPersistenceLoadError::InvalidActionSnapshot)));
    let repeat = assemble_namespace(Vec::new(), replayed(vec![capsule("a", 0), capsule("b", 0)]));
    assert!(matches!(repeat, Err(ActionPersistenceLoadError::InvalidActionSnapshot)));
    let same_twice = assemble_namespace(Vec::new(), replayed(vec![capsule("a", 1), capsule("a", 1)]));
    assert!(matches!(same_twice, Err(ActionPersistenceLoadError::InvalidActionSnapshot)));
    let beyond = assemble_namespace(Vec::new(), replayed(vec![capsule("a", 1), capsule("b", 2)]));
    assert!(matches!(beyond, Err(ActionPersistenceLoadError::InvalidActionSnapshot)));
    assert!(assemble_namespace(Vec::new(), replayed(Vec::new())).unwrap().replay.is_empty());
}
