use trading_pair_registry::registry::TradingPairState;
use trading_pair_registry::types::{
    ActorId, EventAction, RegistryError, TradingPair, TradingPairAction, TradingPairReply,
};

fn actor(n: u128) -> ActorId {
    ActorId::new(0, n)
}

fn create(s: &mut TradingPairState, caller: ActorId, now: u64, symbol: &str, notes: &str) -> TradingPairReply {
    s.handle(
        caller,
        now,
        TradingPairAction::CreateTradingPair(symbol.to_string(), notes.to_string()),
    )
}

fn count(s: &TradingPairState) -> TradingPairReply {
    s.query(TradingPairAction::QueryTradingPairCount)
}

#[test]
fn owner_editor_lifecycle_scenario() {
    let a = actor(1);
    let b = actor(2);
    let mut s = TradingPairState::new(a);
    assert_eq!(create(&mut s, a, 10, "BTC/USDT", "n1"), TradingPairReply::TradingPairCreated(0));
    assert_eq!(count(&s), TradingPairReply::TradingPairCount(1));

    let update = TradingPairAction::UpdateTradingPair(0, "BTC/USDC".to_string(), "n2".to_string());
    assert_eq!(
        s.handle(b, 11, update.clone()),
        TradingPairReply::Error(RegistryError::Unauthorized)
    );
    assert_eq!(s.trading_pairs[0].symbol, "BTC/USDT");
    assert_eq!(s.event_count(), 1);

    assert_eq!(s.handle(a, 12, TradingPairAction::AddEditor(b)), TradingPairReply::EditorAdded);
    assert_eq!(s.handle(b, 13, update), TradingPairReply::TradingPairUpdated);
    match s.handle(b, 14, TradingPairAction::QueryTradingPair(0)) {
        TradingPairReply::TradingPairInfo(Some(p)) => {
            assert_eq!(p.symbol, "BTC/USDC");
            assert_eq!(p.notes, "n2");
            assert_eq!(p.last_modified_by, b);
            assert_eq!(p.timestamp, 13);
        },
        other => panic!("unexpected reply {:?}", other),
    }

    assert_eq!(
        s.handle(b, 15, TradingPairAction::DeleteTradingPair(0)),
        TradingPairReply::TradingPairDeleted
    );
    assert_eq!(count(&s), TradingPairReply::TradingPairCount(0));
    assert_eq!(s.query(TradingPairAction::QueryEventCount), TradingPairReply::EventCount(3));
}

#[test]
fn created_ids_strictly_increase() {
    let a = actor(1);
    let mut s = TradingPairState::new(a);
    let mut ids = Vec::new();
    for i in 0..5u64 {
        match create(&mut s, a, i, "X/Y", "") {
            TradingPairReply::TradingPairCreated(id) => ids.push(id),
            other => panic!("unexpected reply {:?}", other),
        }
    }
    assert_eq!(ids, vec![0, 1, 2, 3, 4]);
}

#[test]
fn deleted_ids_are_not_reused() {
    let a = actor(1);
    let mut s = TradingPairState::new(a);
    create(&mut s, a, 1, "A/B", "");
    create(&mut s, a, 2, "C/D", "");
    assert_eq!(s.delete_trading_pair(a, 3, 1), Ok(()));
    assert_eq!(create(&mut s, a, 4, "E/F", ""), TradingPairReply::TradingPairCreated(2));
    let ids: Vec<u64> = s.all_trading_pairs().iter().map(|p| p.id).collect();
    assert_eq!(ids, vec![0, 2]);
    assert_eq!(s.trading_pair(1), None);
}

#[test]
fn counts_after_creates_updates_and_deletes() {
    let a = actor(1);
    let mut s = TradingPairState::new(a);
    for i in 0..4u64 {
        create(&mut s, a, i, "P/Q", "");
    }
    assert_eq!(s.update_trading_pair(a, 5, 2, "R/S".to_string(), "u".to_string()), Ok(()));
    assert_eq!(s.delete_trading_pair(a, 6, 0), Ok(()));
    assert_eq!(s.delete_trading_pair(a, 7, 3), Ok(()));
    assert_eq!(s.trading_pair_count(), 2);
    assert_eq!(s.event_count(), 4 + 2 + 1);
    assert_eq!(s.all_event_logs().len(), 7);
}

#[test]
fn each_mutation_logs_actor_and_subject() {
    let a = actor(1);
    let b = actor(2);
    let mut s = TradingPairState::new(a);
    s.add_editor(a, b).unwrap();
    create(&mut s, b, 100, "ETH/USDT", "x");
    s.update_trading_pair(a, 200, 0, "ETH/DAI".to_string(), "y".to_string()).unwrap();
    s.delete_trading_pair(b, 300, 0).unwrap();
    let logs = s.all_event_logs();
    assert_eq!(logs.len(), 3);
    let expected = [
        (b, 100, EventAction::Create, "Created new trading pair"),
        (a, 200, EventAction::Update, "Updated trading pair"),
        (b, 300, EventAction::Delete, "Deleted trading pair"),
    ];
    for (i, (who, when, action, details)) in expected.iter().enumerate() {
        assert_eq!(logs[i].id, i as u64);
        assert_eq!(logs[i].account, *who);
        assert_eq!(logs[i].timestamp, *when);
        assert_eq!(logs[i].action, *action);
        assert_eq!(logs[i].trading_pair_id, 0);
        assert_eq!(logs[i].details, *details);
    }
}

#[test]
fn missing_pair_update_and_delete_change_nothing() {
    let a = actor(1);
    let mut s = TradingPairState::new(a);
    create(&mut s, a, 1, "A/B", "n");
    let before_pairs = s.all_trading_pairs();
    let before_logs = s.all_event_logs();
    assert_eq!(
        s.update_trading_pair(a, 2, 9, "Z".to_string(), "z".to_string()),
        Err(RegistryError::NotFound)
    );
    assert_eq!(
        s.handle(a, 3, TradingPairAction::DeleteTradingPair(9)),
        TradingPairReply::Error(RegistryError::NotFound)
    );
    assert_eq!(s.all_trading_pairs(), before_pairs);
    assert_eq!(s.all_event_logs(), before_logs);
    assert_eq!(s.counter, 1);
    assert_eq!(s.event_counter, 1);
}

#[test]
fn only_owner_manages_editors() {
    let a = actor(1);
    let b = actor(2);
    let c = actor(3);
    let mut s = TradingPairState::new(a);
    s.add_editor(a, b).unwrap();
    assert_eq!(s.add_editor(b, c), Err(RegistryError::Unauthorized));
    assert_eq!(s.remove_editor(b, b), Err(RegistryError::Unauthorized));
    assert_eq!(
        s.handle(c, 1, TradingPairAction::AddEditor(c)),
        TradingPairReply::Error(RegistryError::Unauthorized)
    );
    assert_eq!(s.authorized_editors, vec![b]);
    assert_eq!(s.event_count(), 0);
}

#[test]
fn editor_changes_are_idempotent() {
    let a = actor(1);
    let b = actor(2);
    let mut s = TradingPairState::new(a);
    assert_eq!(s.add_editor(a, b), Ok(()));
    assert_eq!(
        s.handle(a, 1, TradingPairAction::AddEditor(b)),
        TradingPairReply::Error(RegistryError::AlreadyExists)
    );
    assert_eq!(s.authorized_editors, vec![b]);
    assert_eq!(
        s.handle(a, 2, TradingPairAction::RemoveEditor(b)),
        TradingPairReply::EditorRemoved
    );
    assert!(s.authorized_editors.is_empty());
    assert_eq!(s.remove_editor(a, b), Err(RegistryError::NotFound));
    assert!(s.authorized_editors.is_empty());
    assert!(!s.is_owner_or_editor(b));
}

#[test]
fn owner_writes_without_being_an_editor() {
    let a = actor(1);
    let mut s = TradingPairState::new(a);
    assert!(s.authorized_editors.is_empty());
    assert!(s.is_owner_or_editor(a));
    assert_eq!(s.add_editor(a, a), Ok(()));
    assert_eq!(s.remove_editor(a, a), Ok(()));
    assert!(s.is_owner_or_editor(a));
    assert_eq!(create(&mut s, a, 1, "A/B", ""), TradingPairReply::TradingPairCreated(0));
}

#[test]
fn removed_editor_loses_write_access() {
    let a = actor(1);
    let b = actor(2);
    let mut s = TradingPairState::new(a);
    s.add_editor(a, b).unwrap();
    assert_eq!(create(&mut s, b, 1, "A/B", ""), TradingPairReply::TradingPairCreated(0));
    s.remove_editor(a, b).unwrap();
    assert_eq!(
        create(&mut s, b, 2, "C/D", ""),
        TradingPairReply::Error(RegistryError::Unauthorized)
    );
    assert_eq!(s.trading_pair_count(), 1);
}

#[test]
fn reads_are_open_and_never_mutate() {
    let a = actor(1);
    let stranger = actor(9);
    let mut s = TradingPairState::new(a);
    create(&mut s, a, 7, "A/B", "n");
    let expected = TradingPair {
        id: 0,
        symbol: "A/B".to_string(),
        notes: "n".to_string(),
        timestamp: 7,
        last_modified_by: a,
    };
    assert_eq!(
        s.handle(stranger, 8, TradingPairAction::QueryTradingPair(0)),
        TradingPairReply::TradingPairInfo(Some(expected.clone()))
    );
    assert_eq!(
        s.handle(stranger, 8, TradingPairAction::QueryTradingPair(5)),
        TradingPairReply::TradingPairInfo(None)
    );
    assert_eq!(
        s.handle(stranger, 8, TradingPairAction::QueryAllTradingPairs),
        TradingPairReply::AllTradingPairs(vec![expected])
    );
    assert_eq!(s.event_count(), 1);
}

#[test]
fn single_event_log_lookup() {
    let a = actor(1);
    let mut s = TradingPairState::new(a);
    create(&mut s, a, 7, "A/B", "n");
    match s.query(TradingPairAction::QueryEventLog(0)) {
        TradingPairReply::EventLogInfo(e) => {
            assert_eq!(e.id, 0);
            assert_eq!(e.action, EventAction::Create);
        },
        other => panic!("unexpected reply {:?}", other),
    }
    assert_eq!(
        s.query(TradingPairAction::QueryEventLog(1)),
        TradingPairReply::Error(RegistryError::NotFound)
    );
    assert_eq!(s.event_log(1), Err(RegistryError::NotFound));
    match s.query(TradingPairAction::QueryEventLogs) {
        TradingPairReply::EventLogs(v) => assert_eq!(v.len(), 1),
        other => panic!("unexpected reply {:?}", other),
    }
}

#[test]
fn mutations_are_not_queries() {
    let a = actor(1);
    let s = TradingPairState::new(a);
    assert_eq!(
        s.query(TradingPairAction::CreateTradingPair("A".to_string(), "B".to_string())),
        TradingPairReply::NotAQuery
    );
    assert_eq!(s.query(TradingPairAction::AddEditor(a)), TradingPairReply::NotAQuery);
}

#[test]
fn action_names_and_details() {
    assert_eq!(EventAction::Create.name(), "Create");
    assert_eq!(EventAction::Update.name(), "Update");
    assert_eq!(EventAction::Delete.name(), "Delete");
    assert_eq!(EventAction::Delete.details(), "Deleted trading pair");
}

#[test]
fn fresh_registry_is_empty() {
    let a = actor(1);
    let s = TradingPairState::new(a);
    assert_eq!(s.owner, a);
    assert_eq!(s.trading_pair_count(), 0);
    assert_eq!(s.event_count(), 0);
    assert!(s.all_trading_pairs().is_empty());
    assert_eq!(s.counter, 0);
}
