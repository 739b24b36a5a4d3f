use db3_node::admission::{admission_check, staging_check, RejectReason};
use db3_node::clock::{current_seconds, seconds_or_zero};
use db3_node::error::RTStoreError;
use db3_node::node::{AbciImpl, ApplyOutcome, BlockHeader, BlockState, CommitPlan, Timestamp};
use db3_node::state::{CommitError, NodeState};
use db3_node::types::{
    AccountId, BroadcastMeta, CollectionDef, DatabaseAction, DatabaseMutation, Envelope,
    KvAction, KvMutation, KvPair, Payload, PendingRecord, QuerySession, QuerySessionInfo, TxId,
};

fn account(b: u8) -> AccountId {
    AccountId { addr: [b; 20] }
}

fn tx(b: u8) -> TxId {
    TxId { data: [b; 32] }
}

fn insert(key: &str, value: &str) -> KvPair {
    KvPair {
        key: key.as_bytes().to_vec(),
        value: value.as_bytes().to_vec(),
        action: KvAction::Insert,
    }
}

fn kv_mutation(ns: &str, pairs: Vec<KvPair>) -> KvMutation {
    KvMutation {
        ns: ns.as_bytes().to_vec(),
        kv_pairs: pairs,
        nonce: 1,
        gas_price: 100,
        gas: 100,
        chain_id: 10,
        chain_role: 20,
    }
}

/// A mutation that the key/value validator accepted.
fn mutation_payload(m: KvMutation) -> Payload {
    Payload::Mutation { mutation: m, validated: true }
}

fn signed(signer: u8, payload: Payload) -> Envelope {
    Envelope { signer: Some(account(signer)), payload: Some(payload) }
}

fn create_db(meta: Option<BroadcastMeta>) -> DatabaseMutation {
    DatabaseMutation {
        meta,
        action: DatabaseAction::CreateDb,
        db_address: vec![],
        collections: vec![CollectionDef {
            name: b"books".to_vec(),
            index_names: vec![b"by_title".to_vec()],
        }],
    }
}

fn dev_meta() -> BroadcastMeta {
    BroadcastMeta { nonce: 1, chain_id: 10, chain_role: 20 }
}

fn settlement(info: bool, parties: bool) -> QuerySession {
    QuerySession {
        node_query_session_info: if info {
            Some(QuerySessionInfo { id: 7, start_time: 1000, query_count: 42 })
        } else {
            None
        },
        parties: if parties { Some((account(3), account(4))) } else { None },
    }
}

/// Applies every record of the plan as a store that accepts them all,
/// reporting `bytes` written for each.
fn settle_all(node: &mut AbciImpl, plan: &CommitPlan, bytes: u64) {
    for r in plan.records.iter() {
        assert!(node.settle(r, ApplyOutcome::Applied { bytes_written: bytes }).is_ok());
    }
}

#[test]
fn it_works() {}

#[test]
fn scenario_create_database() {
    let mut node = AbciImpl::new();
    let env = signed(1, Payload::Database(create_db(Some(dev_meta()))));
    let check = node.check_tx(&env);
    assert_eq!(check.code, 0);
    assert_eq!(check.log, "");
    let delivered = node.deliver_tx(tx(9), env);
    assert_eq!(delivered.code, 0);
    assert_eq!(delivered.event, "apply");
    assert_eq!(delivered.info, "apply_database");
    let plan = node.commit();
    assert!(plan.commit_store);
    assert_eq!(plan.records.len(), 1);
    match &plan.records[0] {
        PendingRecord::Database { submitter, nonce, tx_id, database } => {
            assert_eq!(submitter.addr, [1u8; 20]);
            assert_eq!(*nonce, 1);
            assert_eq!(tx_id.data, [9u8; 32]);
            assert!(database.action == DatabaseAction::CreateDb);
        }
        _ => panic!("expected a database record"),
    }
}

#[test]
fn scenario_kv_mutation_counts() {
    let mut node = AbciImpl::new();
    let env = signed(1, mutation_payload(kv_mutation("ns1", vec![insert("key1", "value1")])));
    assert_eq!(node.deliver_tx(tx(1), env).code, 0);
    let plan = node.commit();
    assert!(plan.commit_store);
    settle_all(&mut node, &plan, 10);
    let c = node.get_node_state();
    assert_eq!(c.get_total_mutations(), 1);
    assert_eq!(c.get_total_storage_bytes(), 10);
    assert_eq!(c.get_total_query_sessions(), 0);
}

#[test]
fn scenario_bad_signature_rejected() {
    let mut node = AbciImpl::new();
    let env = Envelope {
        signer: None,
        payload: Some(mutation_payload(kv_mutation("ns1", vec![insert("key1", "value1")]))),
    };
    assert_eq!(admission_check(&env), Err(RejectReason::BadSignature));
    let check = node.check_tx(&env);
    assert_eq!(check.code, 1);
    assert_eq!(check.log, "bad request");
    let delivered = node.deliver_tx(tx(1), env);
    assert_eq!(delivered.code, 1);
    let plan = node.commit();
    assert!(plan.records.is_empty());
    assert!(!plan.commit_store);
}

#[test]
fn scenario_back_to_back_empty_block() {
    let mut node = AbciImpl::new();
    let env = signed(1, mutation_payload(kv_mutation("ns1", vec![insert("k", "v")])));
    node.deliver_tx(tx(1), env);
    let first = node.commit();
    assert!(first.commit_store);
    settle_all(&mut node, &first, 3);
    let second = node.commit();
    assert!(!second.commit_store);
    assert!(second.records.is_empty());
    assert_eq!(node.get_node_state().get_total_mutations(), 1);
    assert_eq!(node.get_node_state().get_total_storage_bytes(), 3);
}

#[test]
fn admission_checks_change_nothing() {
    let mut node = AbciImpl::new();
    let good = signed(1, mutation_payload(kv_mutation("ns1", vec![insert("a", "1")])));
    let bad = Envelope { signer: Some(account(1)), payload: None };
    for _ in 0..3 {
        assert_eq!(node.check_tx(&good).code, 0);
        assert_eq!(node.check_tx(&bad).code, 1);
    }
    node.deliver_tx(tx(1), signed(2, mutation_payload(kv_mutation("ns2", vec![insert("b", "2")]))));
    assert_eq!(node.check_tx(&good).code, 0);
    let plan = node.commit();
    assert_eq!(plan.records.len(), 1);
    assert_eq!(node.get_node_state().get_total_mutations(), 0);
}

#[test]
fn mutations_commit_in_delivery_order() {
    let mut node = AbciImpl::new();
    for (i, v) in ["v1", "v2", "v3"].iter().enumerate() {
        let env = signed(1, mutation_payload(kv_mutation("ns1", vec![insert("key", v)])));
        assert_eq!(node.deliver_tx(tx(i as u8), env).code, 0);
    }
    let plan = node.commit();
    let values: Vec<Vec<u8>> = plan
        .records
        .iter()
        .map(|r| match r {
            PendingRecord::Mutation { mutation, .. } => mutation.kv_pairs[0].value.clone(),
            _ => panic!("expected a mutation"),
        })
        .collect();
    assert_eq!(values, vec![b"v1".to_vec(), b"v2".to_vec(), b"v3".to_vec()]);
}

#[test]
fn commit_orders_kinds() {
    let mut node = AbciImpl::new();
    node.deliver_tx(tx(1), signed(5, Payload::Database(create_db(Some(dev_meta())))));
    node.deliver_tx(tx(2), signed(6, Payload::QuerySession(settlement(true, true))));
    node.deliver_tx(tx(3), signed(7, mutation_payload(kv_mutation("ns", vec![insert("k", "v")]))));
    let plan = node.commit();
    assert_eq!(plan.records.len(), 3);
    assert!(matches!(plan.records[0], PendingRecord::Mutation { .. }));
    match &plan.records[1] {
        PendingRecord::QuerySession { client, node: serving, tx_id, info } => {
            assert_eq!(client.addr, [3u8; 20]);
            assert_eq!(serving.addr, [6u8; 20]);
            assert_eq!(tx_id.data, [2u8; 32]);
            assert_eq!(info.query_count, 42);
        }
        _ => panic!("expected a settlement"),
    }
    assert!(matches!(plan.records[2], PendingRecord::Database { .. }));
}

#[test]
fn empty_block_keeps_counters() {
    let mut node = AbciImpl::new();
    let plan = node.commit();
    assert!(!plan.commit_store);
    assert!(plan.records.is_empty());
    let c = node.get_node_state();
    assert_eq!(c.get_total_mutations(), 0);
    assert_eq!(c.get_total_storage_bytes(), 0);
    assert_eq!(c.get_total_query_sessions(), 0);
}

#[test]
fn counters_sum_over_blocks() {
    let mut node = AbciImpl::new();
    node.deliver_tx(tx(1), signed(1, mutation_payload(kv_mutation("ns", vec![insert("a", "1")]))));
    node.deliver_tx(tx(2), signed(1, Payload::QuerySession(settlement(true, true))));
    let p1 = node.commit();
    settle_all(&mut node, &p1, 5);
    node.deliver_tx(tx(3), signed(1, mutation_payload(kv_mutation("ns", vec![insert("b", "2")]))));
    node.deliver_tx(tx(4), signed(1, mutation_payload(kv_mutation("ns", vec![insert("c", "3")]))));
    node.deliver_tx(tx(5), signed(1, Payload::Database(create_db(Some(dev_meta())))));
    let p2 = node.commit();
    settle_all(&mut node, &p2, 7);
    let c = node.get_node_state();
    assert_eq!(c.get_total_mutations(), 3);
    assert_eq!(c.get_total_storage_bytes(), 5 + 7 + 7);
    assert_eq!(c.get_total_query_sessions(), 1);
}

#[test]
fn invalid_staged_mutation_is_isolated() {
    let mut node = AbciImpl::new();
    let dup = kv_mutation("ns", vec![insert("k", "1"), insert("k", "2")]);
    let r = node.deliver_tx(tx(1), signed(1, Payload::Mutation { mutation: dup, validated: false }));
    assert_eq!(r.code, 1);
    assert_eq!(r.event, "deliver");
    let plan = node.commit();
    assert!(plan.records.is_empty());
    assert!(!plan.commit_store);
}

#[test]
fn undecodable_is_rejected() {
    let env = Envelope { signer: Some(account(1)), payload: None };
    assert_eq!(admission_check(&env), Err(RejectReason::Undecodable));
}

#[test]
fn database_without_meta_is_rejected() {
    let env = signed(1, Payload::Database(create_db(None)));
    assert_eq!(admission_check(&env), Err(RejectReason::InvalidPayload));
    let mut node = AbciImpl::new();
    assert_eq!(node.check_tx(&env).code, 1);
    assert_eq!(node.deliver_tx(tx(1), env).code, 1);
    assert!(node.commit().records.is_empty());
}

#[test]
fn settlement_admitted_on_proof_staged_with_info() {
    let no_proof = signed(1, Payload::QuerySession(settlement(true, false)));
    assert_eq!(admission_check(&no_proof), Err(RejectReason::InvalidPayload));
    let no_info = signed(1, Payload::QuerySession(settlement(false, true)));
    assert_eq!(admission_check(&no_info), Ok(()));
    assert_eq!(staging_check(&no_info), Err(RejectReason::InvalidPayload));
    let mut node = AbciImpl::new();
    assert_eq!(node.check_tx(&no_info).code, 0);
    assert_eq!(node.deliver_tx(tx(1), no_info).code, 1);
    let r = node.deliver_tx(tx(2), signed(1, Payload::QuerySession(settlement(true, true))));
    assert_eq!(r.code, 0);
    assert_eq!(r.info, "deliver_query_session");
    assert_eq!(node.commit().records.len(), 1);
}

#[test]
fn unvalidated_mutation_is_rejected() {
    let env = signed(
        1,
        Payload::Mutation { mutation: kv_mutation("ns", vec![insert("a", "1")]), validated: false },
    );
    assert_eq!(admission_check(&env), Err(RejectReason::InvalidPayload));
    let node = AbciImpl::new();
    assert_eq!(node.check_tx(&env).code, 1);
}

#[test]
fn check_response_fields() {
    let node = AbciImpl::new();
    let ok = node.check_tx(&signed(1, mutation_payload(kv_mutation("ns", vec![insert("a", "1")]))));
    assert_eq!((ok.code, ok.gas_wanted, ok.gas_used, ok.events.len()), (0, 1, 0, 0));
    let bad = node.check_tx(&Envelope { signer: None, payload: None });
    assert_eq!((bad.code, bad.gas_wanted, bad.gas_used, bad.events.len()), (1, 1, 0, 0));
}

#[test]
fn settle_plan_credits_whole_block() {
    let mut node = AbciImpl::new();
    node.deliver_tx(tx(1), signed(1, mutation_payload(kv_mutation("ns", vec![insert("a", "1")]))));
    node.deliver_tx(tx(2), signed(1, Payload::QuerySession(settlement(true, true))));
    node.deliver_tx(tx(3), signed(1, mutation_payload(kv_mutation("ns", vec![insert("b", "2")]))));
    let plan = node.commit();
    let outcomes = vec![
        ApplyOutcome::Applied { bytes_written: 4 },
        ApplyOutcome::Applied { bytes_written: 6 },
        ApplyOutcome::Applied { bytes_written: 0 },
    ];
    assert!(node.settle_plan(&plan, &outcomes).is_ok());
    let c = node.get_node_state();
    assert_eq!(c.get_total_mutations(), 2);
    assert_eq!(c.get_total_storage_bytes(), 10);
    assert_eq!(c.get_total_query_sessions(), 1);
}

#[test]
fn settle_plan_stops_at_failure() {
    let mut node = AbciImpl::new();
    node.deliver_tx(tx(1), signed(1, mutation_payload(kv_mutation("ns", vec![insert("a", "1")]))));
    node.deliver_tx(tx(2), signed(1, mutation_payload(kv_mutation("ns", vec![insert("b", "2")]))));
    let plan = node.commit();
    let outcomes = vec![ApplyOutcome::Applied { bytes_written: 4 }, ApplyOutcome::Failed];
    assert_eq!(node.settle_plan(&plan, &outcomes), Err(CommitError::ApplyFailed));
    let short = vec![ApplyOutcome::Applied { bytes_written: 4 }];
    assert_eq!(node.settle_plan(&plan, &short), Err(CommitError::ApplyFailed));
}

#[test]
fn seconds_before_epoch_are_zero() {
    assert_eq!(seconds_or_zero(Some(1700)), 1700);
    assert_eq!(seconds_or_zero(None), 0);
}

#[test]
fn failed_apply_is_fatal() {
    let mut node = AbciImpl::new();
    node.deliver_tx(tx(1), signed(1, mutation_payload(kv_mutation("ns", vec![insert("a", "1")]))));
    let plan = node.commit();
    assert_eq!(node.settle(&plan.records[0], ApplyOutcome::Failed), Err(CommitError::ApplyFailed));
    assert_eq!(node.get_node_state().get_total_mutations(), 0);
}

#[test]
fn counter_overflow_is_fatal() {
    let mut node = AbciImpl::new();
    node.deliver_tx(tx(1), signed(1, mutation_payload(kv_mutation("ns", vec![insert("a", "1")]))));
    node.deliver_tx(tx(2), signed(1, mutation_payload(kv_mutation("ns", vec![insert("b", "1")]))));
    let plan = node.commit();
    let big = ApplyOutcome::Applied { bytes_written: u64::MAX };
    assert!(node.settle(&plan.records[0], big).is_ok());
    assert_eq!(node.settle(&plan.records[1], big), Err(CommitError::CounterOverflow));
    assert_eq!(node.get_node_state().get_total_mutations(), 1);
    assert_eq!(node.get_node_state().get_total_storage_bytes(), u64::MAX);
}

#[test]
fn credit_ignores_bytes_of_other_kinds() {
    let mut c = NodeState::new();
    let r = PendingRecord::QuerySession {
        client: account(1),
        node: account(2),
        tx_id: tx(1),
        info: QuerySessionInfo { id: 1, start_time: 0, query_count: 1 },
    };
    assert!(c.credit(&r, 99).is_ok());
    assert_eq!(c.total_query_sessions, 1);
    assert_eq!(c.total_storage_bytes, 0);
    assert_eq!(c.total_mutations, 0);
}

#[test]
fn info_reports_last_block() {
    let node = AbciImpl::new();
    let r = node.info(&BlockState { block_height: 12, abci_hash: [7u8; 32] });
    assert_eq!(r.data, "db3");
    assert_eq!(r.app_version, 1);
    assert_eq!(r.last_block_height, 12);
    assert_eq!(r.last_block_app_hash, [7u8; 32]);
}

#[test]
fn begin_block_needs_header_and_time() {
    let node = AbciImpl::new();
    let time = Some(Timestamp { seconds: 1700, nanos: 0 });
    assert_eq!(node.begin_block(&Some(BlockHeader { height: 5, time })), Some((5, 1700)));
    assert_eq!(node.begin_block(&Some(BlockHeader { height: 5, time: None })), None);
    assert_eq!(node.begin_block(&None), None);
}

#[test]
fn io_error_round_trip() {
    let e = std::io::Error::new(std::io::ErrorKind::NotFound, "gone");
    let wrapped = RTStoreError::from(e);
    assert!(matches!(wrapped, RTStoreError::FSIoError(_)));
    assert_eq!(wrapped.into_io_error().kind(), std::io::ErrorKind::NotFound);
    let other = RTStoreError::TableNotFoundError { tname: "t".to_string() };
    assert_eq!(other.into_io_error().kind(), std::io::ErrorKind::Other);
}

#[test]
fn clock_is_past_epoch() {
    assert!(current_seconds() > 1_600_000_000);
}
