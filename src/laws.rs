use vstd::prelude::*;

use crate::admission::admission;
use crate::node::{commit_order, drained, queues_well_formed, stage, staged_record, NodeModel};
use crate::state::{bytes_of, credit_all, mutations_of, sessions_of, NodeState};
use crate::types::{Envelope, KvAction, KvPair, Payload, PendingRecord, TxId};

verus! {

/// A call that the consensus engine makes between two commits.
pub enum NodeEvent {
    Check(Envelope),
    Deliver(TxId, Envelope),
}

/// The node after one call: an admission check takes `&self` and leaves the
/// node as it was; a delivery stages.
pub open spec fn apply_event(s: NodeModel, e: NodeEvent) -> NodeModel {
    match e {
        NodeEvent::Check(_) => s,
        NodeEvent::Deliver(tx_id, env) => stage(s, tx_id, env),
    }
}

pub open spec fn run(s: NodeModel, evs: Seq<NodeEvent>) -> NodeModel
    decreases evs.len(),
{
    if evs.len() == 0 {
        s
    } else {
        apply_event(run(s, evs.drop_last()), evs.last())
    }
}

/// The deliveries among the calls, in their order.
pub open spec fn deliveries(evs: Seq<NodeEvent>) -> Seq<NodeEvent>
    decreases evs.len(),
{
    if evs.len() == 0 {
        evs
    } else if evs.last() is Deliver {
        deliveries(evs.drop_last()).push(evs.last())
    } else {
        deliveries(evs.drop_last())
    }
}

/// Admission checks, however many and wherever they fall among the
/// deliveries, leave counters and queues exactly as the deliveries alone do.
pub proof fn lemma_checks_change_nothing(s: NodeModel, evs: Seq<NodeEvent>)
    ensures
        run(s, evs) == run(s, deliveries(evs)),
    decreases evs.len(),
{
    if evs.len() > 0 {
        lemma_checks_change_nothing(s, evs.drop_last());
        let d = deliveries(evs.drop_last());
        if evs.last() is Deliver {
            assert(deliveries(evs).drop_last() =~= d);
        }
    }
}

/// A delivered transaction that fails its checks is in no queue afterwards
/// and leaves the block's records, and so its root hash, as they were.
pub proof fn lemma_rejected_tx_is_isolated(s: NodeModel, tx_id: TxId, env: Envelope)
    requires
        admission(env) is Err,
    ensures
        stage(s, tx_id, env) == s,
        commit_order(stage(s, tx_id, env)) == commit_order(s),
{
}

/// Admitted key/value mutations, delivered one after another into empty
/// queues, are applied by the commit in the order of their delivery.
pub proof fn lemma_mutations_keep_delivery_order(
    s: NodeModel,
    t1: TxId,
    e1: Envelope,
    t2: TxId,
    e2: Envelope,
    t3: TxId,
    e3: Envelope,
)
    requires
        s.mutations.len() == 0,
        s.sessions.len() == 0,
        s.databases.len() == 0,
        admission(e1) is Ok,
        admission(e2) is Ok,
        admission(e3) is Ok,
        e1.payload.unwrap() is Mutation,
        e2.payload.unwrap() is Mutation,
        e3.payload.unwrap() is Mutation,
    ensures
        commit_order(stage(stage(stage(s, t1, e1), t2, e2), t3, e3)) == seq![
            staged_record(t1, e1),
            staged_record(t2, e2),
            staged_record(t3, e3),
        ],
{
    let f = stage(stage(stage(s, t1, e1), t2, e2), t3, e3);
    assert(commit_order(f) =~= seq![
        staged_record(t1, e1),
        staged_record(t2, e2),
        staged_record(t3, e3),
    ]);
}

/// Key/value contents of the store, by namespace and key.
pub type KvContents = Map<(Seq<u8>, Seq<u8>), Seq<u8>>;

/// The pairs of one mutation applied in their order.
pub open spec fn apply_pairs(st: KvContents, ns: Seq<u8>, pairs: Seq<KvPair>) -> KvContents
    decreases pairs.len(),
{
    if pairs.len() == 0 {
        st
    } else {
        let p = pairs.last();
        let prev = apply_pairs(st, ns, pairs.drop_last());
        match p.action {
            KvAction::Insert => prev.insert((ns, p.key@), p.value@),
            KvAction::Delete => prev.remove((ns, p.key@)),
        }
    }
}

/// The key/value effect of committed records applied in their order; only
/// key/value mutations touch these contents.
pub open spec fn apply_records(st: KvContents, rs: Seq<PendingRecord>) -> KvContents
    decreases rs.len(),
{
    if rs.len() == 0 {
        st
    } else {
        let prev = apply_records(st, rs.drop_last());
        match rs.last() {
            PendingRecord::Mutation { mutation, .. } => apply_pairs(
                prev,
                mutation.ns@,
                mutation.kv_pairs@,
            ),
            _ => prev,
        }
    }
}

proof fn lemma_pair_insert_lands(
    st: KvContents,
    ns: Seq<u8>,
    pairs: Seq<KvPair>,
    i: int,
)
    requires
        0 <= i < pairs.len(),
        pairs[i].action == KvAction::Insert,
        forall|j: int| i < j < pairs.len() ==> #[trigger] pairs[j].key@ != pairs[i].key@,
    ensures
        apply_pairs(st, ns, pairs).contains_key((ns, pairs[i].key@)),
        apply_pairs(st, ns, pairs)[(ns, pairs[i].key@)] == pairs[i].value@,
    decreases pairs.len(),
{
    if i < pairs.len() - 1 {
        let pre = pairs.drop_last();
        assert forall|j: int| i < j < pre.len() implies #[trigger] pre[j].key@
            != pre[i].key@ by {
            assert(pre[j] == pairs[j]);
        }
        assert(pre[i] == pairs[i]);
        lemma_pair_insert_lands(st, ns, pre, i);
        assert(pairs.last().key@ != pairs[i].key@);
    }
}

/// When the last of the committed records is a mutation that inserts a key,
/// and none of its later pairs touches that key again, the key holds that
/// value afterwards, whatever earlier records wrote.
pub proof fn lemma_last_write_wins(st: KvContents, rs: Seq<PendingRecord>, i: int)
    requires
        rs.len() > 0,
        rs.last() is Mutation,
        0 <= i < rs.last()->Mutation_mutation.kv_pairs@.len(),
        rs.last()->Mutation_mutation.kv_pairs@[i].action == KvAction::Insert,
        forall|j: int|
            i < j < rs.last()->Mutation_mutation.kv_pairs@.len() ==> #[trigger] rs.last()->Mutation_mutation.kv_pairs@[j].key@
                != rs.last()->Mutation_mutation.kv_pairs@[i].key@,
    ensures
        ({
            let m = rs.last()->Mutation_mutation;
            let k = (m.ns@, m.kv_pairs@[i].key@);
            apply_records(st, rs).contains_key(k) && apply_records(st, rs)[k]
                == m.kv_pairs@[i].value@
        }),
{
    let m = rs.last()->Mutation_mutation;
    lemma_pair_insert_lands(apply_records(st, rs.drop_last()), m.ns@, m.kv_pairs@, i);
}

/// Three admitted mutations delivered in turn into empty queues, the last
/// of which inserts a key and does not touch it again: once the commit has
/// applied them, the key holds the last one's value, whatever the first two
/// wrote to it.
pub proof fn lemma_last_delivered_write_wins(
    st: KvContents,
    s: NodeModel,
    t1: TxId,
    e1: Envelope,
    t2: TxId,
    e2: Envelope,
    t3: TxId,
    e3: Envelope,
    i: int,
)
    requires
        s.mutations.len() == 0,
        s.sessions.len() == 0,
        s.databases.len() == 0,
        admission(e1) is Ok,
        admission(e2) is Ok,
        admission(e3) is Ok,
        e1.payload.unwrap() is Mutation,
        e2.payload.unwrap() is Mutation,
        e3.payload.unwrap() is Mutation,
        0 <= i < e3.payload.unwrap()->Mutation_mutation.kv_pairs@.len(),
        e3.payload.unwrap()->Mutation_mutation.kv_pairs@[i].action == KvAction::Insert,
        forall|j: int|
            i < j < e3.payload.unwrap()->Mutation_mutation.kv_pairs@.len() ==> #[trigger] e3.payload.unwrap()->Mutation_mutation.kv_pairs@[j].key@
                != e3.payload.unwrap()->Mutation_mutation.kv_pairs@[i].key@,
    ensures
        ({
            let m = e3.payload.unwrap()->Mutation_mutation;
            let k = (m.ns@, m.kv_pairs@[i].key@);
            let applied = apply_records(
                st,
                commit_order(stage(stage(stage(s, t1, e1), t2, e2), t3, e3)),
            );
            applied.contains_key(k) && applied[k] == m.kv_pairs@[i].value@
        }),
{
    lemma_mutations_keep_delivery_order(s, t1, e1, t2, e2, t3, e3);
    let rs = seq![staged_record(t1, e1), staged_record(t2, e2), staged_record(t3, e3)];
    assert(rs.last() == staged_record(t3, e3));
    lemma_last_write_wins(st, rs, i);
}

/// Delivery keeps each queue to records of its own kind.
pub proof fn lemma_staging_keeps_queue_kinds(s: NodeModel, tx_id: TxId, env: Envelope)
    requires
        queues_well_formed(s),
    ensures
        queues_well_formed(stage(s, tx_id, env)),
{
    let n = stage(s, tx_id, env);
    if admission(env) is Ok {
        assert forall|i: int| 0 <= i < n.mutations.len() implies #[trigger] n.mutations[i]
            is Mutation by {
            if i < s.mutations.len() {
                assert(n.mutations[i] == s.mutations[i]);
            }
        }
        assert forall|i: int| 0 <= i < n.sessions.len() implies #[trigger] n.sessions[i]
            is QuerySession by {
            if i < s.sessions.len() {
                assert(n.sessions[i] == s.sessions[i]);
            }
        }
        assert forall|i: int| 0 <= i < n.databases.len() implies #[trigger] n.databases[i]
            is Database by {
            if i < s.databases.len() {
                assert(n.databases[i] == s.databases[i]);
            }
        }
    }
}

/// Committing a block that staged nothing leaves the node as it was, and its
/// plan applies nothing (the store reports its root hash unchanged).
pub proof fn lemma_empty_block_changes_nothing(s: NodeModel)
    requires
        commit_order(s).len() == 0,
    ensures
        drained(s) == s,
{
    assert(s.mutations =~= Seq::<PendingRecord>::empty());
    assert(s.sessions =~= Seq::<PendingRecord>::empty());
    assert(s.databases =~= Seq::<PendingRecord>::empty());
    assert(drained(s) == s);
}

pub open spec fn sum_mutations(rs: Seq<PendingRecord>) -> nat
    decreases rs.len(),
{
    if rs.len() == 0 {
        0
    } else {
        sum_mutations(rs.drop_last()) + mutations_of(rs.last())
    }
}

pub open spec fn sum_sessions(rs: Seq<PendingRecord>) -> nat
    decreases rs.len(),
{
    if rs.len() == 0 {
        0
    } else {
        sum_sessions(rs.drop_last()) + sessions_of(rs.last())
    }
}

pub open spec fn sum_bytes(rs: Seq<PendingRecord>, written: Seq<u64>) -> nat
    decreases rs.len(),
{
    if rs.len() == 0 || written.len() == 0 {
        0
    } else {
        sum_bytes(rs.drop_last(), written.drop_last()) + bytes_of(rs.last(), written.last())
    }
}

/// Over any run of applied records, across any number of blocks, each
/// counter never decreases and equals its start plus what the records of
/// its kind contributed.
pub proof fn lemma_counters_sum_applied(
    c: NodeState,
    rs: Seq<PendingRecord>,
    written: Seq<u64>,
    d: NodeState,
)
    requires
        credit_all(c, rs, written) == Some(d),
    ensures
        d.total_mutations == c.total_mutations + sum_mutations(rs),
        d.total_query_sessions == c.total_query_sessions + sum_sessions(rs),
        d.total_storage_bytes == c.total_storage_bytes + sum_bytes(rs, written),
        d.total_mutations >= c.total_mutations,
        d.total_query_sessions >= c.total_query_sessions,
        d.total_storage_bytes >= c.total_storage_bytes,
    decreases rs.len(),
{
    if rs.len() > 0 {
        let p = credit_all(c, rs.drop_last(), written.drop_last())->Some_0;
        lemma_counters_sum_applied(c, rs.drop_last(), written.drop_last(), p);
    }
}

} // verus!
