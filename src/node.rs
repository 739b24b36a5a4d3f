use vstd::prelude::*;

use crate::admission::{admission, admission_check, check_admission, staging_check};
use crate::state::{credit, credit_all, credit_fits, CommitError, NodeState};
use crate::types::{Envelope, Payload, PendingRecord, TxId};

verus! {

/// What the node holds between two commits: its counters and the three
/// staging queues, oldest record first.
pub struct NodeModel {
    pub counters: NodeState,
    pub mutations: Seq<PendingRecord>,
    pub sessions: Seq<PendingRecord>,
    pub databases: Seq<PendingRecord>,
}

/// The record that an admitted transaction stages. A settlement credits the
/// account that signed it as the serving node.
pub open spec fn staged_record(tx_id: TxId, env: Envelope) -> PendingRecord
    recommends
        admission(env) is Ok,
{
    let signer = env.signer.unwrap();
    match env.payload.unwrap() {
        Payload::Mutation { mutation, .. } => PendingRecord::Mutation {
            submitter: signer,
            tx_id,
            mutation,
        },
        Payload::QuerySession(q) => PendingRecord::QuerySession {
            client: q.parties.unwrap().0,
            node: signer,
            tx_id,
            info: q.node_query_session_info.unwrap(),
        },
        Payload::Database(d) => PendingRecord::Database {
            submitter: signer,
            nonce: d.meta.unwrap().nonce,
            tx_id,
            database: d,
        },
    }
}

/// The node after a transaction is delivered: an admitted one is appended to
/// the queue of its kind, a rejected one leaves everything as it was.
pub open spec fn stage(s: NodeModel, tx_id: TxId, env: Envelope) -> NodeModel {
    if admission(env) is Ok {
        let r = staged_record(tx_id, env);
        match r {
            PendingRecord::Mutation { .. } => NodeModel { mutations: s.mutations.push(r), ..s },
            PendingRecord::QuerySession { .. } => NodeModel { sessions: s.sessions.push(r), ..s },
            PendingRecord::Database { .. } => NodeModel { databases: s.databases.push(r), ..s },
        }
    } else {
        s
    }
}

/// The order in which a commit applies the staged records: key/value
/// mutations, then settlements, then database mutations, each kind oldest first.
pub open spec fn commit_order(s: NodeModel) -> Seq<PendingRecord> {
    s.mutations + s.sessions + s.databases
}

/// The node once its queues are drained.
pub open spec fn drained(s: NodeModel) -> NodeModel {
    NodeModel { mutations: Seq::empty(), sessions: Seq::empty(), databases: Seq::empty(), ..s }
}

/// Each queue holds records of its own kind only.
pub open spec fn queues_well_formed(s: NodeModel) -> bool {
    &&& forall|i: int| 0 <= i < s.mutations.len() ==> #[trigger] s.mutations[i] is Mutation
    &&& forall|i: int| 0 <= i < s.sessions.len() ==> #[trigger] s.sessions[i] is QuerySession
    &&& forall|i: int| 0 <= i < s.databases.len() ==> #[trigger] s.databases[i] is Database
}

/// Answer to an admission check: code 0 admits, code 1 evicts the
/// transaction from the candidate pool.
pub struct CheckTxResponse {
    pub code: u32,
    pub log: &'static str,
    pub gas_wanted: i64,
    pub gas_used: i64,
    /// Kinds of the events the check emits.
    pub events: Vec<&'static str>,
}

/// Answer to the delivery of a transaction in a block: code 0 staged it,
/// code 1 rejected it.
pub struct DeliverTxResponse {
    pub code: u32,
    pub info: &'static str,
    pub event: &'static str,
    pub gas_wanted: i64,
    pub gas_used: i64,
}

/// What the store reported for one record of a commit.
#[derive(Clone, Copy)]
pub enum ApplyOutcome {
    /// Applied; `bytes_written` counts for key/value mutations only.
    Applied { bytes_written: u64 },
    Failed,
}

/// Bytes reported for each record; a failed one reports none.
pub open spec fn written_of(outcomes: Seq<ApplyOutcome>) -> Seq<u64> {
    outcomes.map_values(
        |o: ApplyOutcome|
            match o {
                ApplyOutcome::Applied { bytes_written } => bytes_written,
                ApplyOutcome::Failed => 0,
            },
    )
}

pub open spec fn all_applied(outcomes: Seq<ApplyOutcome>) -> bool {
    forall|i: int| 0 <= i < outcomes.len() ==> #[trigger] outcomes[i] is Applied
}

proof fn lemma_credit_all_stays_none(
    c: NodeState,
    rs: Seq<PendingRecord>,
    w: Seq<u64>,
    k: int,
)
    requires
        rs.len() == w.len(),
        0 <= k <= rs.len(),
        credit_all(c, rs.take(k), w.take(k)) is None,
    ensures
        credit_all(c, rs, w) is None,
    decreases rs.len() - k,
{
    if k < rs.len() {
        assert(rs.take(k + 1).drop_last() =~= rs.take(k));
        assert(w.take(k + 1).drop_last() =~= w.take(k));
        lemma_credit_all_stays_none(c, rs, w, k + 1);
    } else {
        assert(rs.take(k) =~= rs);
        assert(w.take(k) =~= w);
    }
}

/// The work of one commit: the records to apply, in order, and whether the
/// store must then commit (`true`) or only report its current root hash.
pub struct CommitPlan {
    pub records: Vec<PendingRecord>,
    pub commit_store: bool,
}

/// The answer to the consensus engine once a block is committed.
pub struct CommitResponse {
    pub data: [u8; 32],
    pub retain_height: i64,
}

/// The store's summary of all commits so far.
#[derive(Clone, Copy)]
pub struct BlockState {
    pub block_height: i64,
    pub abci_hash: [u8; 32],
}

/// The informational handshake: who this application is and where its
/// state stands.
pub struct InfoResponse {
    pub data: &'static str,
    pub app_version: u64,
    pub last_block_height: i64,
    pub last_block_app_hash: [u8; 32],
}

#[derive(Clone, Copy)]
pub struct Timestamp {
    pub seconds: i64,
    pub nanos: i32,
}

/// The part of a block header that the node records at the start of a block.
#[derive(Clone, Copy)]
pub struct BlockHeader {
    pub height: i64,
    pub time: Option<Timestamp>,
}

/// The application state machine that the consensus engine drives. Each
/// queue holds records of its own kind only.
pub struct AbciImpl {
    node_state: NodeState,
    pending_mutation: Vec<PendingRecord>,
    pending_query_session: Vec<PendingRecord>,
    pending_databases: Vec<PendingRecord>,
}

impl AbciImpl {
    /// The counters and the queues as the model sees them.
    pub closed spec fn view(&self) -> NodeModel {
        NodeModel {
            counters: self.node_state,
            mutations: self.pending_mutation@,
            sessions: self.pending_query_session@,
            databases: self.pending_databases@,
        }
    }

    /// Each queue holds records of its own kind only.
    pub open spec fn wf(&self) -> bool {
        queues_well_formed(self.view())
    }

    /// A node with zero counters and empty queues.
    pub fn new() -> (r: AbciImpl)
        ensures
            r.view().counters == (NodeState {
                total_storage_bytes: 0,
                total_mutations: 0,
                total_query_sessions: 0,
            }),
            r.view().mutations.len() == 0,
            r.view().sessions.len() == 0,
            r.view().databases.len() == 0,
            r.wf(),
    {
        AbciImpl {
            node_state: NodeState::new(),
            pending_mutation: Vec::new(),
            pending_query_session: Vec::new(),
            pending_databases: Vec::new(),
        }
    }

    /// The node's counters.
    pub fn get_node_state(&self) -> (r: &NodeState)
        ensures
            *r == self.view().counters,
    {
        &self.node_state
    }

    /// Answers the handshake from the store's last block state; nothing changes.
    pub fn info(&self, last: &BlockState) -> (r: InfoResponse)
        ensures
            r.data@ == "db3"@,
            r.app_version == 1,
            r.last_block_height == last.block_height,
            r.last_block_app_hash == last.abci_hash,
    {
        InfoResponse {
            data: "db3",
            app_version: 1,
            last_block_height: last.block_height,
            last_block_app_hash: last.abci_hash,
        }
    }

    /// The height and time, in seconds, that the store records when a block
    /// begins; `None` when the header or its time is missing.
    pub fn begin_block(&self, header: &Option<BlockHeader>) -> (r: Option<(u64, u64)>)
        ensures
            r == match *header {
                Some(h) => match h.time {
                    Some(t) => Some((h.height as u64, t.seconds as u64)),
                    None => None,
                },
                None => None,
            },
    {
        match header {
            Some(h) => match h.time {
                Some(t) => Some((h.height as u64, t.seconds as u64)),
                None => None,
            },
            None => None,
        }
    }

    /// Admission check for the candidate pool. It reads only the envelope:
    /// no counter and no queue is touched.
    pub fn check_tx(&self, env: &Envelope) -> (r: CheckTxResponse)
        ensures
            check_admission(*env) is Ok ==> r.code == 0 && r.log@ == ""@,
            check_admission(*env) is Err ==> r.code == 1 && r.log@ == "bad request"@,
            r.gas_wanted == 1,
            r.gas_used == 0,
            r.events@.len() == 0,
    {
        let code: u32 = match admission_check(env) {
            Ok(()) => 0,
            Err(_) => 1,
        };
        let log = if code == 0 {
            ""
        } else {
            "bad request"
        };
        CheckTxResponse { code, log, gas_wanted: 1, gas_used: 0, events: Vec::new() }
    }

    /// Delivers one transaction of the current block. The envelope is held
    /// to the admission checks again, and a settlement must carry its session
    /// record; an admitted one is appended to the queue of its kind, a
    /// rejected one changes nothing.
    pub fn deliver_tx(&mut self, tx_id: TxId, env: Envelope) -> (r: DeliverTxResponse)
        requires
            old(self).wf(),
        ensures
            final(self).view() == stage(old(self).view(), tx_id, env),
            final(self).wf(),
            r.gas_wanted == 0,
            r.gas_used == 0,
            admission(env) is Err ==> r.code == 1 && r.info@ == ""@ && r.event@ == "deliver"@,
            admission(env) is Ok ==> r.code == 0 && match env.payload.unwrap() {
                Payload::Mutation { .. } => r.info@ == "deliver_mutation"@ && r.event@ == "deliver"@,
                Payload::QuerySession(_) => r.info@ == "deliver_query_session"@ && r.event@
                    == "deliver"@,
                Payload::Database(_) => r.info@ == "apply_database"@ && r.event@ == "apply"@,
            },
    {
        if staging_check(&env).is_err() {
            return DeliverTxResponse {
                code: 1,
                info: "",
                event: "deliver",
                gas_wanted: 0,
                gas_used: 0,
            };
        }
        let Envelope { signer, payload } = env;
        let signer = signer.unwrap();
        match payload.unwrap() {
            Payload::Mutation { mutation, .. } => {
                self.pending_mutation.push(
                    PendingRecord::Mutation { submitter: signer, tx_id, mutation },
                );
                DeliverTxResponse {
                    code: 0,
                    info: "deliver_mutation",
                    event: "deliver",
                    gas_wanted: 0,
                    gas_used: 0,
                }
            },
            Payload::QuerySession(q) => {
                let client = q.parties.unwrap().0;
                let info = q.node_query_session_info.unwrap();
                self.pending_query_session.push(
                    PendingRecord::QuerySession { client, node: signer, tx_id, info },
                );
                DeliverTxResponse {
                    code: 0,
                    info: "deliver_query_session",
                    event: "deliver",
                    gas_wanted: 0,
                    gas_used: 0,
                }
            },
            Payload::Database(d) => {
                let nonce = d.meta.unwrap().nonce;
                self.pending_databases.push(
                    PendingRecord::Database { submitter: signer, nonce, tx_id, database: d },
                );
                DeliverTxResponse {
                    code: 0,
                    info: "apply_database",
                    event: "apply",
                    gas_wanted: 0,
                    gas_used: 0,
                }
            },
        }
    }

    /// Drains the three queues into the block's plan. The store must commit
    /// only when the block staged something; otherwise its root hash stands.
    pub fn commit(&mut self) -> (plan: CommitPlan)
        requires
            old(self).wf(),
        ensures
            final(self).view() == drained(old(self).view()),
            final(self).wf(),
            plan.records@ == commit_order(old(self).view()),
            plan.commit_store == (commit_order(old(self).view()).len() > 0),
    {
        let mut records: Vec<PendingRecord> = Vec::new();
        std::mem::swap(&mut records, &mut self.pending_mutation);
        records.append(&mut self.pending_query_session);
        records.append(&mut self.pending_databases);
        let commit_store = records.len() > 0;
        proof {
            assert(self.view() =~= drained(old(self).view()));
        }
        CommitPlan { records, commit_store }
    }

    /// The answer to the consensus engine, carrying the block's root hash.
    pub fn commit_response(hash: [u8; 32]) -> (r: CommitResponse)
        ensures
            r.data == hash,
            r.retain_height == 0,
    {
        CommitResponse { data: hash, retain_height: 0 }
    }

    /// Takes in what the store reported for every record of the plan, in
    /// order; `outcomes` stops early when the store failed. It succeeds
    /// exactly when every record was applied and no counter overflows, and
    /// then each counter is credited with the whole plan.
    pub fn settle_plan(&mut self, plan: &CommitPlan, outcomes: &Vec<ApplyOutcome>) -> (r: Result<
        (),
        CommitError,
    >)
        requires
            old(self).wf(),
        ensures
            final(self).wf(),
            final(self).view().mutations == old(self).view().mutations,
            final(self).view().sessions == old(self).view().sessions,
            final(self).view().databases == old(self).view().databases,
            r is Ok <==> outcomes@.len() == plan.records@.len() && all_applied(outcomes@)
                && credit_all(old(self).view().counters, plan.records@, written_of(outcomes@))
                is Some,
            r is Ok ==> Some(final(self).view().counters) == credit_all(
                old(self).view().counters,
                plan.records@,
                written_of(outcomes@),
            ),
    {
        let n = plan.records.len();
        if outcomes.len() != n {
            return Err(CommitError::ApplyFailed);
        }
        let ghost c0 = self.view().counters;
        let ghost rs = plan.records@;
        let ghost w = written_of(outcomes@);
        let mut i: usize = 0;
        while i < n
            invariant
                n == rs.len(),
                n == outcomes@.len(),
                rs == plan.records@,
                w == written_of(outcomes@),
                0 <= i <= n,
                self.wf(),
                self.view().mutations == old(self).view().mutations,
                self.view().sessions == old(self).view().sessions,
                self.view().databases == old(self).view().databases,
                c0 == old(self).view().counters,
                forall|k: int| 0 <= k < i ==> #[trigger] outcomes@[k] is Applied,
                credit_all(c0, rs.take(i as int), w.take(i as int)) == Some(self.view().counters),
            decreases n - i,
        {
            let ghost before = self.view().counters;
            assert(rs.take(i + 1).drop_last() =~= rs.take(i as int));
            assert(w.take(i + 1).drop_last() =~= w.take(i as int));
            match self.settle(&plan.records[i], outcomes[i]) {
                Ok(()) => {},
                Err(e) => {
                    proof {
                        if outcomes@[i as int] is Applied {
                            lemma_credit_all_stays_none(c0, rs, w, i + 1);
                        }
                    }
                    return Err(e);
                },
            }
            i += 1;
        }
        assert(rs.take(n as int) =~= rs);
        assert(w.take(n as int) =~= w);
        Ok(())
    }

    /// Takes in what the store reported for one record of the plan. An
    /// applied record is credited to the counters; a failed one, or one that
    /// would overflow a counter, is a fatal error and changes nothing.
    pub fn settle(&mut self, record: &PendingRecord, outcome: ApplyOutcome) -> (r: Result<
        (),
        CommitError,
    >)
        requires
            old(self).wf(),
        ensures
            final(self).wf(),
            match outcome {
                ApplyOutcome::Failed => r == Err::<(), CommitError>(CommitError::ApplyFailed)
                    && final(self).view() == old(self).view(),
                ApplyOutcome::Applied { bytes_written } => if credit_fits(
                    old(self).view().counters,
                    *record,
                    bytes_written,
                ) {
                    r is Ok && final(self).view() == (NodeModel {
                        counters: credit(old(self).view().counters, *record, bytes_written),
                        ..old(self).view()
                    })
                } else {
                    r == Err::<(), CommitError>(CommitError::CounterOverflow)
                        && final(self).view() == old(self).view()
                },
            },
    {
        match outcome {
            ApplyOutcome::Failed => Err(CommitError::ApplyFailed),
            ApplyOutcome::Applied { bytes_written } => self.node_state.credit(
                record,
                bytes_written,
            ),
        }
    }
}

} // verus!
