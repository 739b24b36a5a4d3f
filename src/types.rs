use vstd::prelude::*;

verus! {

/// Identity recovered from a valid signature (a 20-byte address).
#[derive(Clone, Copy)]
pub struct AccountId {
    pub addr: [u8; 20],
}

/// Content-derived identifier of a raw transaction.
#[derive(Clone, Copy)]
pub struct TxId {
    pub data: [u8; 32],
}

/// What a key/value pair does to its key.
#[derive(Clone, Copy, PartialEq, Eq, Structural)]
pub enum KvAction {
    Insert,
    Delete,
}

pub struct KvPair {
    pub key: Vec<u8>,
    pub value: Vec<u8>,
    pub action: KvAction,
}

/// A namespace-scoped batch of key/value writes.
pub struct KvMutation {
    pub ns: Vec<u8>,
    pub kv_pairs: Vec<KvPair>,
    pub nonce: u64,
    pub gas_price: u64,
    pub gas: u64,
    pub chain_id: i32,
    pub chain_role: i32,
}

/// Replay and routing data that a database mutation must carry.
#[derive(Clone, Copy)]
pub struct BroadcastMeta {
    pub nonce: u64,
    pub chain_id: i32,
    pub chain_role: i32,
}

#[derive(Clone, Copy, PartialEq, Eq, Structural)]
pub enum DatabaseAction {
    CreateDb,
    AddCollection,
}

pub struct CollectionDef {
    pub name: Vec<u8>,
    pub index_names: Vec<Vec<u8>>,
}

/// A schema change: a new database, or collections added to one.
pub struct DatabaseMutation {
    pub meta: Option<BroadcastMeta>,
    pub action: DatabaseAction,
    pub db_address: Vec<u8>,
    pub collections: Vec<CollectionDef>,
}

/// Billing record of one query session.
#[derive(Clone, Copy)]
pub struct QuerySessionInfo {
    pub id: u64,
    pub start_time: u64,
    pub query_count: u64,
}

/// A settlement as decoded, together with what the settlement verifier
/// recovered from its proof: the client and the serving node, or `None`
/// when the proof was rejected.
pub struct QuerySession {
    pub node_query_session_info: Option<QuerySessionInfo>,
    pub parties: Option<(AccountId, AccountId)>,
}

/// The typed payload of an envelope. A key/value mutation comes with the
/// verdict of the stateless key/value validator on it.
pub enum Payload {
    Mutation { mutation: KvMutation, validated: bool },
    Database(DatabaseMutation),
    QuerySession(QuerySession),
}

/// A transaction after decoding and signature recovery.
///
/// `payload` is `None` when the envelope or its payload did not decode, or
/// when its kind tag is unknown; `signer` is `None` when the signature did
/// not recover an account.
pub struct Envelope {
    pub signer: Option<AccountId>,
    pub payload: Option<Payload>,
}

/// An admitted transaction waiting in a staging queue for the block's commit.
pub enum PendingRecord {
    Mutation { submitter: AccountId, tx_id: TxId, mutation: KvMutation },
    QuerySession { client: AccountId, node: AccountId, tx_id: TxId, info: QuerySessionInfo },
    Database { submitter: AccountId, nonce: u64, tx_id: TxId, database: DatabaseMutation },
}

} // verus!
