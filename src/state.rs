use vstd::prelude::*;

use crate::types::PendingRecord;

verus! {

/// Process-wide statistics of the node, updated only by committed records.
#[derive(Clone, Copy)]
pub struct NodeState {
    pub total_storage_bytes: u64,
    pub total_mutations: u64,
    pub total_query_sessions: u64,
}

/// Why the application of a committed block could not go on. Both are
/// fatal: the node's state no longer follows the agreed block.
#[derive(Clone, Copy, Debug, PartialEq, Eq, Structural)]
pub enum CommitError {
    /// The store refused a record that had been admitted.
    ApplyFailed,
    /// A counter would pass `u64::MAX`.
    CounterOverflow,
}

/// Mutations that a record adds to `total_mutations`.
pub open spec fn mutations_of(r: PendingRecord) -> nat {
    match r {
        PendingRecord::Mutation { .. } => 1,
        _ => 0,
    }
}

/// Sessions that a record adds to `total_query_sessions`.
pub open spec fn sessions_of(r: PendingRecord) -> nat {
    match r {
        PendingRecord::QuerySession { .. } => 1,
        _ => 0,
    }
}

/// Bytes that a record adds to `total_storage_bytes`, given what the store
/// reported as written.
pub open spec fn bytes_of(r: PendingRecord, written: u64) -> nat {
    match r {
        PendingRecord::Mutation { .. } => written as nat,
        _ => 0,
    }
}

/// Crediting the record leaves every counter within `u64`.
pub open spec fn credit_fits(c: NodeState, r: PendingRecord, written: u64) -> bool {
    &&& c.total_storage_bytes + bytes_of(r, written) <= u64::MAX
    &&& c.total_mutations + mutations_of(r) <= u64::MAX
    &&& c.total_query_sessions + sessions_of(r) <= u64::MAX
}

/// The counters after a successfully applied record.
pub open spec fn credit(c: NodeState, r: PendingRecord, written: u64) -> NodeState {
    NodeState {
        total_storage_bytes: (c.total_storage_bytes + bytes_of(r, written)) as u64,
        total_mutations: (c.total_mutations + mutations_of(r)) as u64,
        total_query_sessions: (c.total_query_sessions + sessions_of(r)) as u64,
    }
}

/// Counters after crediting applied records one after another, `written[j]`
/// being the bytes the store reported for `rs[j]`; `None` once one would
/// overflow.
pub open spec fn credit_all(c: NodeState, rs: Seq<PendingRecord>, written: Seq<u64>) -> Option<
    NodeState,
>
    decreases rs.len(),
{
    if rs.len() == 0 || written.len() != rs.len() {
        if rs.len() == 0 {
            Some(c)
        } else {
            None
        }
    } else {
        match credit_all(c, rs.drop_last(), written.drop_last()) {
            None => None,
            Some(p) => if credit_fits(p, rs.last(), written.last()) {
                Some(credit(p, rs.last(), written.last()))
            } else {
                None
            },
        }
    }
}

impl NodeState {
    /// Counters of a node that has committed nothing yet.
    pub fn new() -> (r: NodeState)
        ensures
            r.total_storage_bytes == 0,
            r.total_mutations == 0,
            r.total_query_sessions == 0,
    {
        NodeState { total_storage_bytes: 0, total_mutations: 0, total_query_sessions: 0 }
    }

    /// Credits one record that the store applied, `written` being the bytes
    /// the store reported for it. Nothing changes when a counter would overflow.
    pub fn credit(&mut self, r: &PendingRecord, written: u64) -> (res: Result<(), CommitError>)
        ensures
            credit_fits(*old(self), *r, written) ==> res is Ok && *final(self) == credit(
                *old(self),
                *r,
                written,
            ),
            !credit_fits(*old(self), *r, written) ==> res == Err::<(), CommitError>(
                CommitError::CounterOverflow,
            ) && *final(self) == *old(self),
    {
        match r {
            PendingRecord::Mutation { .. } => {
                if self.total_mutations == u64::MAX || self.total_storage_bytes > u64::MAX
                    - written {
                    return Err(CommitError::CounterOverflow);
                }
                self.total_mutations = self.total_mutations + 1;
                self.total_storage_bytes = self.total_storage_bytes + written;
            },
            PendingRecord::QuerySession { .. } => {
                if self.total_query_sessions == u64::MAX {
                    return Err(CommitError::CounterOverflow);
                }
                self.total_query_sessions = self.total_query_sessions + 1;
            },
            PendingRecord::Database { .. } => {},
        }
        Ok(())
    }

    pub fn get_total_storage_bytes(&self) -> (r: u64)
        ensures
            r == self.total_storage_bytes,
    {
        self.total_storage_bytes
    }

    pub fn get_total_mutations(&self) -> (r: u64)
        ensures
            r == self.total_mutations,
    {
        self.total_mutations
    }

    pub fn get_total_query_sessions(&self) -> (r: u64)
        ensures
            r == self.total_query_sessions,
    {
        self.total_query_sessions
    }
}

} // verus!
