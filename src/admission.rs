use vstd::prelude::*;

use crate::types::{Envelope, Payload};

verus! {

/// Why a transaction was turned away.
#[derive(Clone, Copy, Debug, PartialEq, Eq, Structural)]
pub enum RejectReason {
    /// The envelope or its payload did not decode, or its kind is unknown.
    Undecodable,
    /// The signature did not recover an account.
    BadSignature,
    /// The payload failed the validator of its kind, or cannot be staged.
    InvalidPayload,
}

/// The kind-specific rule of the admission check: the key/value validator
/// accepted the mutation, a database mutation carries its metadata, the
/// settlement verifier accepted the session proof.
pub open spec fn check_payload(p: Payload) -> bool {
    match p {
        Payload::Mutation { validated, .. } => validated,
        Payload::Database(d) => d.meta is Some,
        Payload::QuerySession(q) => q.parties is Some,
    }
}

/// The kind-specific rule at staging: the admission rule, and a settlement
/// must also carry the serving node's session record, which its pending
/// record holds.
pub open spec fn stage_payload(p: Payload) -> bool {
    &&& check_payload(p)
    &&& (p is QuerySession ==> p->QuerySession_0.node_query_session_info is Some)
}

/// The decision of the admission check: it depends on the envelope alone.
pub open spec fn check_admission(env: Envelope) -> Result<(), RejectReason> {
    match env.payload {
        None => Err(RejectReason::Undecodable),
        Some(p) => match env.signer {
            None => Err(RejectReason::BadSignature),
            Some(_) => if check_payload(p) {
                Ok(())
            } else {
                Err(RejectReason::InvalidPayload)
            },
        },
    }
}

/// The decision at staging: whether a delivered transaction enters a queue.
pub open spec fn admission(env: Envelope) -> Result<(), RejectReason> {
    match env.payload {
        None => Err(RejectReason::Undecodable),
        Some(p) => match env.signer {
            None => Err(RejectReason::BadSignature),
            Some(_) => if stage_payload(p) {
                Ok(())
            } else {
                Err(RejectReason::InvalidPayload)
            },
        },
    }
}

/// Runs the admission rule on an envelope. Reads nothing else and changes
/// nothing.
pub fn admission_check(env: &Envelope) -> (r: Result<(), RejectReason>)
    ensures
        r == check_admission(*env),
{
    match &env.payload {
        None => Err(RejectReason::Undecodable),
        Some(p) => {
            if env.signer.is_none() {
                Err(RejectReason::BadSignature)
            } else {
                let ok = match p {
                    Payload::Mutation { validated, .. } => *validated,
                    Payload::Database(d) => d.meta.is_some(),
                    Payload::QuerySession(q) => q.parties.is_some(),
                };
                if ok {
                    Ok(())
                } else {
                    Err(RejectReason::InvalidPayload)
                }
            }
        },
    }
}

/// Runs the staging rule on an envelope.
pub fn staging_check(env: &Envelope) -> (r: Result<(), RejectReason>)
    ensures
        r == admission(*env),
{
    match admission_check(env) {
        Err(e) => Err(e),
        Ok(()) => match &env.payload {
            Some(Payload::QuerySession(q)) => if q.node_query_session_info.is_some() {
                Ok(())
            } else {
                Err(RejectReason::InvalidPayload)
            },
            _ => Ok(()),
        },
    }
}

} // verus!
