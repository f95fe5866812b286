//! The header that the store puts on every response.
use vstd::prelude::*;

verus! {

/// Who answered a request, and at which revision and raft term.
#[derive(Clone, Copy, Debug, PartialEq, Eq, Structural)]
pub struct ResponseHeader {
    pub cluster_id: u64,
    pub member_id: u64,
    pub revision: i64,
    pub raft_term: u64,
}

impl ResponseHeader {
    /// The ID of the cluster which sent the response.
    pub fn cluster_id(&self) -> (r: u64)
        ensures
            r == self.cluster_id,
    {
        self.cluster_id
    }

    /// The ID of the member which sent the response.
    pub fn member_id(&self) -> (r: u64)
        ensures
            r == self.member_id,
    {
        self.member_id
    }

    /// The key-value store revision when the request was applied.
    pub fn revision(&self) -> (r: i64)
        ensures
            r == self.revision,
    {
        self.revision
    }

    /// The raft term when the request was applied.
    pub fn raft_term(&self) -> (r: u64)
        ensures
            r == self.raft_term,
    {
        self.raft_term
    }
}

} // verus!
