//! Cluster membership: the members of a cluster, and the requests and
//! responses that add, list, remove and update them.
use vstd::prelude::*;

use crate::header::ResponseHeader;

verus! {

/// A member of the cluster.
#[derive(Debug, Clone)]
pub struct Member {
    pub id: u64,
    pub name: String,
    pub peer_urls: Vec<String>,
    pub client_urls: Vec<String>,
    pub is_learner: bool,
}

/// A request that adds a member, reachable by its peers at `peer_urls`.
#[derive(Debug, Clone)]
pub struct MemberAddRequest {
    pub peer_urls: Vec<String>,
    pub is_learner: bool,
}

impl MemberAddRequest {
    /// Creates a request that adds a member at `peer_urls`, as a learner or
    /// as a voting member.
    pub fn new(peer_urls: Vec<String>, is_learner: bool) -> (r: Self)
        ensures
            r == (MemberAddRequest { peer_urls, is_learner }),
    {
        MemberAddRequest { peer_urls, is_learner }
    }
}

/// The answer to an addition: the new member and every member after it.
#[derive(Debug, Clone)]
pub struct MemberAddResponse {
    pub header: ResponseHeader,
    pub member: Member,
    pub members: Vec<Member>,
}

/// A request for the members of the cluster.
#[derive(Debug, Clone, Copy, PartialEq, Eq, Structural)]
pub struct MemberListRequest {
    pub linearizable: bool,
}

impl MemberListRequest {
    /// Creates a request for the members, read with consensus.
    pub fn new() -> (r: Self)
        ensures
            r.linearizable,
    {
        MemberListRequest { linearizable: true }
    }
}

impl Default for MemberListRequest {
    fn default() -> (r: Self)
        ensures
            r.linearizable,
    {
        MemberListRequest::new()
    }
}

/// The answer to a member list request.
#[derive(Debug, Clone)]
pub struct MemberListResponse {
    pub header: ResponseHeader,
    pub members: Vec<Member>,
}

impl MemberListResponse {
    /// The identifiers of the members, in the order of the response.
    pub fn member_ids(&self) -> (r: Vec<u64>)
        ensures
            r@.len() == self.members@.len(),
            forall|i: int| 0 <= i < r@.len() ==> r@[i] == #[trigger] self.members@[i].id,
    {
        let mut ids: Vec<u64> = Vec::new();
        let mut i: usize = 0;
        while i < self.members.len()
            invariant
                i <= self.members@.len(),
                ids@.len() == i,
                forall|j: int| 0 <= j < i ==> ids@[j] == #[trigger] self.members@[j].id,
            decreases self.members@.len() - i,
        {
            ids.push(self.members[i].id);
            i = i + 1;
        }
        ids
    }
}

/// A request that removes a member.
#[derive(Debug, Clone, Copy, PartialEq, Eq, Structural)]
pub struct MemberRemoveRequest {
    pub id: u64,
}

impl MemberRemoveRequest {
    /// Creates a request that removes the member `member_id`.
    pub fn new(member_id: u64) -> (r: Self)
        ensures
            r.id == member_id,
    {
        MemberRemoveRequest { id: member_id }
    }
}

/// The answer to a removal: the members left.
#[derive(Debug, Clone)]
pub struct MemberRemoveResponse {
    pub header: ResponseHeader,
    pub members: Vec<Member>,
}

/// A request that changes the peer URLs of a member.
#[derive(Debug, Clone)]
pub struct MemberUpdateRequest {
    pub id: u64,
    pub peer_urls: Vec<String>,
}

impl MemberUpdateRequest {
    /// Creates a request that gives the member `member_id` the peer URLs
    /// `peer_urls`.
    pub fn new(member_id: u64, peer_urls: Vec<String>) -> (r: Self)
        ensures
            r == (MemberUpdateRequest { id: member_id, peer_urls }),
    {
        MemberUpdateRequest { id: member_id, peer_urls }
    }
}

/// The answer to an update: the members after it.
#[derive(Debug, Clone)]
pub struct MemberUpdateResponse {
    pub header: ResponseHeader,
    pub members: Vec<Member>,
}

} // verus!
