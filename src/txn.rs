//! Transactions: comparisons, and the operations to run when they hold or
//! when they fail.
use vstd::prelude::*;

use crate::header::ResponseHeader;
use crate::key_range::KeyRange;
use crate::kv::{
    DeleteRequest, DeleteResponse, PutRequest, PutResponse, RangeRequest, RangeResponse,
};

verus! {

/// How a transaction compares a key's field with a given value.
#[derive(Debug, Clone, Copy, PartialEq, Eq, Structural)]
pub enum TxnCmp {
    Equal,
    NotEqual,
    Greater,
    Less,
}

impl TxnCmp {
    /// The protocol's code of the comparison.
    pub open spec fn spec_code(self) -> i32 {
        match self {
            TxnCmp::Equal => 0,
            TxnCmp::Greater => 1,
            TxnCmp::Less => 2,
            TxnCmp::NotEqual => 3,
        }
    }

    /// The protocol's code of the comparison.
    pub fn code(&self) -> (r: i32)
        ensures
            r == self.spec_code(),
    {
        match self {
            TxnCmp::Equal => 0,
            TxnCmp::Greater => 1,
            TxnCmp::Less => 2,
            TxnCmp::NotEqual => 3,
        }
    }
}

/// The field of a key that a comparison reads, with the value it is compared
/// with.
#[derive(Debug, Clone, PartialEq, Eq)]
pub enum CompareTarget {
    Version(i64),
    CreateRevision(i64),
    ModRevision(i64),
    Value(Vec<u8>),
}

/// One comparison of a transaction.
#[derive(Debug)]
pub struct Compare {
    pub result: i32,
    pub key: Vec<u8>,
    pub range_end: Vec<u8>,
    pub target: CompareTarget,
}

/// An operation of a transaction.
#[derive(Debug)]
pub enum TxnOp {
    Range(RangeRequest),
    Put(PutRequest),
    Delete(DeleteRequest),
    Txn(TxnRequest),
}

/// A transaction: when every comparison holds, the `success` operations run;
/// otherwise the `failure` ones.
#[derive(Debug)]
pub struct TxnRequest {
    pub compare: Vec<Compare>,
    pub success: Vec<TxnOp>,
    pub failure: Vec<TxnOp>,
}

impl TxnRequest {
    /// True when `b` is `a` with a comparison of `key_range` by `cmp`
    /// against `target` added.
    pub open spec fn adds_compare(
        a: TxnRequest,
        b: TxnRequest,
        key_range: KeyRange,
        cmp: TxnCmp,
        target: CompareTarget,
    ) -> bool {
        &&& b == (TxnRequest { compare: b.compare, ..a })
        &&& b.compare@ == a.compare@.push(
            Compare {
                result: cmp.spec_code(),
                key: key_range.key,
                range_end: key_range.range_end,
                target,
            },
        )
    }

    /// Creates an empty transaction.
    pub fn new() -> (r: Self)
        ensures
            r.compare@.len() == 0,
            r.success@.len() == 0,
            r.failure@.len() == 0,
    {
        TxnRequest { compare: Vec::new(), success: Vec::new(), failure: Vec::new() }
    }

    fn push_compare(self, key_range: KeyRange, cmp: TxnCmp, target: CompareTarget) -> (r: Self)
        ensures
            TxnRequest::adds_compare(self, r, key_range, cmp, target),
    {
        let mut r = self;
        let c = Compare {
            result: cmp.code(),
            key: key_range.key,
            range_end: key_range.range_end,
            target,
        };
        r.compare.push(c);
        r
    }

    /// The transaction, with a comparison of the version of `key_range`.
    pub fn when_version(self, key_range: KeyRange, cmp: TxnCmp, version: usize) -> (r: Self)
        requires
            version <= i64::MAX,
        ensures
            TxnRequest::adds_compare(self, r, key_range, cmp, CompareTarget::Version(version as i64)),
    {
        self.push_compare(key_range, cmp, CompareTarget::Version(version as i64))
    }

    /// The transaction, with a comparison of the create revision of
    /// `key_range`.
    pub fn when_create_revision(self, key_range: KeyRange, cmp: TxnCmp, revision: usize) -> (r:
        Self)
        requires
            revision <= i64::MAX,
        ensures
            TxnRequest::adds_compare(self, r, key_range, cmp, CompareTarget::CreateRevision(revision as i64)),
    {
        self.push_compare(key_range, cmp, CompareTarget::CreateRevision(revision as i64))
    }

    /// The transaction, with a comparison of the mod revision of `key_range`.
    pub fn when_mod_revision(self, key_range: KeyRange, cmp: TxnCmp, revision: usize) -> (r: Self)
        requires
            revision <= i64::MAX,
        ensures
            TxnRequest::adds_compare(self, r, key_range, cmp, CompareTarget::ModRevision(revision as i64)),
    {
        self.push_compare(key_range, cmp, CompareTarget::ModRevision(revision as i64))
    }

    /// The transaction, with a comparison of the value of `key_range`.
    pub fn when_value(self, key_range: KeyRange, cmp: TxnCmp, value: Vec<u8>) -> (r: Self)
        ensures
            TxnRequest::adds_compare(self, r, key_range, cmp, CompareTarget::Value(value)),
    {
        self.push_compare(key_range, cmp, CompareTarget::Value(value))
    }

    /// The transaction, running `op` when the comparisons hold.
    pub fn and_then(self, op: TxnOp) -> (r: Self)
        ensures
            r == (TxnRequest { success: r.success, ..self }),
            r.success@ == self.success@.push(op),
    {
        let mut r = self;
        r.success.push(op);
        r
    }

    /// The transaction, running `op` when a comparison fails.
    pub fn or_else(self, op: TxnOp) -> (r: Self)
        ensures
            r == (TxnRequest { failure: r.failure, ..self }),
            r.failure@ == self.failure@.push(op),
    {
        let mut r = self;
        r.failure.push(op);
        r
    }
}

impl Default for TxnRequest {
    fn default() -> (r: Self)
        ensures
            r.compare@.len() == 0,
            r.success@.len() == 0,
            r.failure@.len() == 0,
    {
        TxnRequest::new()
    }
}

/// The answer to one operation of a transaction.
#[derive(Debug)]
pub enum TxnOpResponse {
    Range(RangeResponse),
    Put(PutResponse),
    Delete(DeleteResponse),
    Txn(TxnResponse),
}

/// The answer to a transaction: whether the comparisons held, and the answers
/// to the operations that ran.
#[derive(Debug)]
pub struct TxnResponse {
    pub header: ResponseHeader,
    pub succeeded: bool,
    pub responses: Vec<TxnOpResponse>,
}

} // verus!
