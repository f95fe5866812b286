//! Range reads built step by step: `GetRequest` and its answer.
use vstd::prelude::*;

use crate::header::ResponseHeader;
use crate::key_range::KeyRange;
use crate::kv::{
    KeyValue, RangeRequest, SORT_ASCEND, SORT_DESCEND, SORT_NONE, TARGET_CREATE, TARGET_KEY,
    TARGET_MOD, TARGET_VALUE, TARGET_VERSION,
};

verus! {

/// A read of a key or a range of keys, with its options.
#[derive(Clone, Debug)]
pub struct GetRequest {
    pub key: Vec<u8>,
    pub end_key: Option<Vec<u8>>,
    pub limit: i64,
    pub revision: i64,
    pub sort_order: i32,
    pub sort_target: i32,
    pub serializable: bool,
    pub keys_only: bool,
    pub count_only: bool,
    pub min_mod_revision: i64,
    pub max_mod_revision: i64,
    pub min_create_revision: i64,
    pub max_create_revision: i64,
}

/// The view of an optional byte string.
pub open spec fn opt_bytes(b: Option<Vec<u8>>) -> Option<Seq<u8>> {
    match b {
        Some(v) => Some(v@),
        None => None,
    }
}

impl GetRequest {
    /// True when `r` reads from `key` up to `end_key`, with every option at
    /// its default.
    pub open spec fn is_plain(r: GetRequest, key: Seq<u8>, end_key: Option<Seq<u8>>) -> bool {
        &&& r.key@ == key
        &&& opt_bytes(r.end_key) == end_key
        &&& r.limit == 0
        &&& r.revision == 0
        &&& r.sort_order == SORT_NONE
        &&& r.sort_target == TARGET_KEY
        &&& !r.serializable
        &&& !r.keys_only
        &&& !r.count_only
        &&& r.min_mod_revision == 0
        &&& r.max_mod_revision == 0
        &&& r.min_create_revision == 0
        &&& r.max_create_revision == 0
    }

    fn plain(key: Vec<u8>, end_key: Option<Vec<u8>>) -> (r: Self)
        ensures
            GetRequest::is_plain(r, key@, opt_bytes(end_key)),
    {
        GetRequest {
            key,
            end_key,
            limit: 0,
            revision: 0,
            sort_order: SORT_NONE,
            sort_target: TARGET_KEY,
            serializable: false,
            keys_only: false,
            count_only: false,
            min_mod_revision: 0,
            max_mod_revision: 0,
            min_create_revision: 0,
            max_create_revision: 0,
        }
    }

    /// Creates a read of the single key `key`.
    pub fn key(key: Vec<u8>) -> (r: Self)
        ensures
            GetRequest::is_plain(r, key@, None),
    {
        GetRequest::plain(key, None)
    }

    /// Creates a read of the keys that start with `prefix`.
    pub fn prefix(prefix: Vec<u8>) -> (r: Self)
        ensures
            GetRequest::is_plain(
                r,
                KeyRange::spec_prefix_key(prefix@),
                Some(KeyRange::spec_prefix_end(prefix@)),
            ),
    {
        let range = KeyRange::prefix(prefix);
        GetRequest::plain(range.key, Some(range.range_end))
    }

    /// Creates a read of the keys in `[key, end_key)`.
    pub fn range(key: Vec<u8>, end_key: Vec<u8>) -> (r: Self)
        ensures
            GetRequest::is_plain(r, key@, Some(end_key@)),
    {
        GetRequest::plain(key, Some(end_key))
    }

    /// The read, returning at most `limit` keys; 0 for no limit.
    pub fn with_limit(self, limit: i64) -> (r: Self)
        ensures
            r == (GetRequest { limit, ..self }),
    {
        let mut r = self;
        r.limit = limit;
        r
    }

    /// The read, at revision `revision`; 0 or less for the newest.
    pub fn with_revision(self, revision: i64) -> (r: Self)
        ensures
            r == (GetRequest { revision, ..self }),
    {
        let mut r = self;
        r.revision = revision;
        r
    }

    /// The read, in ascending order.
    pub fn with_order_ascend(self) -> (r: Self)
        ensures
            r == (GetRequest { sort_order: SORT_ASCEND, ..self }),
    {
        let mut r = self;
        r.sort_order = SORT_ASCEND;
        r
    }

    /// The read, in descending order.
    pub fn with_order_descend(self) -> (r: Self)
        ensures
            r == (GetRequest { sort_order: SORT_DESCEND, ..self }),
    {
        let mut r = self;
        r.sort_order = SORT_DESCEND;
        r
    }

    /// The read, sorted by key.
    pub fn with_sort_key(self) -> (r: Self)
        ensures
            r == (GetRequest { sort_target: TARGET_KEY, ..self }),
    {
        let mut r = self;
        r.sort_target = TARGET_KEY;
        r
    }

    /// The read, sorted by version.
    pub fn with_sort_version(self) -> (r: Self)
        ensures
            r == (GetRequest { sort_target: TARGET_VERSION, ..self }),
    {
        let mut r = self;
        r.sort_target = TARGET_VERSION;
        r
    }

    /// The read, sorted by create revision.
    pub fn with_sort_create_revision(self) -> (r: Self)
        ensures
            r == (GetRequest { sort_target: TARGET_CREATE, ..self }),
    {
        let mut r = self;
        r.sort_target = TARGET_CREATE;
        r
    }

    /// The read, sorted by mod revision.
    pub fn with_sort_mod_revision(self) -> (r: Self)
        ensures
            r == (GetRequest { sort_target: TARGET_MOD, ..self }),
    {
        let mut r = self;
        r.sort_target = TARGET_MOD;
        r
    }

    /// The read, sorted by value.
    pub fn with_sort_value(self) -> (r: Self)
        ensures
            r == (GetRequest { sort_target: TARGET_VALUE, ..self }),
    {
        let mut r = self;
        r.sort_target = TARGET_VALUE;
        r
    }

    /// The read, served by any member without consensus.
    pub fn with_serializable(self) -> (r: Self)
        ensures
            r == (GetRequest { serializable: true, ..self }),
    {
        let mut r = self;
        r.serializable = true;
        r
    }

    /// The read, returning only the count of the keys.
    pub fn with_count_only(self) -> (r: Self)
        ensures
            r == (GetRequest { count_only: true, ..self }),
    {
        let mut r = self;
        r.count_only = true;
        r
    }

    /// The read, returning the keys without their values.
    pub fn with_keys_only(self) -> (r: Self)
        ensures
            r == (GetRequest { keys_only: true, ..self }),
    {
        let mut r = self;
        r.keys_only = true;
        r
    }

    /// The read, leaving out keys last changed before `mod_revision`.
    pub fn with_min_mod_revision(self, mod_revision: i64) -> (r: Self)
        ensures
            r == (GetRequest { min_mod_revision: mod_revision, ..self }),
    {
        let mut r = self;
        r.min_mod_revision = mod_revision;
        r
    }

    /// The read, leaving out keys last changed after `mod_revision`.
    pub fn with_max_mod_revision(self, mod_revision: i64) -> (r: Self)
        ensures
            r == (GetRequest { max_mod_revision: mod_revision, ..self }),
    {
        let mut r = self;
        r.max_mod_revision = mod_revision;
        r
    }

    /// The read, leaving out keys created before `create_revision`.
    pub fn with_min_create_revision(self, create_revision: i64) -> (r: Self)
        ensures
            r == (GetRequest { min_create_revision: create_revision, ..self }),
    {
        let mut r = self;
        r.min_create_revision = create_revision;
        r
    }

    /// The read, leaving out keys created after `create_revision`.
    pub fn with_max_create_revision(self, create_revision: i64) -> (r: Self)
        ensures
            r == (GetRequest { max_create_revision: create_revision, ..self }),
    {
        let mut r = self;
        r.max_create_revision = create_revision;
        r
    }

    /// True when `r` is the range request that the protocol sends for the
    /// read `g`: the same fields, with an empty range end where `g` has none.
    pub open spec fn spec_range_request(g: GetRequest, r: RangeRequest) -> bool {
        &&& r.key@ == g.key@
        &&& r.range_end@ == match opt_bytes(g.end_key) {
            Some(e) => e,
            None => Seq::<u8>::empty(),
        }
        &&& r.limit == g.limit
        &&& r.revision == g.revision
        &&& r.sort_order == g.sort_order
        &&& r.sort_target == g.sort_target
        &&& r.serializable == g.serializable
        &&& r.keys_only == g.keys_only
        &&& r.count_only == g.count_only
        &&& r.min_mod_revision == g.min_mod_revision
        &&& r.max_mod_revision == g.max_mod_revision
        &&& r.min_create_revision == g.min_create_revision
        &&& r.max_create_revision == g.max_create_revision
    }

    /// The range request that the protocol sends for this read: the same
    /// fields, with an empty range end where the read has none.
    pub fn into_range_request(self) -> (r: RangeRequest)
        ensures
            GetRequest::spec_range_request(self, r),
    {
        let range_end = match self.end_key {
            Some(e) => e,
            None => Vec::new(),
        };
        RangeRequest {
            key: self.key,
            range_end,
            limit: self.limit,
            revision: self.revision,
            sort_order: self.sort_order,
            sort_target: self.sort_target,
            serializable: self.serializable,
            keys_only: self.keys_only,
            count_only: self.count_only,
            min_mod_revision: self.min_mod_revision,
            max_mod_revision: self.max_mod_revision,
            min_create_revision: self.min_create_revision,
            max_create_revision: self.max_create_revision,
        }
    }
}

/// The answer to a `GetRequest`.
#[derive(Clone, Debug)]
pub struct GetResponse {
    pub header: ResponseHeader,
    pub more: bool,
    pub count: i64,
    pub kvs: Vec<KeyValue>,
}

impl GetResponse {
    /// The header of the response.
    pub fn header(&self) -> (r: &ResponseHeader)
        ensures
            *r == self.header,
    {
        &self.header
    }

    /// True when the range holds more keys than were returned.
    pub fn has_more(&self) -> (r: bool)
        ensures
            r == self.more,
    {
        self.more
    }

    /// The number of keys in the range.
    pub fn count(&self) -> (r: i64)
        ensures
            r == self.count,
    {
        self.count
    }

    /// The pairs returned.
    pub fn kvs(&self) -> (r: &[KeyValue])
        ensures
            r@ == self.kvs@,
    {
        self.kvs.as_slice()
    }

    /// The pairs returned.
    pub fn into_kvs(self) -> (r: Vec<KeyValue>)
        ensures
            r@ == self.kvs@,
    {
        self.kvs
    }
}

} // verus!
