//! Key-value pairs and the requests and responses of the key-value RPCs:
//! put, range, delete and compaction.
use vstd::prelude::*;
use vstd::utf8::{decode_utf8, valid_utf8};

use crate::header::ResponseHeader;
use crate::key_range::KeyRange;
use crate::lease::LeaseId;
use crate::text::utf8_string;

verus! {

/// A key, its value and its bookkeeping, as the store holds it.
#[derive(Clone, Debug)]
pub struct KeyValue {
    pub key: Vec<u8>,
    pub value: Vec<u8>,
    pub create_revision: i64,
    pub mod_revision: i64,
    pub version: i64,
    pub lease: LeaseId,
}

/// The text that `bytes` encode, when they are valid UTF-8.
pub open spec fn text_of(bytes: Seq<u8>) -> Option<Seq<char>> {
    if valid_utf8(bytes) {
        Some(decode_utf8(bytes))
    } else {
        None
    }
}

/// The view of an optional string.
pub open spec fn opt_string_view(s: Option<String>) -> Option<Seq<char>> {
    match s {
        Some(t) => Some(t@),
        None => None,
    }
}

impl KeyValue {
    /// True when `b` holds what `a` holds, but for the key.
    pub open spec fn same_but_key(a: KeyValue, b: KeyValue) -> bool {
        &&& b.value@ == a.value@
        &&& b.create_revision == a.create_revision
        &&& b.mod_revision == a.mod_revision
        &&& b.version == a.version
        &&& b.lease == a.lease
    }

    /// True when `b` holds what `a` holds, but for the value.
    pub open spec fn same_but_value(a: KeyValue, b: KeyValue) -> bool {
        &&& b.key@ == a.key@
        &&& b.create_revision == a.create_revision
        &&& b.mod_revision == a.mod_revision
        &&& b.version == a.version
        &&& b.lease == a.lease
    }

    /// The key, as bytes.
    pub fn key(&self) -> (r: &[u8])
        ensures
            r@ == self.key@,
    {
        self.key.as_slice()
    }

    /// Moves the key out, leaving it empty.
    pub fn take_key(&mut self) -> (r: Vec<u8>)
        ensures
            r@ == old(self).key@,
            final(self).key@ == Seq::<u8>::empty(),
            KeyValue::same_but_key(*old(self), *final(self)),
    {
        let mut k: Vec<u8> = Vec::new();
        std::mem::swap(&mut k, &mut self.key);
        k
    }

    /// The key as text; `None` when it is not valid UTF-8.
    pub fn key_str(&self) -> (r: Option<String>)
        ensures
            opt_string_view(r) == text_of(self.key@),
    {
        utf8_string(self.key.clone())
    }

    /// The value, as bytes.
    pub fn value(&self) -> (r: &[u8])
        ensures
            r@ == self.value@,
    {
        self.value.as_slice()
    }

    /// Moves the value out, leaving it empty.
    pub fn take_value(&mut self) -> (r: Vec<u8>)
        ensures
            r@ == old(self).value@,
            final(self).value@ == Seq::<u8>::empty(),
            KeyValue::same_but_value(*old(self), *final(self)),
    {
        let mut v: Vec<u8> = Vec::new();
        std::mem::swap(&mut v, &mut self.value);
        v
    }

    /// The value as text; `None` when it is not valid UTF-8.
    pub fn value_str(&self) -> (r: Option<String>)
        ensures
            opt_string_view(r) == text_of(self.value@),
    {
        utf8_string(self.value.clone())
    }

    /// The revision of the last creation of the key.
    pub fn create_revision(&self) -> (r: i64)
        ensures
            r == self.create_revision,
    {
        self.create_revision
    }

    /// The revision of the last change of the key.
    pub fn mod_revision(&self) -> (r: i64)
        ensures
            r == self.mod_revision,
    {
        self.mod_revision
    }

    /// The number of changes of the key since its creation.
    pub fn version(&self) -> (r: i64)
        ensures
            r == self.version,
    {
        self.version
    }

    /// The lease attached to the key; 0 for none.
    pub fn lease(&self) -> (r: LeaseId)
        ensures
            r == self.lease,
    {
        self.lease
    }

    /// True when a lease is attached to the key.
    pub fn has_lease(&self) -> (r: bool)
        ensures
            r == (self.lease != 0),
    {
        self.lease != 0
    }

    /// The key, as bytes.
    pub fn raw_key(&self) -> (r: &[u8])
        ensures
            r@ == self.key@,
    {
        self.key.as_slice()
    }

    /// The key as text; `None` when it is not valid UTF-8.
    pub fn into_key(self) -> (r: Option<String>)
        ensures
            opt_string_view(r) == text_of(self.key@),
    {
        utf8_string(self.key)
    }

    /// The key, as bytes.
    pub fn into_raw_key(self) -> (r: Vec<u8>)
        ensures
            r@ == self.key@,
    {
        self.key
    }

    /// The value, as bytes.
    pub fn raw_value(&self) -> (r: &[u8])
        ensures
            r@ == self.value@,
    {
        self.value.as_slice()
    }

    /// The value as text; `None` when it is not valid UTF-8.
    pub fn into_value(self) -> (r: Option<String>)
        ensures
            opt_string_view(r) == text_of(self.value@),
    {
        utf8_string(self.value)
    }

    /// The value, as bytes.
    pub fn into_raw_value(self) -> (r: Vec<u8>)
        ensures
            r@ == self.value@,
    {
        self.value
    }

    /// The key and the value as text; `None` when either is not valid UTF-8.
    pub fn into_key_value(self) -> (r: Option<(String, String)>)
        ensures
            r.is_some() <==> (text_of(self.key@).is_some() && text_of(self.value@).is_some()),
            r matches Some(kv) ==> Some(kv.0@) == text_of(self.key@) && Some(kv.1@) == text_of(
                self.value@,
            ),
    {
        let key = match utf8_string(self.key) {
            Some(k) => k,
            None => return None,
        };
        let value = match utf8_string(self.value) {
            Some(v) => v,
            None => return None,
        };
        Some((key, value))
    }

    /// The key and the value, as bytes.
    pub fn into_raw_key_value(self) -> (r: (Vec<u8>, Vec<u8>))
        ensures
            r.0@ == self.key@,
            r.1@ == self.value@,
    {
        (self.key, self.value)
    }
}

/// A request to store a value under a key.
#[derive(Debug)]
pub struct PutRequest {
    pub key: Vec<u8>,
    pub value: Vec<u8>,
    pub lease: LeaseId,
    pub prev_kv: bool,
    pub ignore_value: bool,
    pub ignore_lease: bool,
}

impl PutRequest {
    /// Creates a request that stores `value` under `key`, with no lease and
    /// no option set.
    pub fn new(key: Vec<u8>, value: Vec<u8>) -> (r: Self)
        ensures
            r.key@ == key@,
            r.value@ == value@,
            r.lease == 0,
            !r.prev_kv,
            !r.ignore_value,
            !r.ignore_lease,
    {
        PutRequest { key, value, lease: 0, prev_kv: false, ignore_value: false, ignore_lease: false }
    }

    /// True when `b` is `a` but for the lease and the three flags.
    pub open spec fn same_pair(a: PutRequest, b: PutRequest) -> bool {
        b.key@ == a.key@ && b.value@ == a.value@
    }

    /// Sets the lease to attach to the key; 0 for none.
    pub fn set_lease(&mut self, lease: i64)
        ensures
            final(self).lease == lease,
            PutRequest::same_pair(*old(self), *final(self)),
            final(self).prev_kv == old(self).prev_kv,
            final(self).ignore_value == old(self).ignore_value,
            final(self).ignore_lease == old(self).ignore_lease,
    {
        self.lease = lease;
    }

    /// Sets whether the response carries the pair as it was before the put.
    pub fn set_prev_kv(&mut self, prev_kv: bool)
        ensures
            final(self).prev_kv == prev_kv,
            PutRequest::same_pair(*old(self), *final(self)),
            final(self).lease == old(self).lease,
            final(self).ignore_value == old(self).ignore_value,
            final(self).ignore_lease == old(self).ignore_lease,
    {
        self.prev_kv = prev_kv;
    }

    /// Sets whether the put keeps the current value.
    pub fn set_ignore_value(&mut self, ignore_value: bool)
        ensures
            final(self).ignore_value == ignore_value,
            PutRequest::same_pair(*old(self), *final(self)),
            final(self).lease == old(self).lease,
            final(self).prev_kv == old(self).prev_kv,
            final(self).ignore_lease == old(self).ignore_lease,
    {
        self.ignore_value = ignore_value;
    }

    /// Sets whether the put keeps the current lease.
    pub fn set_ignore_lease(&mut self, ignore_lease: bool)
        ensures
            final(self).ignore_lease == ignore_lease,
            PutRequest::same_pair(*old(self), *final(self)),
            final(self).lease == old(self).lease,
            final(self).prev_kv == old(self).prev_kv,
            final(self).ignore_value == old(self).ignore_value,
    {
        self.ignore_lease = ignore_lease;
    }

    /// The request with the lease `lease` attached; 0 for none.
    pub fn lease(self, lease: LeaseId) -> (r: Self)
        ensures
            r.lease == lease,
            PutRequest::same_pair(self, r),
            r.prev_kv == self.prev_kv,
            r.ignore_value == self.ignore_value,
            r.ignore_lease == self.ignore_lease,
    {
        let mut r = self;
        r.lease = lease;
        r
    }

    /// The request, asking or not for the pair as it was before the put.
    pub fn prev_kv(self, prev_kv: bool) -> (r: Self)
        ensures
            r.prev_kv == prev_kv,
            PutRequest::same_pair(self, r),
            r.lease == self.lease,
            r.ignore_value == self.ignore_value,
            r.ignore_lease == self.ignore_lease,
    {
        let mut r = self;
        r.prev_kv = prev_kv;
        r
    }

    /// The request, updating the key without changing its value.
    pub fn ignore_value(self) -> (r: Self)
        ensures
            r.ignore_value,
            PutRequest::same_pair(self, r),
            r.lease == self.lease,
            r.prev_kv == self.prev_kv,
            r.ignore_lease == self.ignore_lease,
    {
        let mut r = self;
        r.ignore_value = true;
        r
    }

    /// The request, updating the key without changing its lease.
    pub fn ignore_lease(self) -> (r: Self)
        ensures
            r.ignore_lease,
            PutRequest::same_pair(self, r),
            r.lease == self.lease,
            r.prev_kv == self.prev_kv,
            r.ignore_value == self.ignore_value,
    {
        let mut r = self;
        r.ignore_lease = true;
        r
    }
}

/// The answer to a put.
#[derive(Debug, Clone)]
pub struct PutResponse {
    pub header: ResponseHeader,
    pub prev_kv: Option<KeyValue>,
}

/// The order of the keys in a range response.
#[derive(Debug, Clone, Copy, PartialEq, Eq, Structural)]
pub enum SortOrder {
    Ascending,
    Descending,
}

/// The protocol's code for no sort order.
pub const SORT_NONE: i32 = 0;
/// The protocol's code for ascending order.
pub const SORT_ASCEND: i32 = 1;
/// The protocol's code for descending order.
pub const SORT_DESCEND: i32 = 2;
/// The protocol's code for sorting by key.
pub const TARGET_KEY: i32 = 0;
/// The protocol's code for sorting by version.
pub const TARGET_VERSION: i32 = 1;
/// The protocol's code for sorting by create revision.
pub const TARGET_CREATE: i32 = 2;
/// The protocol's code for sorting by mod revision.
pub const TARGET_MOD: i32 = 3;
/// The protocol's code for sorting by value.
pub const TARGET_VALUE: i32 = 4;

impl SortOrder {
    /// The protocol's code of the order.
    pub open spec fn spec_code(self) -> i32 {
        match self {
            SortOrder::Ascending => SORT_ASCEND,
            SortOrder::Descending => SORT_DESCEND,
        }
    }

    /// The protocol's code of the order.
    pub fn code(&self) -> (r: i32)
        ensures
            r == self.spec_code(),
    {
        match self {
            SortOrder::Ascending => SORT_ASCEND,
            SortOrder::Descending => SORT_DESCEND,
        }
    }
}

/// A request for the keys of a range, with their values.
#[derive(Debug)]
pub struct RangeRequest {
    pub key: Vec<u8>,
    pub range_end: Vec<u8>,
    pub limit: i64,
    pub revision: i64,
    pub sort_order: i32,
    pub sort_target: i32,
    pub serializable: bool,
    pub keys_only: bool,
    pub count_only: bool,
    pub min_mod_revision: i64,
    pub max_mod_revision: i64,
    pub min_create_revision: i64,
    pub max_create_revision: i64,
}

impl RangeRequest {
    /// True when `r` asks for the keys in `[key, range_end)` with every other
    /// field at its default.
    pub open spec fn is_plain(r: RangeRequest, key: Seq<u8>, range_end: Seq<u8>) -> bool {
        &&& r.key@ == key
        &&& r.range_end@ == range_end
        &&& r.limit == 0
        &&& r.revision == 0
        &&& r.sort_order == SORT_NONE
        &&& r.sort_target == TARGET_KEY
        &&& !r.serializable
        &&& !r.keys_only
        &&& !r.count_only
        &&& r.min_mod_revision == 0
        &&& r.max_mod_revision == 0
        &&& r.min_create_revision == 0
        &&& r.max_create_revision == 0
    }

    /// True when `b` is `a` but for the limit, the revision and the sort.
    pub open spec fn same_filters(a: RangeRequest, b: RangeRequest) -> bool {
        &&& b.key@ == a.key@
        &&& b.range_end@ == a.range_end@
        &&& b.serializable == a.serializable
        &&& b.keys_only == a.keys_only
        &&& b.count_only == a.count_only
        &&& b.min_mod_revision == a.min_mod_revision
        &&& b.max_mod_revision == a.max_mod_revision
        &&& b.min_create_revision == a.min_create_revision
        &&& b.max_create_revision == a.max_create_revision
    }

    /// Creates a request for the keys of `key_range`.
    pub fn new(key_range: KeyRange) -> (r: Self)
        ensures
            RangeRequest::is_plain(r, key_range.key@, key_range.range_end@),
    {
        RangeRequest {
            key: key_range.key,
            range_end: key_range.range_end,
            limit: 0,
            revision: 0,
            sort_order: SORT_NONE,
            sort_target: TARGET_KEY,
            serializable: false,
            keys_only: false,
            count_only: false,
            min_mod_revision: 0,
            max_mod_revision: 0,
            min_create_revision: 0,
            max_create_revision: 0,
        }
    }

    /// Creates a request for every key.
    pub fn all() -> (r: Self)
        ensures
            RangeRequest::is_plain(r, KeyRange::spec_all_key(), crate::key_range::open_end()),
    {
        RangeRequest::new(KeyRange::all())
    }

    /// Creates a request for the single key `key`.
    pub fn get(key: Vec<u8>) -> (r: Self)
        ensures
            RangeRequest::is_plain(r, key@, Seq::empty()),
    {
        RangeRequest::new(KeyRange::key(key))
    }

    /// Creates a request for the keys that start with `prefix`.
    pub fn prefix(prefix: Vec<u8>) -> (r: Self)
        ensures
            RangeRequest::is_plain(
                r,
                KeyRange::spec_prefix_key(prefix@),
                KeyRange::spec_prefix_end(prefix@),
            ),
    {
        RangeRequest::new(KeyRange::prefix(prefix))
    }

    /// Creates a request for the keys in `[key, range_end)`.
    pub fn range(key: Vec<u8>, range_end: Vec<u8>) -> (r: Self)
        ensures
            RangeRequest::is_plain(r, key@, range_end@),
    {
        RangeRequest::new(KeyRange::range(key, range_end))
    }

    /// Sets the largest number of keys to return; 0 for no limit.
    pub fn set_limit(&mut self, limit: usize)
        requires
            limit <= i64::MAX,
        ensures
            final(self).limit == limit,
            RangeRequest::same_filters(*old(self), *final(self)),
            final(self).revision == old(self).revision,
            final(self).sort_order == old(self).sort_order,
            final(self).sort_target == old(self).sort_target,
    {
        self.limit = limit as i64;
    }

    /// The request with at most `limit` keys returned; 0 for no limit.
    pub fn limit(self, limit: u64) -> (r: Self)
        requires
            limit <= i64::MAX,
        ensures
            r.limit == limit,
            RangeRequest::same_filters(self, r),
            r.revision == self.revision,
            r.sort_order == self.sort_order,
            r.sort_target == self.sort_target,
    {
        let mut r = self;
        r.limit = limit as i64;
        r
    }

    /// The request, read at revision `revision`; 0 or less for the newest.
    pub fn revision(self, revision: i64) -> (r: Self)
        ensures
            r.revision == revision,
            RangeRequest::same_filters(self, r),
            r.limit == self.limit,
            r.sort_order == self.sort_order,
            r.sort_target == self.sort_target,
    {
        let mut r = self;
        r.revision = revision;
        r
    }

    /// The request, sorted by key in the order `order`.
    pub fn sort_by_key(self, order: SortOrder) -> (r: Self)
        ensures
            r.sort_target == TARGET_KEY,
            r.sort_order == order.spec_code(),
            RangeRequest::same_filters(self, r),
            r.limit == self.limit,
            r.revision == self.revision,
    {
        let mut r = self;
        r.sort_target = TARGET_KEY;
        r.sort_order = order.code();
        r
    }

    /// The request, sorted by version in the order `order`.
    pub fn sort_by_version(self, order: SortOrder) -> (r: Self)
        ensures
            r.sort_target == TARGET_VERSION,
            r.sort_order == order.spec_code(),
            RangeRequest::same_filters(self, r),
            r.limit == self.limit,
            r.revision == self.revision,
    {
        let mut r = self;
        r.sort_target = TARGET_VERSION;
        r.sort_order = order.code();
        r
    }
}

/// The answer to a range request.
#[derive(Debug, Clone)]
pub struct RangeResponse {
    pub header: ResponseHeader,
    pub kvs: Vec<KeyValue>,
    pub has_more: bool,
    pub count: u64,
}

impl RangeResponse {
    /// Moves the pairs out, leaving none.
    pub fn take_kvs(&mut self) -> (r: Vec<KeyValue>)
        ensures
            r@ == old(self).kvs@,
            final(self).kvs@ == Seq::<KeyValue>::empty(),
            final(self).header == old(self).header,
            final(self).has_more == old(self).has_more,
            final(self).count == old(self).count,
    {
        let mut kvs: Vec<KeyValue> = Vec::new();
        std::mem::swap(&mut kvs, &mut self.kvs);
        kvs
    }

    /// True when the range holds more keys than were returned.
    pub fn has_more(&self) -> (r: bool)
        ensures
            r == self.has_more,
    {
        self.has_more
    }

    /// The number of keys in the range.
    pub fn count(&self) -> (r: u64)
        ensures
            r == self.count,
    {
        self.count
    }
}

/// A request to delete the keys of a range.
#[derive(Debug)]
pub struct DeleteRequest {
    pub key: Vec<u8>,
    pub range_end: Vec<u8>,
    pub prev_kv: bool,
}

impl DeleteRequest {
    /// Creates a request that deletes the keys of `key_range`.
    pub fn new(key_range: KeyRange) -> (r: Self)
        ensures
            r.key@ == key_range.key@,
            r.range_end@ == key_range.range_end@,
            !r.prev_kv,
    {
        DeleteRequest { key: key_range.key, range_end: key_range.range_end, prev_kv: false }
    }

    /// The request, asking or not for the deleted pairs.
    pub fn prev_kv(self, prev_kv: bool) -> (r: Self)
        ensures
            r.key@ == self.key@,
            r.range_end@ == self.range_end@,
            r.prev_kv == prev_kv,
    {
        let mut r = self;
        r.prev_kv = prev_kv;
        r
    }
}

/// The answer to a delete.
#[derive(Debug, Clone)]
pub struct DeleteResponse {
    pub header: ResponseHeader,
    pub deleted: u64,
    pub prev_kvs: Vec<KeyValue>,
}

/// A request to compact the store's history up to a revision.
#[derive(Debug, Clone, Copy)]
pub struct CompactRequest {
    pub revision: i64,
    pub physical: bool,
}

impl CompactRequest {
    /// Creates a request that compacts the history before `revision`.
    pub fn new(revision: i64) -> (r: Self)
        ensures
            r.revision == revision,
            !r.physical,
    {
        CompactRequest { revision, physical: false }
    }

    /// The request, answered only once the compaction is applied to the
    /// storage.
    pub fn physical(self) -> (r: Self)
        ensures
            r.revision == self.revision,
            r.physical,
    {
        CompactRequest { revision: self.revision, physical: true }
    }
}

/// The answer to a compaction.
#[derive(Debug, Clone, Copy)]
pub struct CompactResponse {
    pub header: ResponseHeader,
}

} // verus!
