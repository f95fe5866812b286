use etcd_rs::{
    CompactRequest, DeleteRequest, GetRequest, KeyRange, KeyValue, LeaseGrantRequest,
    LeaseTimeToLiveRequest, LockResponse, Member, MemberListRequest, MemberListResponse,
    PutRequest, RangeRequest, RangeResponse, ResponseHeader, SortOrder, TtlRequest, TtlResponse,
    TxnCmp, TxnOp, TxnRequest,
};
use etcd_rs::txn::CompareTarget;

fn header() -> ResponseHeader {
    ResponseHeader { cluster_id: 10, member_id: 20, revision: 30, raft_term: 40 }
}

fn kv(key: Vec<u8>, value: Vec<u8>, lease: i64) -> KeyValue {
    KeyValue { key, value, create_revision: 2, mod_revision: 5, version: 3, lease }
}

#[test]
fn header_getters() {
    let h = header();
    assert_eq!(h.cluster_id(), 10);
    assert_eq!(h.member_id(), 20);
    assert_eq!(h.revision(), 30);
    assert_eq!(h.raft_term(), 40);
}

#[test]
fn key_value_text_and_bytes() {
    let mut p = kv(b"foo".to_vec(), b"bar".to_vec(), 0);
    assert_eq!(p.key(), b"foo");
    assert_eq!(p.key_str(), Some("foo".to_string()));
    assert_eq!(p.value_str(), Some("bar".to_string()));
    assert!(!p.has_lease());
    assert_eq!(p.create_revision(), 2);
    assert_eq!(p.mod_revision(), 5);
    assert_eq!(p.version(), 3);
    assert_eq!(p.take_key(), b"foo".to_vec());
    assert!(p.key.is_empty());
    assert_eq!(p.take_value(), b"bar".to_vec());
    assert!(p.value.is_empty());

    let bad = kv(vec![0xff, 0xfe], b"ok".to_vec(), 7);
    assert!(bad.has_lease());
    assert_eq!(bad.lease(), 7);
    assert_eq!(bad.key_str(), None);
    assert_eq!(bad.raw_key(), &[0xff, 0xfe]);
    assert_eq!(bad.clone().into_key(), None);
    assert_eq!(bad.clone().into_value(), Some("ok".to_string()));
    assert_eq!(bad.clone().into_key_value(), None);
    assert_eq!(bad.into_raw_key_value(), (vec![0xff, 0xfe], b"ok".to_vec()));

    let good = kv("clé".as_bytes().to_vec(), b"v".to_vec(), 0);
    assert_eq!(good.into_key_value(), Some(("clé".to_string(), "v".to_string())));
}

#[test]
fn put_request_options() {
    let r = PutRequest::new(b"k".to_vec(), b"v".to_vec());
    assert_eq!((r.lease, r.prev_kv, r.ignore_value, r.ignore_lease), (0, false, false, false));
    let r = r.lease(99).prev_kv(true).ignore_value().ignore_lease();
    assert_eq!(r.key, b"k".to_vec());
    assert_eq!(r.value, b"v".to_vec());
    assert_eq!((r.lease, r.prev_kv, r.ignore_value, r.ignore_lease), (99, true, true, true));
    let mut m = PutRequest::new(b"k".to_vec(), b"v".to_vec());
    m.set_lease(5);
    m.set_prev_kv(true);
    m.set_ignore_value(true);
    m.set_ignore_lease(false);
    assert_eq!((m.lease, m.prev_kv, m.ignore_value, m.ignore_lease), (5, true, true, false));
}

#[test]
fn range_request_builders() {
    let r = RangeRequest::prefix(b"foo".to_vec());
    assert_eq!(r.key, b"foo".to_vec());
    assert_eq!(r.range_end, b"fop".to_vec());
    let r = r.limit(10).revision(4).sort_by_version(SortOrder::Descending);
    assert_eq!((r.limit, r.revision, r.sort_target, r.sort_order), (10, 4, 1, 2));
    let r = r.sort_by_key(SortOrder::Ascending);
    assert_eq!((r.sort_target, r.sort_order), (0, 1));
    let mut a = RangeRequest::all();
    assert_eq!((a.key.clone(), a.range_end.clone()), (vec![0], vec![0]));
    a.set_limit(3);
    assert_eq!(a.limit, 3);
    let g = RangeRequest::get(b"x".to_vec());
    assert!(g.range_end.is_empty());
    let rr = RangeRequest::range(b"a".to_vec(), b"b".to_vec());
    assert_eq!(rr.range_end, b"b".to_vec());
}

#[test]
fn range_response_take_kvs() {
    let mut resp = RangeResponse {
        header: header(),
        kvs: vec![kv(b"a".to_vec(), b"1".to_vec(), 0)],
        has_more: true,
        count: 4,
    };
    assert!(resp.has_more());
    assert_eq!(resp.count(), 4);
    let kvs = resp.take_kvs();
    assert_eq!(kvs.len(), 1);
    assert!(resp.kvs.is_empty());
}

#[test]
fn get_request_to_range_request() {
    let g = GetRequest::prefix(b"ab".to_vec())
        .with_limit(7)
        .with_revision(8)
        .with_order_descend()
        .with_sort_mod_revision()
        .with_serializable()
        .with_keys_only()
        .with_count_only()
        .with_min_mod_revision(1)
        .with_max_mod_revision(2)
        .with_min_create_revision(3)
        .with_max_create_revision(4);
    let r = g.into_range_request();
    assert_eq!(r.key, b"ab".to_vec());
    assert_eq!(r.range_end, b"ac".to_vec());
    assert_eq!((r.limit, r.revision, r.sort_order, r.sort_target), (7, 8, 2, 3));
    assert!(r.serializable && r.keys_only && r.count_only);
    assert_eq!(
        (r.min_mod_revision, r.max_mod_revision, r.min_create_revision, r.max_create_revision),
        (1, 2, 3, 4)
    );
    let single = GetRequest::key(b"k".to_vec()).with_order_ascend().with_sort_value();
    assert_eq!((single.sort_order, single.sort_target), (1, 4));
    let r = single.into_range_request();
    assert!(r.range_end.is_empty());
    let ranged = GetRequest::range(b"a".to_vec(), b"z".to_vec())
        .with_sort_key()
        .with_sort_version()
        .with_sort_create_revision();
    assert_eq!(ranged.sort_target, 2);
    assert_eq!(ranged.into_range_request().range_end, b"z".to_vec());
}

#[test]
fn delete_and_compact() {
    let d = DeleteRequest::new(KeyRange::prefix(b"x".to_vec())).prev_kv(true);
    assert_eq!(d.range_end, b"y".to_vec());
    assert!(d.prev_kv);
    let c = CompactRequest::new(42).physical();
    assert_eq!(c.revision, 42);
    assert!(c.physical);
}

#[test]
fn transaction_builder() {
    let t = TxnRequest::new()
        .when_version(KeyRange::key(b"a".to_vec()), TxnCmp::Equal, 1)
        .when_create_revision(KeyRange::key(b"b".to_vec()), TxnCmp::Greater, 2)
        .when_mod_revision(KeyRange::key(b"c".to_vec()), TxnCmp::Less, 3)
        .when_value(KeyRange::key(b"d".to_vec()), TxnCmp::NotEqual, b"v".to_vec())
        .and_then(TxnOp::Put(PutRequest::new(b"a".to_vec(), b"1".to_vec())))
        .or_else(TxnOp::Range(RangeRequest::get(b"a".to_vec())));
    assert_eq!(t.compare.len(), 4);
    let results: Vec<i32> = t.compare.iter().map(|c| c.result).collect();
    assert_eq!(results, vec![0, 1, 2, 3]);
    assert_eq!(t.compare[0].target, CompareTarget::Version(1));
    assert_eq!(t.compare[3].target, CompareTarget::Value(b"v".to_vec()));
    assert_eq!(t.compare[2].key, b"c".to_vec());
    assert_eq!(t.success.len(), 1);
    assert_eq!(t.failure.len(), 1);
    let d = TxnRequest::default();
    assert!(d.compare.is_empty() && d.success.is_empty() && d.failure.is_empty());
}

#[test]
fn lease_requests() {
    let g = LeaseGrantRequest::new(10).with_id(77);
    assert_eq!((g.ttl, g.id), (10, 77));
    let t = LeaseTimeToLiveRequest::new(3).with_id(4).with_keys(true);
    assert_eq!((t.id, t.keys), (4, true));
    let q = TtlRequest::new(5).with_keys().into_request();
    assert_eq!((q.id, q.keys), (5, true));
}

#[test]
fn ttl_response_keys() {
    let r = TtlResponse {
        header: header(),
        id: 1,
        ttl: 2,
        granted_ttl: 3,
        keys: vec![b"a".to_vec(), b"b".to_vec()],
    };
    assert_eq!((r.id(), r.ttl(), r.granted_ttl()), (1, 2, 3));
    assert_eq!(r.header().revision, 30);
    assert_eq!(r.keys(), Some(vec!["a".to_string(), "b".to_string()]));
    assert_eq!(r.raw_keys().len(), 2);
    let bad = TtlResponse { keys: vec![b"a".to_vec(), vec![0xc3]], ..r };
    assert_eq!(bad.keys(), None);
}

#[test]
fn lock_response_key() {
    let r = LockResponse { header: header(), key: b"lock/1".to_vec() };
    assert_eq!(r.key(), Some("lock/1".to_string()));
    assert_eq!(r.raw_key(), b"lock/1");
    assert_eq!(r.clone().into_raw_key(), b"lock/1".to_vec());
    assert_eq!(r.into_key(), Some("lock/1".to_string()));
}

#[test]
fn member_ids_in_order() {
    let m = |id: u64| Member {
        id,
        name: format!("m{}", id),
        peer_urls: vec![],
        client_urls: vec![],
        is_learner: false,
    };
    let r = MemberListResponse { header: header(), members: vec![m(3), m(1), m(2)] };
    assert_eq!(r.member_ids(), vec![3, 1, 2]);
    assert!(MemberListRequest::new().linearizable);
    assert!(MemberListRequest::default().linearizable);
}
