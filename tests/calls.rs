use etcd_rs::{AuthClient, AuthenticateRequest, MaintenanceClient};
use etcd_rs::{
    CallOption, Channel, ClusterClient, GetRequest, KvClient, LeaseClient, LeaseKeepAliveRequest,
    LockClient, LockRequest, Method, MethodType, PutRequest, TtlRequest, WatchClient,
};

fn channel() -> Channel {
    Channel::new("http://127.0.0.1:2379".to_string())
}

#[test]
fn kv_calls_pick_their_methods() {
    let c = KvClient::new(channel());
    let call = c.put(PutRequest::new(b"k".to_vec(), b"v".to_vec()));
    assert_eq!(call.method, Method::KvPut);
    assert_eq!(call.method.path(), "/etcdserverpb.KV/Put");
    assert!(!call.asynchronous);
    assert_eq!(call.options, CallOption::default());
    let opt = CallOption::default().timeout_ms(500).wait_for_ready(true);
    let call = c.put_async_opt(PutRequest::new(b"k".to_vec(), b"v".to_vec()), opt);
    assert!(call.asynchronous);
    assert_eq!(call.options.timeout_ms, Some(500));
    assert!(call.options.wait_for_ready);
}

#[test]
fn get_goes_through_range() {
    let c = KvClient::new(channel());
    let call = c.get(GetRequest::prefix(b"foo".to_vec()).with_limit(2));
    assert_eq!(call.method, Method::KvRange);
    assert_eq!(call.method.path(), "/etcdserverpb.KV/Range");
    assert!(call.asynchronous);
    assert_eq!(call.request.range_end, b"fop".to_vec());
    assert_eq!(call.request.limit, 2);
}

#[test]
fn streaming_calls() {
    let w = WatchClient::new(channel()).watch();
    assert_eq!(w.method, Method::Watch);
    assert_eq!(w.method.method_type(), MethodType::Duplex);
    let l = LeaseClient::new(channel());
    let (call, first) = l.keep_alive(LeaseKeepAliveRequest::new(9));
    assert_eq!(call.method.path(), "/etcdserverpb.Lease/LeaseKeepAlive");
    assert_eq!(first.id, 9);
    let t = l.ttl(TtlRequest::new(9).with_keys());
    assert_eq!(t.method, Method::LeaseTimeToLive);
    assert!(t.request.keys);
    assert_eq!(Method::KvRange.method_type(), MethodType::Unary);
}

#[test]
fn cluster_and_lock_calls() {
    let c = ClusterClient::new(channel());
    let call = c.member_list(etcd_rs::MemberListRequest::new());
    assert_eq!(call.method.path(), "/etcdserverpb.Cluster/MemberList");
    let l = LockClient::new(channel());
    let call = l.lock_async(LockRequest::new(b"n".to_vec(), 3));
    assert_eq!(call.method.path(), "/v3lockpb.Lock/Lock");
    assert_eq!(call.request.lease, 3);
}

#[test]
fn whole_range_reads_and_deletes() {
    let c = KvClient::new(channel());
    let all = c.get_all();
    assert_eq!((all.request.key.clone(), all.request.range_end.clone()), (vec![0], vec![0]));
    let p = c.get_by_prefix(b"foo".to_vec());
    assert_eq!(p.request.range_end, b"fop".to_vec());
    let r = c.get_range(b"a".to_vec(), b"c".to_vec());
    assert_eq!(r.request.range_end, b"c".to_vec());
    let d = c.delete_all();
    assert_eq!(d.method, Method::KvDeleteRange);
    assert_eq!(d.request.range_end, vec![0]);
    let d = c.delete_by_prefix(vec![0x7a, 0xff]);
    assert_eq!(d.request.range_end, vec![0x7b]);
    assert!(d.asynchronous);
}

#[test]
fn maintenance_and_auth_calls() {
    let m = MaintenanceClient::new(channel());
    let call = m.hash_kv_async(7u64);
    assert_eq!(call.method.path(), "/etcdserverpb.Maintenance/HashKV");
    assert!(call.asynchronous);
    assert_eq!(call.request, 7);
    let snap = m.snapshot(());
    assert_eq!(snap.method.method_type(), MethodType::ServerStreaming);
    assert_eq!(snap.method.path(), "/etcdserverpb.Maintenance/Snapshot");
    let a = AuthClient::new(channel());
    let call = a.authenticate(AuthenticateRequest::new("u".to_string(), "p".to_string()));
    assert_eq!(call.method.path(), "/etcdserverpb.Auth/Authenticate");
    assert_eq!(call.request.name, "u");
    let call = a.role_revoke_permission_opt("r", CallOption::default().timeout_ms(9));
    assert_eq!(call.method.path(), "/etcdserverpb.Auth/RoleRevokePermission");
    assert_eq!(call.options.timeout_ms, Some(9));
}
