//! The calls of the store's RPC surface, described as values: which method,
//! with which request and which options. The clients pick the method for
//! each operation; a transport performs the call.
use vstd::prelude::*;

use crate::cluster::{
    MemberAddRequest, MemberListRequest, MemberRemoveRequest, MemberUpdateRequest,
};
use crate::auth::AuthenticateRequest;
use crate::get::GetRequest;
use crate::key_range::{open_end, KeyRange};
use crate::kv::{CompactRequest, DeleteRequest, PutRequest, RangeRequest};
use crate::lease::{
    LeaseGrantRequest, LeaseKeepAliveRequest, LeaseRevokeRequest, LeaseTimeToLiveRequest,
    TtlRequest,
};
use crate::lock::{LockRequest, UnlockRequest};
use crate::txn::TxnRequest;

verus! {

/// How a method exchanges messages.
#[derive(Debug, Clone, Copy, PartialEq, Eq, Structural)]
pub enum MethodType {
    /// One request, one response.
    Unary,
    /// One request, a stream of responses.
    ServerStreaming,
    /// Two independent streams of messages.
    Duplex,
}

/// A method of the store's RPC surface.
#[derive(Debug, Clone, Copy, PartialEq, Eq, Structural)]
pub enum Method {
    KvRange,
    KvPut,
    KvDeleteRange,
    KvTxn,
    KvCompact,
    LeaseGrant,
    LeaseRevoke,
    LeaseTimeToLive,
    MemberAdd,
    MemberRemove,
    MemberUpdate,
    MemberList,
    Lock,
    Unlock,
    Alarm,
    Status,
    Defragment,
    Hash,
    HashKv,
    MoveLeader,
    AuthEnable,
    AuthDisable,
    Authenticate,
    UserAdd,
    UserGet,
    UserList,
    UserDelete,
    UserChangePassword,
    UserGrantRole,
    UserRevokeRole,
    RoleAdd,
    RoleGet,
    RoleList,
    RoleDelete,
    RoleGrantPermission,
    RoleRevokePermission,
    Watch,
    LeaseKeepAlive,
    Snapshot,
}

impl Method {
    /// The path of the method on the wire.
    pub open spec fn spec_path(self) -> &'static str {
        match self {
            Method::KvRange => "/etcdserverpb.KV/Range",
            Method::KvPut => "/etcdserverpb.KV/Put",
            Method::KvDeleteRange => "/etcdserverpb.KV/DeleteRange",
            Method::KvTxn => "/etcdserverpb.KV/Txn",
            Method::KvCompact => "/etcdserverpb.KV/Compact",
            Method::LeaseGrant => "/etcdserverpb.Lease/LeaseGrant",
            Method::LeaseRevoke => "/etcdserverpb.Lease/LeaseRevoke",
            Method::LeaseTimeToLive => "/etcdserverpb.Lease/LeaseTimeToLive",
            Method::MemberAdd => "/etcdserverpb.Cluster/MemberAdd",
            Method::MemberRemove => "/etcdserverpb.Cluster/MemberRemove",
            Method::MemberUpdate => "/etcdserverpb.Cluster/MemberUpdate",
            Method::MemberList => "/etcdserverpb.Cluster/MemberList",
            Method::Lock => "/v3lockpb.Lock/Lock",
            Method::Unlock => "/v3lockpb.Lock/Unlock",
            Method::Alarm => "/etcdserverpb.Maintenance/Alarm",
            Method::Status => "/etcdserverpb.Maintenance/Status",
            Method::Defragment => "/etcdserverpb.Maintenance/Defragment",
            Method::Hash => "/etcdserverpb.Maintenance/Hash",
            Method::HashKv => "/etcdserverpb.Maintenance/HashKV",
            Method::MoveLeader => "/etcdserverpb.Maintenance/MoveLeader",
            Method::AuthEnable => "/etcdserverpb.Auth/AuthEnable",
            Method::AuthDisable => "/etcdserverpb.Auth/AuthDisable",
            Method::Authenticate => "/etcdserverpb.Auth/Authenticate",
            Method::UserAdd => "/etcdserverpb.Auth/UserAdd",
            Method::UserGet => "/etcdserverpb.Auth/UserGet",
            Method::UserList => "/etcdserverpb.Auth/UserList",
            Method::UserDelete => "/etcdserverpb.Auth/UserDelete",
            Method::UserChangePassword => "/etcdserverpb.Auth/UserChangePassword",
            Method::UserGrantRole => "/etcdserverpb.Auth/UserGrantRole",
            Method::UserRevokeRole => "/etcdserverpb.Auth/UserRevokeRole",
            Method::RoleAdd => "/etcdserverpb.Auth/RoleAdd",
            Method::RoleGet => "/etcdserverpb.Auth/RoleGet",
            Method::RoleList => "/etcdserverpb.Auth/RoleList",
            Method::RoleDelete => "/etcdserverpb.Auth/RoleDelete",
            Method::RoleGrantPermission => "/etcdserverpb.Auth/RoleGrantPermission",
            Method::RoleRevokePermission => "/etcdserverpb.Auth/RoleRevokePermission",
            Method::Watch => "/etcdserverpb.Watch/Watch",
            Method::LeaseKeepAlive => "/etcdserverpb.Lease/LeaseKeepAlive",
            Method::Snapshot => "/etcdserverpb.Maintenance/Snapshot",
        }
    }

    /// The path of the method on the wire.
    pub fn path(&self) -> (r: &'static str)
        ensures
            r == self.spec_path(),
    {
        match self {
            Method::KvRange => "/etcdserverpb.KV/Range",
            Method::KvPut => "/etcdserverpb.KV/Put",
            Method::KvDeleteRange => "/etcdserverpb.KV/DeleteRange",
            Method::KvTxn => "/etcdserverpb.KV/Txn",
            Method::KvCompact => "/etcdserverpb.KV/Compact",
            Method::LeaseGrant => "/etcdserverpb.Lease/LeaseGrant",
            Method::LeaseRevoke => "/etcdserverpb.Lease/LeaseRevoke",
            Method::LeaseTimeToLive => "/etcdserverpb.Lease/LeaseTimeToLive",
            Method::MemberAdd => "/etcdserverpb.Cluster/MemberAdd",
            Method::MemberRemove => "/etcdserverpb.Cluster/MemberRemove",
            Method::MemberUpdate => "/etcdserverpb.Cluster/MemberUpdate",
            Method::MemberList => "/etcdserverpb.Cluster/MemberList",
            Method::Lock => "/v3lockpb.Lock/Lock",
            Method::Unlock => "/v3lockpb.Lock/Unlock",
            Method::Alarm => "/etcdserverpb.Maintenance/Alarm",
            Method::Status => "/etcdserverpb.Maintenance/Status",
            Method::Defragment => "/etcdserverpb.Maintenance/Defragment",
            Method::Hash => "/etcdserverpb.Maintenance/Hash",
            Method::HashKv => "/etcdserverpb.Maintenance/HashKV",
            Method::MoveLeader => "/etcdserverpb.Maintenance/MoveLeader",
            Method::AuthEnable => "/etcdserverpb.Auth/AuthEnable",
            Method::AuthDisable => "/etcdserverpb.Auth/AuthDisable",
            Method::Authenticate => "/etcdserverpb.Auth/Authenticate",
            Method::UserAdd => "/etcdserverpb.Auth/UserAdd",
            Method::UserGet => "/etcdserverpb.Auth/UserGet",
            Method::UserList => "/etcdserverpb.Auth/UserList",
            Method::UserDelete => "/etcdserverpb.Auth/UserDelete",
            Method::UserChangePassword => "/etcdserverpb.Auth/UserChangePassword",
            Method::UserGrantRole => "/etcdserverpb.Auth/UserGrantRole",
            Method::UserRevokeRole => "/etcdserverpb.Auth/UserRevokeRole",
            Method::RoleAdd => "/etcdserverpb.Auth/RoleAdd",
            Method::RoleGet => "/etcdserverpb.Auth/RoleGet",
            Method::RoleList => "/etcdserverpb.Auth/RoleList",
            Method::RoleDelete => "/etcdserverpb.Auth/RoleDelete",
            Method::RoleGrantPermission => "/etcdserverpb.Auth/RoleGrantPermission",
            Method::RoleRevokePermission => "/etcdserverpb.Auth/RoleRevokePermission",
            Method::Watch => "/etcdserverpb.Watch/Watch",
            Method::LeaseKeepAlive => "/etcdserverpb.Lease/LeaseKeepAlive",
            Method::Snapshot => "/etcdserverpb.Maintenance/Snapshot",
        }
    }

    /// How the method exchanges messages.
    pub open spec fn spec_method_type(self) -> MethodType {
        match self {
            Method::Watch => MethodType::Duplex,
            Method::LeaseKeepAlive => MethodType::Duplex,
            Method::Snapshot => MethodType::ServerStreaming,
            _ => MethodType::Unary,
        }
    }

    /// How the method exchanges messages.
    pub fn method_type(&self) -> (r: MethodType)
        ensures
            r == self.spec_method_type(),
    {
        match self {
            Method::Watch => MethodType::Duplex,
            Method::LeaseKeepAlive => MethodType::Duplex,
            Method::Snapshot => MethodType::ServerStreaming,
            _ => MethodType::Unary,
        }
    }
}

/// The options of one call.
#[derive(Debug, Clone, Copy, PartialEq, Eq, Structural)]
pub struct CallOption {
    /// The time the call may take, in milliseconds; `None` for no limit.
    pub timeout_ms: Option<u64>,
    /// Whether the call waits for the channel to be ready instead of failing
    /// at once.
    pub wait_for_ready: bool,
}

impl CallOption {
    /// The options of a call that names none.
    pub open spec fn spec_default() -> CallOption {
        CallOption { timeout_ms: None, wait_for_ready: false }
    }

    /// The options, with the time limit `timeout_ms`.
    pub fn timeout_ms(self, timeout_ms: u64) -> (r: Self)
        ensures
            r == (CallOption { timeout_ms: Some(timeout_ms), ..self }),
    {
        CallOption { timeout_ms: Some(timeout_ms), wait_for_ready: self.wait_for_ready }
    }

    /// The options, waiting or not for the channel to be ready.
    pub fn wait_for_ready(self, wait_for_ready: bool) -> (r: Self)
        ensures
            r == (CallOption { wait_for_ready, ..self }),
    {
        CallOption { timeout_ms: self.timeout_ms, wait_for_ready }
    }
}

impl Default for CallOption {
    fn default() -> (r: Self)
        ensures
            r == CallOption::spec_default(),
    {
        CallOption { timeout_ms: None, wait_for_ready: false }
    }
}

/// Where the calls of a client go: the address of an endpoint.
#[derive(Debug, Clone)]
pub struct Channel {
    pub target: String,
}

impl Channel {
    /// Creates a channel to the endpoint `target`.
    pub fn new(target: String) -> (r: Self)
        ensures
            r == (Channel { target }),
    {
        Channel { target }
    }
}

/// A call with one request and one response. An asynchronous call hands
/// back a receiver of the response instead of waiting for it.
#[derive(Debug)]
pub struct UnaryCall<Req> {
    pub method: Method,
    pub request: Req,
    pub options: CallOption,
    pub asynchronous: bool,
}

/// A call that opens two streams, one of requests and one of responses.
#[derive(Debug, Clone, Copy, PartialEq, Eq, Structural)]
pub struct DuplexCall {
    pub method: Method,
    pub options: CallOption,
}

/// A call with one request and a stream of responses.
#[derive(Debug)]
pub struct ServerStreamingCall<Req> {
    pub method: Method,
    pub request: Req,
    pub options: CallOption,
}

/// The unary call of `method` with `request`, `options` and `asynchronous`.
pub open spec fn unary<Req>(method: Method, request: Req, options: CallOption, asynchronous: bool) -> UnaryCall<Req> {
    UnaryCall { method, request, options, asynchronous }
}

/// The client of the key-value methods.
#[derive(Debug, Clone)]
pub struct KvClient {
    pub channel: Channel,
}

impl KvClient {
    /// Creates a client whose calls go to `channel`.
    pub fn new(channel: Channel) -> (r: Self)
        ensures
            r == (KvClient { channel }),
    {
        KvClient { channel }
    }

    /// The call that reads a range of keys with the options `opt`.
    pub fn range_opt(&self, req: RangeRequest, opt: CallOption) -> (r: UnaryCall<RangeRequest>)
        ensures
            r == unary(Method::KvRange, req, opt, false),
    {
        UnaryCall { method: Method::KvRange, request: req, options: opt, asynchronous: false }
    }

    /// The call that reads a range of keys.
    pub fn range(&self, req: RangeRequest) -> (r: UnaryCall<RangeRequest>)
        ensures
            r == unary(Method::KvRange, req, CallOption::spec_default(), false),
    {
        self.range_opt(req, CallOption::default())
    }

    /// The asynchronous call that reads a range of keys with the options `opt`.
    pub fn range_async_opt(&self, req: RangeRequest, opt: CallOption) -> (r: UnaryCall<RangeRequest>)
        ensures
            r == unary(Method::KvRange, req, opt, true),
    {
        UnaryCall { method: Method::KvRange, request: req, options: opt, asynchronous: true }
    }

    /// The asynchronous call that reads a range of keys.
    pub fn range_async(&self, req: RangeRequest) -> (r: UnaryCall<RangeRequest>)
        ensures
            r == unary(Method::KvRange, req, CallOption::spec_default(), true),
    {
        self.range_async_opt(req, CallOption::default())
    }

    /// The call that stores a value under a key with the options `opt`.
    pub fn put_opt(&self, req: PutRequest, opt: CallOption) -> (r: UnaryCall<PutRequest>)
        ensures
            r == unary(Method::KvPut, req, opt, false),
    {
        UnaryCall { method: Method::KvPut, request: req, options: opt, asynchronous: false }
    }

    /// The call that stores a value under a key.
    pub fn put(&self, req: PutRequest) -> (r: UnaryCall<PutRequest>)
        ensures
            r == unary(Method::KvPut, req, CallOption::spec_default(), false),
    {
        self.put_opt(req, CallOption::default())
    }

    /// The asynchronous call that stores a value under a key with the options `opt`.
    pub fn put_async_opt(&self, req: PutRequest, opt: CallOption) -> (r: UnaryCall<PutRequest>)
        ensures
            r == unary(Method::KvPut, req, opt, true),
    {
        UnaryCall { method: Method::KvPut, request: req, options: opt, asynchronous: true }
    }

    /// The asynchronous call that stores a value under a key.
    pub fn put_async(&self, req: PutRequest) -> (r: UnaryCall<PutRequest>)
        ensures
            r == unary(Method::KvPut, req, CallOption::spec_default(), true),
    {
        self.put_async_opt(req, CallOption::default())
    }

    /// The call that deletes a range of keys with the options `opt`.
    pub fn delete_range_opt(&self, req: DeleteRequest, opt: CallOption) -> (r: UnaryCall<DeleteRequest>)
        ensures
            r == unary(Method::KvDeleteRange, req, opt, false),
    {
        UnaryCall { method: Method::KvDeleteRange, request: req, options: opt, asynchronous: false }
    }

    /// The call that deletes a range of keys.
    pub fn delete_range(&self, req: DeleteRequest) -> (r: UnaryCall<DeleteRequest>)
        ensures
            r == unary(Method::KvDeleteRange, req, CallOption::spec_default(), false),
    {
        self.delete_range_opt(req, CallOption::default())
    }

    /// The asynchronous call that deletes a range of keys with the options `opt`.
    pub fn delete_range_async_opt(&self, req: DeleteRequest, opt: CallOption) -> (r: UnaryCall<DeleteRequest>)
        ensures
            r == unary(Method::KvDeleteRange, req, opt, true),
    {
        UnaryCall { method: Method::KvDeleteRange, request: req, options: opt, asynchronous: true }
    }

    /// The asynchronous call that deletes a range of keys.
    pub fn delete_range_async(&self, req: DeleteRequest) -> (r: UnaryCall<DeleteRequest>)
        ensures
            r == unary(Method::KvDeleteRange, req, CallOption::spec_default(), true),
    {
        self.delete_range_async_opt(req, CallOption::default())
    }

    /// The call that runs a transaction with the options `opt`.
    pub fn txn_opt(&self, req: TxnRequest, opt: CallOption) -> (r: UnaryCall<TxnRequest>)
        ensures
            r == unary(Method::KvTxn, req, opt, false),
    {
        UnaryCall { method: Method::KvTxn, request: req, options: opt, asynchronous: false }
    }

    /// The call that runs a transaction.
    pub fn txn(&self, req: TxnRequest) -> (r: UnaryCall<TxnRequest>)
        ensures
            r == unary(Method::KvTxn, req, CallOption::spec_default(), false),
    {
        self.txn_opt(req, CallOption::default())
    }

    /// The asynchronous call that runs a transaction with the options `opt`.
    pub fn txn_async_opt(&self, req: TxnRequest, opt: CallOption) -> (r: UnaryCall<TxnRequest>)
        ensures
            r == unary(Method::KvTxn, req, opt, true),
    {
        UnaryCall { method: Method::KvTxn, request: req, options: opt, asynchronous: true }
    }

    /// The asynchronous call that runs a transaction.
    pub fn txn_async(&self, req: TxnRequest) -> (r: UnaryCall<TxnRequest>)
        ensures
            r == unary(Method::KvTxn, req, CallOption::spec_default(), true),
    {
        self.txn_async_opt(req, CallOption::default())
    }

    /// The call that compacts the history with the options `opt`.
    pub fn compact_opt(&self, req: CompactRequest, opt: CallOption) -> (r: UnaryCall<CompactRequest>)
        ensures
            r == unary(Method::KvCompact, req, opt, false),
    {
        UnaryCall { method: Method::KvCompact, request: req, options: opt, asynchronous: false }
    }

    /// The call that compacts the history.
    pub fn compact(&self, req: CompactRequest) -> (r: UnaryCall<CompactRequest>)
        ensures
            r == unary(Method::KvCompact, req, CallOption::spec_default(), false),
    {
        self.compact_opt(req, CallOption::default())
    }

    /// The asynchronous call that compacts the history with the options `opt`.
    pub fn compact_async_opt(&self, req: CompactRequest, opt: CallOption) -> (r: UnaryCall<CompactRequest>)
        ensures
            r == unary(Method::KvCompact, req, opt, true),
    {
        UnaryCall { method: Method::KvCompact, request: req, options: opt, asynchronous: true }
    }

    /// The asynchronous call that compacts the history.
    pub fn compact_async(&self, req: CompactRequest) -> (r: UnaryCall<CompactRequest>)
        ensures
            r == unary(Method::KvCompact, req, CallOption::spec_default(), true),
    {
        self.compact_async_opt(req, CallOption::default())
    }

    /// The asynchronous call that reads what `req` asks for.
    pub fn get(&self, req: GetRequest) -> (r: UnaryCall<RangeRequest>)
        ensures
            r.method == Method::KvRange,
            r.options == CallOption::spec_default(),
            r.asynchronous,
            GetRequest::spec_range_request(req, r.request),
    {
        self.range_async(req.into_range_request())
    }

    /// The asynchronous call that reads every key.
    pub fn get_all(&self) -> (r: UnaryCall<RangeRequest>)
        ensures
            r.method == Method::KvRange,
            r.options == CallOption::spec_default(),
            r.asynchronous,
            RangeRequest::is_plain(r.request, KeyRange::spec_all_key(), open_end()),
    {
        self.range_async(RangeRequest::all())
    }

    /// The asynchronous call that reads the keys that start with `prefix`.
    pub fn get_by_prefix(&self, prefix: Vec<u8>) -> (r: UnaryCall<RangeRequest>)
        ensures
            r.method == Method::KvRange,
            r.options == CallOption::spec_default(),
            r.asynchronous,
            RangeRequest::is_plain(
                r.request,
                KeyRange::spec_prefix_key(prefix@),
                KeyRange::spec_prefix_end(prefix@),
            ),
    {
        self.range_async(RangeRequest::prefix(prefix))
    }

    /// The asynchronous call that reads the keys in `[from, end)`.
    pub fn get_range(&self, from: Vec<u8>, end: Vec<u8>) -> (r: UnaryCall<RangeRequest>)
        ensures
            r.method == Method::KvRange,
            r.options == CallOption::spec_default(),
            r.asynchronous,
            RangeRequest::is_plain(r.request, from@, end@),
    {
        self.range_async(RangeRequest::range(from, end))
    }

    /// The asynchronous call that deletes every key.
    pub fn delete_all(&self) -> (r: UnaryCall<DeleteRequest>)
        ensures
            r.method == Method::KvDeleteRange,
            r.options == CallOption::spec_default(),
            r.asynchronous,
            r.request.key@ == KeyRange::spec_all_key(),
            r.request.range_end@ == open_end(),
            !r.request.prev_kv,
    {
        self.delete_range_async(DeleteRequest::new(KeyRange::all()))
    }

    /// The asynchronous call that deletes the keys that start with `prefix`.
    pub fn delete_by_prefix(&self, prefix: Vec<u8>) -> (r: UnaryCall<DeleteRequest>)
        ensures
            r.method == Method::KvDeleteRange,
            r.options == CallOption::spec_default(),
            r.asynchronous,
            r.request.key@ == KeyRange::spec_prefix_key(prefix@),
            r.request.range_end@ == KeyRange::spec_prefix_end(prefix@),
            !r.request.prev_kv,
    {
        self.delete_range_async(DeleteRequest::new(KeyRange::prefix(prefix)))
    }

    /// The asynchronous call that deletes what `req` names.
    pub fn delete(&self, req: DeleteRequest) -> (r: UnaryCall<DeleteRequest>)
        ensures
            r == unary(Method::KvDeleteRange, req, CallOption::spec_default(), true),
    {
        self.delete_range_async(req)
    }
}

/// The client of the watch method.
#[derive(Debug, Clone)]
pub struct WatchClient {
    pub channel: Channel,
}

impl WatchClient {
    /// Creates a client whose calls go to `channel`.
    pub fn new(channel: Channel) -> (r: Self)
        ensures
            r == (WatchClient { channel }),
    {
        WatchClient { channel }
    }

    /// The call that opens a watch stream with the options `opt`.
    pub fn watch_opt(&self, opt: CallOption) -> (r: DuplexCall)
        ensures
            r == (DuplexCall { method: Method::Watch, options: opt }),
    {
        DuplexCall { method: Method::Watch, options: opt }
    }

    /// The call that opens a watch stream.
    pub fn watch(&self) -> (r: DuplexCall)
        ensures
            r == (DuplexCall { method: Method::Watch, options: CallOption::spec_default() }),
    {
        self.watch_opt(CallOption::default())
    }
}

/// The client of the lease methods.
#[derive(Debug, Clone)]
pub struct LeaseClient {
    pub channel: Channel,
}

impl LeaseClient {
    /// Creates a client whose calls go to `channel`.
    pub fn new(channel: Channel) -> (r: Self)
        ensures
            r == (LeaseClient { channel }),
    {
        LeaseClient { channel }
    }

    /// The call that grants a lease with the options `opt`.
    pub fn lease_grant_opt(&self, req: LeaseGrantRequest, opt: CallOption) -> (r: UnaryCall<LeaseGrantRequest>)
        ensures
            r == unary(Method::LeaseGrant, req, opt, false),
    {
        UnaryCall { method: Method::LeaseGrant, request: req, options: opt, asynchronous: false }
    }

    /// The call that grants a lease.
    pub fn lease_grant(&self, req: LeaseGrantRequest) -> (r: UnaryCall<LeaseGrantRequest>)
        ensures
            r == unary(Method::LeaseGrant, req, CallOption::spec_default(), false),
    {
        self.lease_grant_opt(req, CallOption::default())
    }

    /// The asynchronous call that grants a lease with the options `opt`.
    pub fn lease_grant_async_opt(&self, req: LeaseGrantRequest, opt: CallOption) -> (r: UnaryCall<LeaseGrantRequest>)
        ensures
            r == unary(Method::LeaseGrant, req, opt, true),
    {
        UnaryCall { method: Method::LeaseGrant, request: req, options: opt, asynchronous: true }
    }

    /// The asynchronous call that grants a lease.
    pub fn lease_grant_async(&self, req: LeaseGrantRequest) -> (r: UnaryCall<LeaseGrantRequest>)
        ensures
            r == unary(Method::LeaseGrant, req, CallOption::spec_default(), true),
    {
        self.lease_grant_async_opt(req, CallOption::default())
    }

    /// The call that revokes a lease with the options `opt`.
    pub fn lease_revoke_opt(&self, req: LeaseRevokeRequest, opt: CallOption) -> (r: UnaryCall<LeaseRevokeRequest>)
        ensures
            r == unary(Method::LeaseRevoke, req, opt, false),
    {
        UnaryCall { method: Method::LeaseRevoke, request: req, options: opt, asynchronous: false }
    }

    /// The call that revokes a lease.
    pub fn lease_revoke(&self, req: LeaseRevokeRequest) -> (r: UnaryCall<LeaseRevokeRequest>)
        ensures
            r == unary(Method::LeaseRevoke, req, CallOption::spec_default(), false),
    {
        self.lease_revoke_opt(req, CallOption::default())
    }

    /// The asynchronous call that revokes a lease with the options `opt`.
    pub fn lease_revoke_async_opt(&self, req: LeaseRevokeRequest, opt: CallOption) -> (r: UnaryCall<LeaseRevokeRequest>)
        ensures
            r == unary(Method::LeaseRevoke, req, opt, true),
    {
        UnaryCall { method: Method::LeaseRevoke, request: req, options: opt, asynchronous: true }
    }

    /// The asynchronous call that revokes a lease.
    pub fn lease_revoke_async(&self, req: LeaseRevokeRequest) -> (r: UnaryCall<LeaseRevokeRequest>)
        ensures
            r == unary(Method::LeaseRevoke, req, CallOption::spec_default(), true),
    {
        self.lease_revoke_async_opt(req, CallOption::default())
    }

    /// The call that asks for the time a lease has left with the options `opt`.
    pub fn lease_time_to_live_opt(&self, req: LeaseTimeToLiveRequest, opt: CallOption) -> (r: UnaryCall<LeaseTimeToLiveRequest>)
        ensures
            r == unary(Method::LeaseTimeToLive, req, opt, false),
    {
        UnaryCall { method: Method::LeaseTimeToLive, request: req, options: opt, asynchronous: false }
    }

    /// The call that asks for the time a lease has left.
    pub fn lease_time_to_live(&self, req: LeaseTimeToLiveRequest) -> (r: UnaryCall<LeaseTimeToLiveRequest>)
        ensures
            r == unary(Method::LeaseTimeToLive, req, CallOption::spec_default(), false),
    {
        self.lease_time_to_live_opt(req, CallOption::default())
    }

    /// The asynchronous call that asks for the time a lease has left with the options `opt`.
    pub fn lease_time_to_live_async_opt(&self, req: LeaseTimeToLiveRequest, opt: CallOption) -> (r: UnaryCall<LeaseTimeToLiveRequest>)
        ensures
            r == unary(Method::LeaseTimeToLive, req, opt, true),
    {
        UnaryCall { method: Method::LeaseTimeToLive, request: req, options: opt, asynchronous: true }
    }

    /// The asynchronous call that asks for the time a lease has left.
    pub fn lease_time_to_live_async(&self, req: LeaseTimeToLiveRequest) -> (r: UnaryCall<LeaseTimeToLiveRequest>)
        ensures
            r == unary(Method::LeaseTimeToLive, req, CallOption::spec_default(), true),
    {
        self.lease_time_to_live_async_opt(req, CallOption::default())
    }

    /// The call that opens a keep-alive stream with the options `opt`.
    pub fn lease_keep_alive_opt(&self, opt: CallOption) -> (r: DuplexCall)
        ensures
            r == (DuplexCall { method: Method::LeaseKeepAlive, options: opt }),
    {
        DuplexCall { method: Method::LeaseKeepAlive, options: opt }
    }

    /// The call that opens a keep-alive stream.
    pub fn lease_keep_alive(&self) -> (r: DuplexCall)
        ensures
            r == (DuplexCall { method: Method::LeaseKeepAlive, options: CallOption::spec_default() }),
    {
        self.lease_keep_alive_opt(CallOption::default())
    }

    /// The asynchronous call that grants the lease `req` asks for.
    pub fn grant(&self, req: LeaseGrantRequest) -> (r: UnaryCall<LeaseGrantRequest>)
        ensures
            r == unary(Method::LeaseGrant, req, CallOption::spec_default(), true),
    {
        self.lease_grant_async(req)
    }

    /// The asynchronous call that revokes the lease `req` names.
    pub fn revoke(&self, req: LeaseRevokeRequest) -> (r: UnaryCall<LeaseRevokeRequest>)
        ensures
            r == unary(Method::LeaseRevoke, req, CallOption::spec_default(), true),
    {
        self.lease_revoke_async(req)
    }

    /// The asynchronous call that asks for the time the lease of `req` has
    /// left.
    pub fn ttl(&self, req: TtlRequest) -> (r: UnaryCall<LeaseTimeToLiveRequest>)
        ensures
            r == unary(
                Method::LeaseTimeToLive,
                LeaseTimeToLiveRequest { id: req.id, keys: req.with_keys },
                CallOption::spec_default(),
                true,
            ),
    {
        self.lease_time_to_live_async(req.into_request())
    }

    /// The call that opens a keep-alive stream, and the first request to send
    /// on it.
    pub fn keep_alive(&self, req: LeaseKeepAliveRequest) -> (r: (DuplexCall, LeaseKeepAliveRequest))
        ensures
            r.0 == (DuplexCall { method: Method::LeaseKeepAlive, options: CallOption::spec_default() }),
            r.1 == req,
    {
        (self.lease_keep_alive(), req)
    }
}

/// The client of the cluster membership methods.
#[derive(Debug, Clone)]
pub struct ClusterClient {
    pub channel: Channel,
}

impl ClusterClient {
    /// Creates a client whose calls go to `channel`.
    pub fn new(channel: Channel) -> (r: Self)
        ensures
            r == (ClusterClient { channel }),
    {
        ClusterClient { channel }
    }

    /// The call that adds a member with the options `opt`.
    pub fn member_add_opt(&self, req: MemberAddRequest, opt: CallOption) -> (r: UnaryCall<MemberAddRequest>)
        ensures
            r == unary(Method::MemberAdd, req, opt, false),
    {
        UnaryCall { method: Method::MemberAdd, request: req, options: opt, asynchronous: false }
    }

    /// The call that adds a member.
    pub fn member_add(&self, req: MemberAddRequest) -> (r: UnaryCall<MemberAddRequest>)
        ensures
            r == unary(Method::MemberAdd, req, CallOption::spec_default(), false),
    {
        self.member_add_opt(req, CallOption::default())
    }

    /// The asynchronous call that adds a member with the options `opt`.
    pub fn member_add_async_opt(&self, req: MemberAddRequest, opt: CallOption) -> (r: UnaryCall<MemberAddRequest>)
        ensures
            r == unary(Method::MemberAdd, req, opt, true),
    {
        UnaryCall { method: Method::MemberAdd, request: req, options: opt, asynchronous: true }
    }

    /// The asynchronous call that adds a member.
    pub fn member_add_async(&self, req: MemberAddRequest) -> (r: UnaryCall<MemberAddRequest>)
        ensures
            r == unary(Method::MemberAdd, req, CallOption::spec_default(), true),
    {
        self.member_add_async_opt(req, CallOption::default())
    }

    /// The call that removes a member with the options `opt`.
    pub fn member_remove_opt(&self, req: MemberRemoveRequest, opt: CallOption) -> (r: UnaryCall<MemberRemoveRequest>)
        ensures
            r == unary(Method::MemberRemove, req, opt, false),
    {
        UnaryCall { method: Method::MemberRemove, request: req, options: opt, asynchronous: false }
    }

    /// The call that removes a member.
    pub fn member_remove(&self, req: MemberRemoveRequest) -> (r: UnaryCall<MemberRemoveRequest>)
        ensures
            r == unary(Method::MemberRemove, req, CallOption::spec_default(), false),
    {
        self.member_remove_opt(req, CallOption::default())
    }

    /// The asynchronous call that removes a member with the options `opt`.
    pub fn member_remove_async_opt(&self, req: MemberRemoveRequest, opt: CallOption) -> (r: UnaryCall<MemberRemoveRequest>)
        ensures
            r == unary(Method::MemberRemove, req, opt, true),
    {
        UnaryCall { method: Method::MemberRemove, request: req, options: opt, asynchronous: true }
    }

    /// The asynchronous call that removes a member.
    pub fn member_remove_async(&self, req: MemberRemoveRequest) -> (r: UnaryCall<MemberRemoveRequest>)
        ensures
            r == unary(Method::MemberRemove, req, CallOption::spec_default(), true),
    {
        self.member_remove_async_opt(req, CallOption::default())
    }

    /// The call that updates a member with the options `opt`.
    pub fn member_update_opt(&self, req: MemberUpdateRequest, opt: CallOption) -> (r: UnaryCall<MemberUpdateRequest>)
        ensures
            r == unary(Method::MemberUpdate, req, opt, false),
    {
        UnaryCall { method: Method::MemberUpdate, request: req, options: opt, asynchronous: false }
    }

    /// The call that updates a member.
    pub fn member_update(&self, req: MemberUpdateRequest) -> (r: UnaryCall<MemberUpdateRequest>)
        ensures
            r == unary(Method::MemberUpdate, req, CallOption::spec_default(), false),
    {
        self.member_update_opt(req, CallOption::default())
    }

    /// The asynchronous call that updates a member with the options `opt`.
    pub fn member_update_async_opt(&self, req: MemberUpdateRequest, opt: CallOption) -> (r: UnaryCall<MemberUpdateRequest>)
        ensures
            r == unary(Method::MemberUpdate, req, opt, true),
    {
        UnaryCall { method: Method::MemberUpdate, request: req, options: opt, asynchronous: true }
    }

    /// The asynchronous call that updates a member.
    pub fn member_update_async(&self, req: MemberUpdateRequest) -> (r: UnaryCall<MemberUpdateRequest>)
        ensures
            r == unary(Method::MemberUpdate, req, CallOption::spec_default(), true),
    {
        self.member_update_async_opt(req, CallOption::default())
    }

    /// The call that lists the members with the options `opt`.
    pub fn member_list_opt(&self, req: MemberListRequest, opt: CallOption) -> (r: UnaryCall<MemberListRequest>)
        ensures
            r == unary(Method::MemberList, req, opt, false),
    {
        UnaryCall { method: Method::MemberList, request: req, options: opt, asynchronous: false }
    }

    /// The call that lists the members.
    pub fn member_list(&self, req: MemberListRequest) -> (r: UnaryCall<MemberListRequest>)
        ensures
            r == unary(Method::MemberList, req, CallOption::spec_default(), false),
    {
        self.member_list_opt(req, CallOption::default())
    }

    /// The asynchronous call that lists the members with the options `opt`.
    pub fn member_list_async_opt(&self, req: MemberListRequest, opt: CallOption) -> (r: UnaryCall<MemberListRequest>)
        ensures
            r == unary(Method::MemberList, req, opt, true),
    {
        UnaryCall { method: Method::MemberList, request: req, options: opt, asynchronous: true }
    }

    /// The asynchronous call that lists the members.
    pub fn member_list_async(&self, req: MemberListRequest) -> (r: UnaryCall<MemberListRequest>)
        ensures
            r == unary(Method::MemberList, req, CallOption::spec_default(), true),
    {
        self.member_list_async_opt(req, CallOption::default())
    }
}

/// The client of the lock methods.
#[derive(Debug, Clone)]
pub struct LockClient {
    pub channel: Channel,
}

impl LockClient {
    /// Creates a client whose calls go to `channel`.
    pub fn new(channel: Channel) -> (r: Self)
        ensures
            r == (LockClient { channel }),
    {
        LockClient { channel }
    }

    /// The call that takes a lock with the options `opt`.
    pub fn lock_opt(&self, req: LockRequest, opt: CallOption) -> (r: UnaryCall<LockRequest>)
        ensures
            r == unary(Method::Lock, req, opt, false),
    {
        UnaryCall { method: Method::Lock, request: req, options: opt, asynchronous: false }
    }

    /// The call that takes a lock.
    pub fn lock(&self, req: LockRequest) -> (r: UnaryCall<LockRequest>)
        ensures
            r == unary(Method::Lock, req, CallOption::spec_default(), false),
    {
        self.lock_opt(req, CallOption::default())
    }

    /// The asynchronous call that takes a lock with the options `opt`.
    pub fn lock_async_opt(&self, req: LockRequest, opt: CallOption) -> (r: UnaryCall<LockRequest>)
        ensures
            r == unary(Method::Lock, req, opt, true),
    {
        UnaryCall { method: Method::Lock, request: req, options: opt, asynchronous: true }
    }

    /// The asynchronous call that takes a lock.
    pub fn lock_async(&self, req: LockRequest) -> (r: UnaryCall<LockRequest>)
        ensures
            r == unary(Method::Lock, req, CallOption::spec_default(), true),
    {
        self.lock_async_opt(req, CallOption::default())
    }

    /// The call that releases a lock with the options `opt`.
    pub fn unlock_opt(&self, req: UnlockRequest, opt: CallOption) -> (r: UnaryCall<UnlockRequest>)
        ensures
            r == unary(Method::Unlock, req, opt, false),
    {
        UnaryCall { method: Method::Unlock, request: req, options: opt, asynchronous: false }
    }

    /// The call that releases a lock.
    pub fn unlock(&self, req: UnlockRequest) -> (r: UnaryCall<UnlockRequest>)
        ensures
            r == unary(Method::Unlock, req, CallOption::spec_default(), false),
    {
        self.unlock_opt(req, CallOption::default())
    }

    /// The asynchronous call that releases a lock with the options `opt`.
    pub fn unlock_async_opt(&self, req: UnlockRequest, opt: CallOption) -> (r: UnaryCall<UnlockRequest>)
        ensures
            r == unary(Method::Unlock, req, opt, true),
    {
        UnaryCall { method: Method::Unlock, request: req, options: opt, asynchronous: true }
    }

    /// The asynchronous call that releases a lock.
    pub fn unlock_async(&self, req: UnlockRequest) -> (r: UnaryCall<UnlockRequest>)
        ensures
            r == unary(Method::Unlock, req, CallOption::spec_default(), true),
    {
        self.unlock_async_opt(req, CallOption::default())
    }
}

/// The client of the maintenance methods. Their messages are carried as given: the
/// library does not model them.
#[derive(Debug, Clone)]
pub struct MaintenanceClient {
    pub channel: Channel,
}

impl MaintenanceClient {
    /// Creates a client whose calls go to `channel`.
    pub fn new(channel: Channel) -> (r: Self)
        ensures
            r == (MaintenanceClient { channel }),
    {
        MaintenanceClient { channel }
    }

    /// The call that activates, deactivates or lists alarms with the options `opt`.
    pub fn alarm_opt<Req>(&self, req: Req, opt: CallOption) -> (r: UnaryCall<Req>)
        ensures
            r == unary(Method::Alarm, req, opt, false),
    {
        UnaryCall { method: Method::Alarm, request: req, options: opt, asynchronous: false }
    }

    /// The call that activates, deactivates or lists alarms.
    pub fn alarm<Req>(&self, req: Req) -> (r: UnaryCall<Req>)
        ensures
            r == unary(Method::Alarm, req, CallOption::spec_default(), false),
    {
        self.alarm_opt(req, CallOption::default())
    }

    /// The asynchronous call that activates, deactivates or lists alarms with the options `opt`.
    pub fn alarm_async_opt<Req>(&self, req: Req, opt: CallOption) -> (r: UnaryCall<Req>)
        ensures
            r == unary(Method::Alarm, req, opt, true),
    {
        UnaryCall { method: Method::Alarm, request: req, options: opt, asynchronous: true }
    }

    /// The asynchronous call that activates, deactivates or lists alarms.
    pub fn alarm_async<Req>(&self, req: Req) -> (r: UnaryCall<Req>)
        ensures
            r == unary(Method::Alarm, req, CallOption::spec_default(), true),
    {
        self.alarm_async_opt(req, CallOption::default())
    }

    /// The call that asks for the status of a member with the options `opt`.
    pub fn status_opt<Req>(&self, req: Req, opt: CallOption) -> (r: UnaryCall<Req>)
        ensures
            r == unary(Method::Status, req, opt, false),
    {
        UnaryCall { method: Method::Status, request: req, options: opt, asynchronous: false }
    }

    /// The call that asks for the status of a member.
    pub fn status<Req>(&self, req: Req) -> (r: UnaryCall<Req>)
        ensures
            r == unary(Method::Status, req, CallOption::spec_default(), false),
    {
        self.status_opt(req, CallOption::default())
    }

    /// The asynchronous call that asks for the status of a member with the options `opt`.
    pub fn status_async_opt<Req>(&self, req: Req, opt: CallOption) -> (r: UnaryCall<Req>)
        ensures
            r == unary(Method::Status, req, opt, true),
    {
        UnaryCall { method: Method::Status, request: req, options: opt, asynchronous: true }
    }

    /// The asynchronous call that asks for the status of a member.
    pub fn status_async<Req>(&self, req: Req) -> (r: UnaryCall<Req>)
        ensures
            r == unary(Method::Status, req, CallOption::spec_default(), true),
    {
        self.status_async_opt(req, CallOption::default())
    }

    /// The call that defragments the storage of a member with the options `opt`.
    pub fn defragment_opt<Req>(&self, req: Req, opt: CallOption) -> (r: UnaryCall<Req>)
        ensures
            r == unary(Method::Defragment, req, opt, false),
    {
        UnaryCall { method: Method::Defragment, request: req, options: opt, asynchronous: false }
    }

    /// The call that defragments the storage of a member.
    pub fn defragment<Req>(&self, req: Req) -> (r: UnaryCall<Req>)
        ensures
            r == unary(Method::Defragment, req, CallOption::spec_default(), false),
    {
        self.defragment_opt(req, CallOption::default())
    }

    /// The asynchronous call that defragments the storage of a member with the options `opt`.
    pub fn defragment_async_opt<Req>(&self, req: Req, opt: CallOption) -> (r: UnaryCall<Req>)
        ensures
            r == unary(Method::Defragment, req, opt, true),
    {
        UnaryCall { method: Method::Defragment, request: req, options: opt, asynchronous: true }
    }

    /// The asynchronous call that defragments the storage of a member.
    pub fn defragment_async<Req>(&self, req: Req) -> (r: UnaryCall<Req>)
        ensures
            r == unary(Method::Defragment, req, CallOption::spec_default(), true),
    {
        self.defragment_async_opt(req, CallOption::default())
    }

    /// The call that asks for the hash of the whole storage with the options `opt`.
    pub fn hash_opt<Req>(&self, req: Req, opt: CallOption) -> (r: UnaryCall<Req>)
        ensures
            r == unary(Method::Hash, req, opt, false),
    {
        UnaryCall { method: Method::Hash, request: req, options: opt, asynchronous: false }
    }

    /// The call that asks for the hash of the whole storage.
    pub fn hash<Req>(&self, req: Req) -> (r: UnaryCall<Req>)
        ensures
            r == unary(Method::Hash, req, CallOption::spec_default(), false),
    {
        self.hash_opt(req, CallOption::default())
    }

    /// The asynchronous call that asks for the hash of the whole storage with the options `opt`.
    pub fn hash_async_opt<Req>(&self, req: Req, opt: CallOption) -> (r: UnaryCall<Req>)
        ensures
            r == unary(Method::Hash, req, opt, true),
    {
        UnaryCall { method: Method::Hash, request: req, options: opt, asynchronous: true }
    }

    /// The asynchronous call that asks for the hash of the whole storage.
    pub fn hash_async<Req>(&self, req: Req) -> (r: UnaryCall<Req>)
        ensures
            r == unary(Method::Hash, req, CallOption::spec_default(), true),
    {
        self.hash_async_opt(req, CallOption::default())
    }

    /// The call that asks for the hash of the key-value history with the options `opt`.
    pub fn hash_kv_opt<Req>(&self, req: Req, opt: CallOption) -> (r: UnaryCall<Req>)
        ensures
            r == unary(Method::HashKv, req, opt, false),
    {
        UnaryCall { method: Method::HashKv, request: req, options: opt, asynchronous: false }
    }

    /// The call that asks for the hash of the key-value history.
    pub fn hash_kv<Req>(&self, req: Req) -> (r: UnaryCall<Req>)
        ensures
            r == unary(Method::HashKv, req, CallOption::spec_default(), false),
    {
        self.hash_kv_opt(req, CallOption::default())
    }

    /// The asynchronous call that asks for the hash of the key-value history with the options `opt`.
    pub fn hash_kv_async_opt<Req>(&self, req: Req, opt: CallOption) -> (r: UnaryCall<Req>)
        ensures
            r == unary(Method::HashKv, req, opt, true),
    {
        UnaryCall { method: Method::HashKv, request: req, options: opt, asynchronous: true }
    }

    /// The asynchronous call that asks for the hash of the key-value history.
    pub fn hash_kv_async<Req>(&self, req: Req) -> (r: UnaryCall<Req>)
        ensures
            r == unary(Method::HashKv, req, CallOption::spec_default(), true),
    {
        self.hash_kv_async_opt(req, CallOption::default())
    }

    /// The call that hands the leadership to another member with the options `opt`.
    pub fn move_leader_opt<Req>(&self, req: Req, opt: CallOption) -> (r: UnaryCall<Req>)
        ensures
            r == unary(Method::MoveLeader, req, opt, false),
    {
        UnaryCall { method: Method::MoveLeader, request: req, options: opt, asynchronous: false }
    }

    /// The call that hands the leadership to another member.
    pub fn move_leader<Req>(&self, req: Req) -> (r: UnaryCall<Req>)
        ensures
            r == unary(Method::MoveLeader, req, CallOption::spec_default(), false),
    {
        self.move_leader_opt(req, CallOption::default())
    }

    /// The asynchronous call that hands the leadership to another member with the options `opt`.
    pub fn move_leader_async_opt<Req>(&self, req: Req, opt: CallOption) -> (r: UnaryCall<Req>)
        ensures
            r == unary(Method::MoveLeader, req, opt, true),
    {
        UnaryCall { method: Method::MoveLeader, request: req, options: opt, asynchronous: true }
    }

    /// The asynchronous call that hands the leadership to another member.
    pub fn move_leader_async<Req>(&self, req: Req) -> (r: UnaryCall<Req>)
        ensures
            r == unary(Method::MoveLeader, req, CallOption::spec_default(), true),
    {
        self.move_leader_async_opt(req, CallOption::default())
    }

    /// The call that streams a snapshot of the storage with the options `opt`.
    pub fn snapshot_opt<Req>(&self, req: Req, opt: CallOption) -> (r: ServerStreamingCall<Req>)
        ensures
            r == (ServerStreamingCall { method: Method::Snapshot, request: req, options: opt }),
    {
        ServerStreamingCall { method: Method::Snapshot, request: req, options: opt }
    }

    /// The call that streams a snapshot of the storage.
    pub fn snapshot<Req>(&self, req: Req) -> (r: ServerStreamingCall<Req>)
        ensures
            r == (ServerStreamingCall {
                method: Method::Snapshot,
                request: req,
                options: CallOption::spec_default(),
            }),
    {
        self.snapshot_opt(req, CallOption::default())
    }
}

/// The client of the authentication and access-control methods. Their messages,
/// but for the authentication request, are carried as given: the library does
/// not model them.
#[derive(Debug, Clone)]
pub struct AuthClient {
    pub channel: Channel,
}

impl AuthClient {
    /// Creates a client whose calls go to `channel`.
    pub fn new(channel: Channel) -> (r: Self)
        ensures
            r == (AuthClient { channel }),
    {
        AuthClient { channel }
    }

    /// The call that enables authentication with the options `opt`.
    pub fn auth_enable_opt<Req>(&self, req: Req, opt: CallOption) -> (r: UnaryCall<Req>)
        ensures
            r == unary(Method::AuthEnable, req, opt, false),
    {
        UnaryCall { method: Method::AuthEnable, request: req, options: opt, asynchronous: false }
    }

    /// The call that enables authentication.
    pub fn auth_enable<Req>(&self, req: Req) -> (r: UnaryCall<Req>)
        ensures
            r == unary(Method::AuthEnable, req, CallOption::spec_default(), false),
    {
        self.auth_enable_opt(req, CallOption::default())
    }

    /// The asynchronous call that enables authentication with the options `opt`.
    pub fn auth_enable_async_opt<Req>(&self, req: Req, opt: CallOption) -> (r: UnaryCall<Req>)
        ensures
            r == unary(Method::AuthEnable, req, opt, true),
    {
        UnaryCall { method: Method::AuthEnable, request: req, options: opt, asynchronous: true }
    }

    /// The asynchronous call that enables authentication.
    pub fn auth_enable_async<Req>(&self, req: Req) -> (r: UnaryCall<Req>)
        ensures
            r == unary(Method::AuthEnable, req, CallOption::spec_default(), true),
    {
        self.auth_enable_async_opt(req, CallOption::default())
    }

    /// The call that disables authentication with the options `opt`.
    pub fn auth_disable_opt<Req>(&self, req: Req, opt: CallOption) -> (r: UnaryCall<Req>)
        ensures
            r == unary(Method::AuthDisable, req, opt, false),
    {
        UnaryCall { method: Method::AuthDisable, request: req, options: opt, asynchronous: false }
    }

    /// The call that disables authentication.
    pub fn auth_disable<Req>(&self, req: Req) -> (r: UnaryCall<Req>)
        ensures
            r == unary(Method::AuthDisable, req, CallOption::spec_default(), false),
    {
        self.auth_disable_opt(req, CallOption::default())
    }

    /// The asynchronous call that disables authentication with the options `opt`.
    pub fn auth_disable_async_opt<Req>(&self, req: Req, opt: CallOption) -> (r: UnaryCall<Req>)
        ensures
            r == unary(Method::AuthDisable, req, opt, true),
    {
        UnaryCall { method: Method::AuthDisable, request: req, options: opt, asynchronous: true }
    }

    /// The asynchronous call that disables authentication.
    pub fn auth_disable_async<Req>(&self, req: Req) -> (r: UnaryCall<Req>)
        ensures
            r == unary(Method::AuthDisable, req, CallOption::spec_default(), true),
    {
        self.auth_disable_async_opt(req, CallOption::default())
    }

    /// The call that asks for a token with the options `opt`.
    pub fn authenticate_opt(&self, req: AuthenticateRequest, opt: CallOption) -> (r: UnaryCall<AuthenticateRequest>)
        ensures
            r == unary(Method::Authenticate, req, opt, false),
    {
        UnaryCall { method: Method::Authenticate, request: req, options: opt, asynchronous: false }
    }

    /// The call that asks for a token.
    pub fn authenticate(&self, req: AuthenticateRequest) -> (r: UnaryCall<AuthenticateRequest>)
        ensures
            r == unary(Method::Authenticate, req, CallOption::spec_default(), false),
    {
        self.authenticate_opt(req, CallOption::default())
    }

    /// The asynchronous call that asks for a token with the options `opt`.
    pub fn authenticate_async_opt(&self, req: AuthenticateRequest, opt: CallOption) -> (r: UnaryCall<AuthenticateRequest>)
        ensures
            r == unary(Method::Authenticate, req, opt, true),
    {
        UnaryCall { method: Method::Authenticate, request: req, options: opt, asynchronous: true }
    }

    /// The asynchronous call that asks for a token.
    pub fn authenticate_async(&self, req: AuthenticateRequest) -> (r: UnaryCall<AuthenticateRequest>)
        ensures
            r == unary(Method::Authenticate, req, CallOption::spec_default(), true),
    {
        self.authenticate_async_opt(req, CallOption::default())
    }

    /// The call that adds a user with the options `opt`.
    pub fn user_add_opt<Req>(&self, req: Req, opt: CallOption) -> (r: UnaryCall<Req>)
        ensures
            r == unary(Method::UserAdd, req, opt, false),
    {
        UnaryCall { method: Method::UserAdd, request: req, options: opt, asynchronous: false }
    }

    /// The call that adds a user.
    pub fn user_add<Req>(&self, req: Req) -> (r: UnaryCall<Req>)
        ensures
            r == unary(Method::UserAdd, req, CallOption::spec_default(), false),
    {
        self.user_add_opt(req, CallOption::default())
    }

    /// The asynchronous call that adds a user with the options `opt`.
    pub fn user_add_async_opt<Req>(&self, req: Req, opt: CallOption) -> (r: UnaryCall<Req>)
        ensures
            r == unary(Method::UserAdd, req, opt, true),
    {
        UnaryCall { method: Method::UserAdd, request: req, options: opt, asynchronous: true }
    }

    /// The asynchronous call that adds a user.
    pub fn user_add_async<Req>(&self, req: Req) -> (r: UnaryCall<Req>)
        ensures
            r == unary(Method::UserAdd, req, CallOption::spec_default(), true),
    {
        self.user_add_async_opt(req, CallOption::default())
    }

    /// The call that reads a user with the options `opt`.
    pub fn user_get_opt<Req>(&self, req: Req, opt: CallOption) -> (r: UnaryCall<Req>)
        ensures
            r == unary(Method::UserGet, req, opt, false),
    {
        UnaryCall { method: Method::UserGet, request: req, options: opt, asynchronous: false }
    }

    /// The call that reads a user.
    pub fn user_get<Req>(&self, req: Req) -> (r: UnaryCall<Req>)
        ensures
            r == unary(Method::UserGet, req, CallOption::spec_default(), false),
    {
        self.user_get_opt(req, CallOption::default())
    }

    /// The asynchronous call that reads a user with the options `opt`.
    pub fn user_get_async_opt<Req>(&self, req: Req, opt: CallOption) -> (r: UnaryCall<Req>)
        ensures
            r == unary(Method::UserGet, req, opt, true),
    {
        UnaryCall { method: Method::UserGet, request: req, options: opt, asynchronous: true }
    }

    /// The asynchronous call that reads a user.
    pub fn user_get_async<Req>(&self, req: Req) -> (r: UnaryCall<Req>)
        ensures
            r == unary(Method::UserGet, req, CallOption::spec_default(), true),
    {
        self.user_get_async_opt(req, CallOption::default())
    }

    /// The call that lists the users with the options `opt`.
    pub fn user_list_opt<Req>(&self, req: Req, opt: CallOption) -> (r: UnaryCall<Req>)
        ensures
            r == unary(Method::UserList, req, opt, false),
    {
        UnaryCall { method: Method::UserList, request: req, options: opt, asynchronous: false }
    }

    /// The call that lists the users.
    pub fn user_list<Req>(&self, req: Req) -> (r: UnaryCall<Req>)
        ensures
            r == unary(Method::UserList, req, CallOption::spec_default(), false),
    {
        self.user_list_opt(req, CallOption::default())
    }

    /// The asynchronous call that lists the users with the options `opt`.
    pub fn user_list_async_opt<Req>(&self, req: Req, opt: CallOption) -> (r: UnaryCall<Req>)
        ensures
            r == unary(Method::UserList, req, opt, true),
    {
        UnaryCall { method: Method::UserList, request: req, options: opt, asynchronous: true }
    }

    /// The asynchronous call that lists the users.
    pub fn user_list_async<Req>(&self, req: Req) -> (r: UnaryCall<Req>)
        ensures
            r == unary(Method::UserList, req, CallOption::spec_default(), true),
    {
        self.user_list_async_opt(req, CallOption::default())
    }

    /// The call that deletes a user with the options `opt`.
    pub fn user_delete_opt<Req>(&self, req: Req, opt: CallOption) -> (r: UnaryCall<Req>)
        ensures
            r == unary(Method::UserDelete, req, opt, false),
    {
        UnaryCall { method: Method::UserDelete, request: req, options: opt, asynchronous: false }
    }

    /// The call that deletes a user.
    pub fn user_delete<Req>(&self, req: Req) -> (r: UnaryCall<Req>)
        ensures
            r == unary(Method::UserDelete, req, CallOption::spec_default(), false),
    {
        self.user_delete_opt(req, CallOption::default())
    }

    /// The asynchronous call that deletes a user with the options `opt`.
    pub fn user_delete_async_opt<Req>(&self, req: Req, opt: CallOption) -> (r: UnaryCall<Req>)
        ensures
            r == unary(Method::UserDelete, req, opt, true),
    {
        UnaryCall { method: Method::UserDelete, request: req, options: opt, asynchronous: true }
    }

    /// The asynchronous call that deletes a user.
    pub fn user_delete_async<Req>(&self, req: Req) -> (r: UnaryCall<Req>)
        ensures
            r == unary(Method::UserDelete, req, CallOption::spec_default(), true),
    {
        self.user_delete_async_opt(req, CallOption::default())
    }

    /// The call that changes the password of a user with the options `opt`.
    pub fn user_change_password_opt<Req>(&self, req: Req, opt: CallOption) -> (r: UnaryCall<Req>)
        ensures
            r == unary(Method::UserChangePassword, req, opt, false),
    {
        UnaryCall { method: Method::UserChangePassword, request: req, options: opt, asynchronous: false }
    }

    /// The call that changes the password of a user.
    pub fn user_change_password<Req>(&self, req: Req) -> (r: UnaryCall<Req>)
        ensures
            r == unary(Method::UserChangePassword, req, CallOption::spec_default(), false),
    {
        self.user_change_password_opt(req, CallOption::default())
    }

    /// The asynchronous call that changes the password of a user with the options `opt`.
    pub fn user_change_password_async_opt<Req>(&self, req: Req, opt: CallOption) -> (r: UnaryCall<Req>)
        ensures
            r == unary(Method::UserChangePassword, req, opt, true),
    {
        UnaryCall { method: Method::UserChangePassword, request: req, options: opt, asynchronous: true }
    }

    /// The asynchronous call that changes the password of a user.
    pub fn user_change_password_async<Req>(&self, req: Req) -> (r: UnaryCall<Req>)
        ensures
            r == unary(Method::UserChangePassword, req, CallOption::spec_default(), true),
    {
        self.user_change_password_async_opt(req, CallOption::default())
    }

    /// The call that grants a role to a user with the options `opt`.
    pub fn user_grant_role_opt<Req>(&self, req: Req, opt: CallOption) -> (r: UnaryCall<Req>)
        ensures
            r == unary(Method::UserGrantRole, req, opt, false),
    {
        UnaryCall { method: Method::UserGrantRole, request: req, options: opt, asynchronous: false }
    }

    /// The call that grants a role to a user.
    pub fn user_grant_role<Req>(&self, req: Req) -> (r: UnaryCall<Req>)
        ensures
            r == unary(Method::UserGrantRole, req, CallOption::spec_default(), false),
    {
        self.user_grant_role_opt(req, CallOption::default())
    }

    /// The asynchronous call that grants a role to a user with the options `opt`.
    pub fn user_grant_role_async_opt<Req>(&self, req: Req, opt: CallOption) -> (r: UnaryCall<Req>)
        ensures
            r == unary(Method::UserGrantRole, req, opt, true),
    {
        UnaryCall { method: Method::UserGrantRole, request: req, options: opt, asynchronous: true }
    }

    /// The asynchronous call that grants a role to a user.
    pub fn user_grant_role_async<Req>(&self, req: Req) -> (r: UnaryCall<Req>)
        ensures
            r == unary(Method::UserGrantRole, req, CallOption::spec_default(), true),
    {
        self.user_grant_role_async_opt(req, CallOption::default())
    }

    /// The call that revokes a role from a user with the options `opt`.
    pub fn user_revoke_role_opt<Req>(&self, req: Req, opt: CallOption) -> (r: UnaryCall<Req>)
        ensures
            r == unary(Method::UserRevokeRole, req, opt, false),
    {
        UnaryCall { method: Method::UserRevokeRole, request: req, options: opt, asynchronous: false }
    }

    /// The call that revokes a role from a user.
    pub fn user_revoke_role<Req>(&self, req: Req) -> (r: UnaryCall<Req>)
        ensures
            r == unary(Method::UserRevokeRole, req, CallOption::spec_default(), false),
    {
        self.user_revoke_role_opt(req, CallOption::default())
    }

    /// The asynchronous call that revokes a role from a user with the options `opt`.
    pub fn user_revoke_role_async_opt<Req>(&self, req: Req, opt: CallOption) -> (r: UnaryCall<Req>)
        ensures
            r == unary(Method::UserRevokeRole, req, opt, true),
    {
        UnaryCall { method: Method::UserRevokeRole, request: req, options: opt, asynchronous: true }
    }

    /// The asynchronous call that revokes a role from a user.
    pub fn user_revoke_role_async<Req>(&self, req: Req) -> (r: UnaryCall<Req>)
        ensures
            r == unary(Method::UserRevokeRole, req, CallOption::spec_default(), true),
    {
        self.user_revoke_role_async_opt(req, CallOption::default())
    }

    /// The call that adds a role with the options `opt`.
    pub fn role_add_opt<Req>(&self, req: Req, opt: CallOption) -> (r: UnaryCall<Req>)
        ensures
            r == unary(Method::RoleAdd, req, opt, false),
    {
        UnaryCall { method: Method::RoleAdd, request: req, options: opt, asynchronous: false }
    }

    /// The call that adds a role.
    pub fn role_add<Req>(&self, req: Req) -> (r: UnaryCall<Req>)
        ensures
            r == unary(Method::RoleAdd, req, CallOption::spec_default(), false),
    {
        self.role_add_opt(req, CallOption::default())
    }

    /// The asynchronous call that adds a role with the options `opt`.
    pub fn role_add_async_opt<Req>(&self, req: Req, opt: CallOption) -> (r: UnaryCall<Req>)
        ensures
            r == unary(Method::RoleAdd, req, opt, true),
    {
        UnaryCall { method: Method::RoleAdd, request: req, options: opt, asynchronous: true }
    }

    /// The asynchronous call that adds a role.
    pub fn role_add_async<Req>(&self, req: Req) -> (r: UnaryCall<Req>)
        ensures
            r == unary(Method::RoleAdd, req, CallOption::spec_default(), true),
    {
        self.role_add_async_opt(req, CallOption::default())
    }

    /// The call that reads a role with the options `opt`.
    pub fn role_get_opt<Req>(&self, req: Req, opt: CallOption) -> (r: UnaryCall<Req>)
        ensures
            r == unary(Method::RoleGet, req, opt, false),
    {
        UnaryCall { method: Method::RoleGet, request: req, options: opt, asynchronous: false }
    }

    /// The call that reads a role.
    pub fn role_get<Req>(&self, req: Req) -> (r: UnaryCall<Req>)
        ensures
            r == unary(Method::RoleGet, req, CallOption::spec_default(), false),
    {
        self.role_get_opt(req, CallOption::default())
    }

    /// The asynchronous call that reads a role with the options `opt`.
    pub fn role_get_async_opt<Req>(&self, req: Req, opt: CallOption) -> (r: UnaryCall<Req>)
        ensures
            r == unary(Method::RoleGet, req, opt, true),
    {
        UnaryCall { method: Method::RoleGet, request: req, options: opt, asynchronous: true }
    }

    /// The asynchronous call that reads a role.
    pub fn role_get_async<Req>(&self, req: Req) -> (r: UnaryCall<Req>)
        ensures
            r == unary(Method::RoleGet, req, CallOption::spec_default(), true),
    {
        self.role_get_async_opt(req, CallOption::default())
    }

    /// The call that lists the roles with the options `opt`.
    pub fn role_list_opt<Req>(&self, req: Req, opt: CallOption) -> (r: UnaryCall<Req>)
        ensures
            r == unary(Method::RoleList, req, opt, false),
    {
        UnaryCall { method: Method::RoleList, request: req, options: opt, asynchronous: false }
    }

    /// The call that lists the roles.
    pub fn role_list<Req>(&self, req: Req) -> (r: UnaryCall<Req>)
        ensures
            r == unary(Method::RoleList, req, CallOption::spec_default(), false),
    {
        self.role_list_opt(req, CallOption::default())
    }

    /// The asynchronous call that lists the roles with the options `opt`.
    pub fn role_list_async_opt<Req>(&self, req: Req, opt: CallOption) -> (r: UnaryCall<Req>)
        ensures
            r == unary(Method::RoleList, req, opt, true),
    {
        UnaryCall { method: Method::RoleList, request: req, options: opt, asynchronous: true }
    }

    /// The asynchronous call that lists the roles.
    pub fn role_list_async<Req>(&self, req: Req) -> (r: UnaryCall<Req>)
        ensures
            r == unary(Method::RoleList, req, CallOption::spec_default(), true),
    {
        self.role_list_async_opt(req, CallOption::default())
    }

    /// The call that deletes a role with the options `opt`.
    pub fn role_delete_opt<Req>(&self, req: Req, opt: CallOption) -> (r: UnaryCall<Req>)
        ensures
            r == unary(Method::RoleDelete, req, opt, false),
    {
        UnaryCall { method: Method::RoleDelete, request: req, options: opt, asynchronous: false }
    }

    /// The call that deletes a role.
    pub fn role_delete<Req>(&self, req: Req) -> (r: UnaryCall<Req>)
        ensures
            r == unary(Method::RoleDelete, req, CallOption::spec_default(), false),
    {
        self.role_delete_opt(req, CallOption::default())
    }

    /// The asynchronous call that deletes a role with the options `opt`.
    pub fn role_delete_async_opt<Req>(&self, req: Req, opt: CallOption) -> (r: UnaryCall<Req>)
        ensures
            r == unary(Method::RoleDelete, req, opt, true),
    {
        UnaryCall { method: Method::RoleDelete, request: req, options: opt, asynchronous: true }
    }

    /// The asynchronous call that deletes a role.
    pub fn role_delete_async<Req>(&self, req: Req) -> (r: UnaryCall<Req>)
        ensures
            r == unary(Method::RoleDelete, req, CallOption::spec_default(), true),
    {
        self.role_delete_async_opt(req, CallOption::default())
    }

    /// The call that grants a permission to a role with the options `opt`.
    pub fn role_grant_permission_opt<Req>(&self, req: Req, opt: CallOption) -> (r: UnaryCall<Req>)
        ensures
            r == unary(Method::RoleGrantPermission, req, opt, false),
    {
        UnaryCall { method: Method::RoleGrantPermission, request: req, options: opt, asynchronous: false }
    }

    /// The call that grants a permission to a role.
    pub fn role_grant_permission<Req>(&self, req: Req) -> (r: UnaryCall<Req>)
        ensures
            r == unary(Method::RoleGrantPermission, req, CallOption::spec_default(), false),
    {
        self.role_grant_permission_opt(req, CallOption::default())
    }

    /// The asynchronous call that grants a permission to a role with the options `opt`.
    pub fn role_grant_permission_async_opt<Req>(&self, req: Req, opt: CallOption) -> (r: UnaryCall<Req>)
        ensures
            r == unary(Method::RoleGrantPermission, req, opt, true),
    {
        UnaryCall { method: Method::RoleGrantPermission, request: req, options: opt, asynchronous: true }
    }

    /// The asynchronous call that grants a permission to a role.
    pub fn role_grant_permission_async<Req>(&self, req: Req) -> (r: UnaryCall<Req>)
        ensures
            r == unary(Method::RoleGrantPermission, req, CallOption::spec_default(), true),
    {
        self.role_grant_permission_async_opt(req, CallOption::default())
    }

    /// The call that revokes a permission from a role with the options `opt`.
    pub fn role_revoke_permission_opt<Req>(&self, req: Req, opt: CallOption) -> (r: UnaryCall<Req>)
        ensures
            r == unary(Method::RoleRevokePermission, req, opt, false),
    {
        UnaryCall { method: Method::RoleRevokePermission, request: req, options: opt, asynchronous: false }
    }

    /// The call that revokes a permission from a role.
    pub fn role_revoke_permission<Req>(&self, req: Req) -> (r: UnaryCall<Req>)
        ensures
            r == unary(Method::RoleRevokePermission, req, CallOption::spec_default(), false),
    {
        self.role_revoke_permission_opt(req, CallOption::default())
    }

    /// The asynchronous call that revokes a permission from a role with the options `opt`.
    pub fn role_revoke_permission_async_opt<Req>(&self, req: Req, opt: CallOption) -> (r: UnaryCall<Req>)
        ensures
            r == unary(Method::RoleRevokePermission, req, opt, true),
    {
        UnaryCall { method: Method::RoleRevokePermission, request: req, options: opt, asynchronous: true }
    }

    /// The asynchronous call that revokes a permission from a role.
    pub fn role_revoke_permission_async<Req>(&self, req: Req) -> (r: UnaryCall<Req>)
        ensures
            r == unary(Method::RoleRevokePermission, req, CallOption::spec_default(), true),
    {
        self.role_revoke_permission_async_opt(req, CallOption::default())
    }
}

} // verus!
