//! A client library for a distributed key-value store: the requests and
//! responses of its RPC surface, the key-range codec, the calls that the
//! clients describe, and the state machines of the two streaming sessions,
//! watch and lease keep-alive.
//!
//! The library does no I/O. A transport opens the calls that the clients
//! describe, hands each session what its stream gives (`Received`), and
//! sends what the session asks it to send.
use vstd::prelude::*;

pub mod auth;
pub mod cluster;
pub mod config;
pub mod error;
pub mod get;
pub mod header;
pub mod key_range;
pub mod kv;
pub mod lazy;
pub mod lease;
pub mod lock;
pub mod rpc;
mod text;
pub mod txn;
pub mod watch;

pub use auth::{AuthenticateRequest, AuthenticateResponse};
pub use cluster::{
    Member, MemberAddRequest, MemberAddResponse, MemberListRequest, MemberListResponse,
    MemberRemoveRequest, MemberRemoveResponse, MemberUpdateRequest, MemberUpdateResponse,
};
pub use config::{ClientConfig, Endpoint, TlsConfig};
pub use error::{Error, Received, Status};
pub use get::{GetRequest, GetResponse};
pub use header::ResponseHeader;
pub use key_range::KeyRange;
pub use kv::{
    CompactRequest, CompactResponse, DeleteRequest, DeleteResponse, KeyValue, PutRequest,
    PutResponse, RangeRequest, RangeResponse, SortOrder,
};
pub use lazy::{Lazy, Shutdown};
pub use lease::{
    LeaseGrantRequest, LeaseGrantResponse, LeaseId, LeaseInbound, LeaseKeepAlive,
    LeaseKeepAliveRequest, LeaseKeepAliveResponse, LeaseRevokeRequest, LeaseRevokeResponse,
    LeaseTimeToLiveRequest, LeaseTimeToLiveResponse, TtlRequest, TtlResponse,
};
pub use lock::{LockRequest, LockResponse, UnlockRequest, UnlockResponse};
pub use rpc::{
    AuthClient, CallOption, Channel, ClusterClient, DuplexCall, KvClient, LeaseClient, LockClient,
    MaintenanceClient, Method, MethodType, ServerStreamingCall, UnaryCall, WatchClient,
};
pub use txn::{Compare, CompareTarget, TxnCmp, TxnOp, TxnOpResponse, TxnRequest, TxnResponse};
pub use watch::{
    Event, EventType, WatchCancelRequest, WatchCreateRequest, WatchFilter, WatchInbound,
    WatchRequest, WatchResponse, WatchStream,
};

verus! {

} // verus!
