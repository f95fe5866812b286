//! Distributed locks: the requests that take and release a lock, and their
//! answers.
use vstd::prelude::*;

use crate::header::ResponseHeader;
use crate::kv::{opt_string_view, text_of};
use crate::text::utf8_string;

verus! {

/// A request that takes the lock `name`, held as long as the lease `lease`.
#[derive(Clone, Debug)]
pub struct LockRequest {
    pub name: Vec<u8>,
    pub lease: i64,
}

impl LockRequest {
    /// Creates a request that takes the lock `name` under the lease
    /// `lease_id`.
    pub fn new(name: Vec<u8>, lease_id: i64) -> (r: Self)
        ensures
            r == (LockRequest { name, lease: lease_id }),
    {
        LockRequest { name, lease: lease_id }
    }
}

/// The answer to a lock request: the key that stands for the lock while it
/// is held.
#[derive(Clone, Debug)]
pub struct LockResponse {
    pub header: ResponseHeader,
    pub key: Vec<u8>,
}

impl LockResponse {
    /// The header of the response.
    pub fn header(&self) -> (r: &ResponseHeader)
        ensures
            *r == self.header,
    {
        &self.header
    }

    /// The key of the lock as text; `None` when it is not valid UTF-8.
    pub fn key(&self) -> (r: Option<String>)
        ensures
            opt_string_view(r) == text_of(self.key@),
    {
        utf8_string(self.key.clone())
    }

    /// The key of the lock, as bytes.
    pub fn raw_key(&self) -> (r: &[u8])
        ensures
            r@ == self.key@,
    {
        self.key.as_slice()
    }

    /// The key of the lock as text; `None` when it is not valid UTF-8.
    pub fn into_key(self) -> (r: Option<String>)
        ensures
            opt_string_view(r) == text_of(self.key@),
    {
        utf8_string(self.key)
    }

    /// The key of the lock, as bytes.
    pub fn into_raw_key(self) -> (r: Vec<u8>)
        ensures
            r@ == self.key@,
    {
        self.key
    }
}

/// A request that releases the lock whose key is `key`.
#[derive(Clone, Debug)]
pub struct UnlockRequest {
    pub key: Vec<u8>,
}

impl UnlockRequest {
    /// Creates a request that releases the lock held under `key`.
    pub fn new(key: Vec<u8>) -> (r: Self)
        ensures
            r == (UnlockRequest { key }),
    {
        UnlockRequest { key }
    }
}

/// The answer to an unlock request.
#[derive(Clone, Copy, Debug)]
pub struct UnlockResponse {
    pub header: ResponseHeader,
}

impl UnlockResponse {
    /// The header of the response.
    pub fn header(&self) -> (r: &ResponseHeader)
        ensures
            *r == self.header,
    {
        &self.header
    }
}

} // verus!
