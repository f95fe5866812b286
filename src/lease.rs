//! Leases: the requests and responses of the lease RPCs, and the state
//! machine of one keep-alive session.
use vstd::prelude::*;
use vstd::utf8::{decode_utf8, valid_utf8};

use crate::error::{Error, Received};
use crate::header::ResponseHeader;
use crate::text::utf8_string;

verus! {

/// The identifier of a lease; 0 stands for no lease.
pub type LeaseId = i64;

/// A request for a new lease.
#[derive(Debug, Clone, Copy, PartialEq, Eq, Structural)]
pub struct LeaseGrantRequest {
    pub ttl: i64,
    pub id: LeaseId,
}

impl LeaseGrantRequest {
    /// Creates a request for a lease of `ttl` seconds, whose identifier the
    /// server picks.
    pub fn new(ttl: i64) -> (r: Self)
        ensures
            r == (LeaseGrantRequest { ttl, id: 0 }),
    {
        LeaseGrantRequest { ttl, id: 0 }
    }

    /// The request, asking for the identifier `id`.
    pub fn with_id(self, id: LeaseId) -> (r: Self)
        ensures
            r == (LeaseGrantRequest { ttl: self.ttl, id }),
    {
        LeaseGrantRequest { ttl: self.ttl, id }
    }
}

/// The answer to a grant: the lease and its time to live, in seconds.
#[derive(Debug, Clone, Copy)]
pub struct LeaseGrantResponse {
    pub header: ResponseHeader,
    pub id: LeaseId,
    pub ttl: i64,
}

/// A request that refreshes a lease.
#[derive(Debug, Clone, Copy, PartialEq, Eq, Structural)]
pub struct LeaseKeepAliveRequest {
    pub id: LeaseId,
}

impl LeaseKeepAliveRequest {
    /// Creates a request that refreshes the lease `id`.
    pub fn new(id: LeaseId) -> (r: Self)
        ensures
            r.id == id,
    {
        LeaseKeepAliveRequest { id }
    }
}

/// The answer to a refresh: the lease and its time to live, in seconds; a
/// time to live of 0 means the lease has expired.
#[derive(Debug, Clone, Copy)]
pub struct LeaseKeepAliveResponse {
    pub header: ResponseHeader,
    pub id: LeaseId,
    pub ttl: i64,
}

/// A request that revokes a lease.
#[derive(Debug, Clone, Copy, PartialEq, Eq, Structural)]
pub struct LeaseRevokeRequest {
    pub id: LeaseId,
}

impl LeaseRevokeRequest {
    /// Creates a request that revokes the lease `id`.
    pub fn new(id: LeaseId) -> (r: Self)
        ensures
            r.id == id,
    {
        LeaseRevokeRequest { id }
    }
}

/// The answer to a revocation.
#[derive(Debug, Clone, Copy)]
pub struct LeaseRevokeResponse {
    pub header: ResponseHeader,
}

/// A request for the time a lease has left.
#[derive(Debug, Clone, Copy, PartialEq, Eq, Structural)]
pub struct LeaseTimeToLiveRequest {
    pub id: LeaseId,
    pub keys: bool,
}

impl LeaseTimeToLiveRequest {
    /// Creates a request for the time that the lease `id` has left, without
    /// its keys.
    pub fn new(id: LeaseId) -> (r: Self)
        ensures
            r == (LeaseTimeToLiveRequest { id, keys: false }),
    {
        LeaseTimeToLiveRequest { id, keys: false }
    }

    /// The request, about the lease `id`.
    pub fn with_id(self, id: LeaseId) -> (r: Self)
        ensures
            r == (LeaseTimeToLiveRequest { id, keys: self.keys }),
    {
        LeaseTimeToLiveRequest { id, keys: self.keys }
    }

    /// The request, asking or not for the keys attached to the lease.
    pub fn with_keys(self, keys: bool) -> (r: Self)
        ensures
            r == (LeaseTimeToLiveRequest { id: self.id, keys }),
    {
        LeaseTimeToLiveRequest { id: self.id, keys }
    }
}

/// The answer to a time-to-live request.
#[derive(Debug, Clone, Copy)]
pub struct LeaseTimeToLiveResponse {
    pub header: ResponseHeader,
    pub id: LeaseId,
    pub ttl: i64,
}

/// A request for the time a lease has left, and for its keys if asked.
#[derive(Debug, Clone, Copy, PartialEq, Eq, Structural)]
pub struct TtlRequest {
    pub id: i64,
    pub with_keys: bool,
}

impl TtlRequest {
    /// Creates a request for the time that the lease `id` has left.
    pub fn new(id: i64) -> (r: Self)
        ensures
            r == (TtlRequest { id, with_keys: false }),
    {
        TtlRequest { id, with_keys: false }
    }

    /// The request, asking for the keys attached to the lease too.
    pub fn with_keys(self) -> (r: Self)
        ensures
            r == (TtlRequest { id: self.id, with_keys: true }),
    {
        TtlRequest { id: self.id, with_keys: true }
    }

    /// The time-to-live request that the protocol sends for this one.
    pub fn into_request(self) -> (r: LeaseTimeToLiveRequest)
        ensures
            r == (LeaseTimeToLiveRequest { id: self.id, keys: self.with_keys }),
    {
        LeaseTimeToLiveRequest { id: self.id, keys: self.with_keys }
    }
}

/// The answer to a `TtlRequest`.
#[derive(Debug, Clone)]
pub struct TtlResponse {
    pub header: ResponseHeader,
    pub id: i64,
    pub ttl: i64,
    pub granted_ttl: i64,
    pub keys: Vec<Vec<u8>>,
}

impl TtlResponse {
    /// The header of the response.
    pub fn header(&self) -> (r: &ResponseHeader)
        ensures
            *r == self.header,
    {
        &self.header
    }

    /// The lease.
    pub fn id(&self) -> (r: i64)
        ensures
            r == self.id,
    {
        self.id
    }

    /// The seconds the lease has left.
    pub fn ttl(&self) -> (r: i64)
        ensures
            r == self.ttl,
    {
        self.ttl
    }

    /// The seconds the lease was granted for.
    pub fn granted_ttl(&self) -> (r: i64)
        ensures
            r == self.granted_ttl,
    {
        self.granted_ttl
    }

    /// The keys attached to the lease, as text; `None` when one of them is not
    /// valid UTF-8.
    pub fn keys(&self) -> (r: Option<Vec<String>>)
        ensures
            r.is_some() <==> forall|i: int|
                0 <= i < self.keys@.len() ==> #[trigger] valid_utf8(self.keys@[i]@),
            r matches Some(ks) ==> ks@.len() == self.keys@.len() && forall|i: int|
                0 <= i < ks@.len() ==> #[trigger] ks@[i]@ == decode_utf8(self.keys@[i]@),
    {
        let mut out: Vec<String> = Vec::new();
        let mut i: usize = 0;
        while i < self.keys.len()
            invariant
                i <= self.keys@.len(),
                out@.len() == i,
                forall|j: int| 0 <= j < i ==> #[trigger] valid_utf8(self.keys@[j]@),
                forall|j: int| 0 <= j < i ==> #[trigger] out@[j]@ == decode_utf8(self.keys@[j]@),
            decreases self.keys@.len() - i,
        {
            match utf8_string(self.keys[i].clone()) {
                Some(s) => out.push(s),
                None => return None,
            }
            i = i + 1;
        }
        Some(out)
    }

    /// The keys attached to the lease, as bytes.
    pub fn raw_keys(&self) -> (r: &[Vec<u8>])
        ensures
            r@ == self.keys@,
    {
        self.keys.as_slice()
    }
}

/// What a keep-alive session yields for each message, failure or end of its
/// stream.
#[derive(Debug, Clone)]
pub enum LeaseInbound {
    /// The answer to the last refresh.
    Ready(LeaseKeepAliveResponse),
    /// The transport failed.
    Interrupted(Error),
    /// The stream is over.
    Closed,
}

/// The session that keeps one lease alive, after the server confirmed it.
/// At most one refresh is in flight at a time: the protocol does not say
/// which request an answer belongs to.
pub struct LeaseKeepAlive {
    id: LeaseId,
    ttl: i64,
    in_flight: bool,
    closed: bool,
}

impl LeaseKeepAlive {
    pub closed spec fn spec_id(&self) -> LeaseId {
        self.id
    }

    /// The time to live of the last answer.
    pub closed spec fn spec_ttl(&self) -> i64 {
        self.ttl
    }

    /// True while a refresh waits for its answer.
    pub closed spec fn spec_in_flight(&self) -> bool {
        self.in_flight
    }

    /// True once the stream ended.
    pub closed spec fn spec_closed(&self) -> bool {
        self.closed
    }

    /// The lease and its time to live that the handshake confirms, or the
    /// error it fails with, when the first answer to a refresh of `requested`
    /// is `first`.
    pub open spec fn spec_open(requested: LeaseId, first: Received<LeaseKeepAliveResponse>) -> Result<
        (LeaseId, i64),
        Error,
    > {
        match first {
            Received::Message(resp) => if resp.id == requested {
                Ok((resp.id, resp.ttl))
            } else {
                Err(Error::KeepAliveLease)
            },
            Received::End => Err(Error::KeepAliveLease),
            Received::Failed(s) => Err(Error::Response(s)),
        }
    }

    /// Ends the handshake of a keep-alive session for the lease `requested`
    /// with the first thing that its stream gave: an answer about that lease
    /// opens the session, whatever its time to live; anything else fails.
    pub fn open(requested: LeaseId, first: Received<LeaseKeepAliveResponse>) -> (r: Result<
        LeaseKeepAlive,
        Error,
    >)
        ensures
            match (r, LeaseKeepAlive::spec_open(requested, first)) {
                (Ok(s), Ok((id, ttl))) => s.spec_id() == id && s.spec_ttl() == ttl
                    && !s.spec_in_flight() && !s.spec_closed(),
                (Err(e), Err(f)) => e == f,
                _ => false,
            },
    {
        match first {
            Received::Message(resp) => {
                if resp.id == requested {
                    Ok(LeaseKeepAlive { id: resp.id, ttl: resp.ttl, in_flight: false, closed: false })
                } else {
                    Err(Error::KeepAliveLease)
                }
            },
            Received::End => Err(Error::KeepAliveLease),
            Received::Failed(s) => Err(Error::Response(s)),
        }
    }

    /// The lease that the session keeps alive.
    pub fn lease_id(&self) -> (r: LeaseId)
        ensures
            r == self.spec_id(),
    {
        self.id
    }

    /// The time to live, in seconds, of the last answer.
    pub fn ttl(&self) -> (r: i64)
        ensures
            r == self.spec_ttl(),
    {
        self.ttl
    }

    /// True once the stream ended.
    pub fn is_closed(&self) -> (r: bool)
        ensures
            r == self.spec_closed(),
    {
        self.closed
    }

    /// True when the last answer said that the lease has expired.
    pub fn is_expired(&self) -> (r: bool)
        ensures
            r == (self.spec_ttl() == 0),
    {
        self.ttl == 0
    }

    /// The refresh to send next. Fails while the last one waits for its
    /// answer, and once the stream ended.
    pub fn keep_alive(&mut self) -> (r: Result<LeaseKeepAliveRequest, Error>)
        ensures
            old(self).spec_closed() ==> r == Err::<LeaseKeepAliveRequest, Error>(
                Error::StaleSession,
            ) && *final(self) == *old(self),
            !old(self).spec_closed() && old(self).spec_in_flight() ==> r == Err::<
                LeaseKeepAliveRequest,
                Error,
            >(Error::KeepAliveInFlight) && *final(self) == *old(self),
            !old(self).spec_closed() && !old(self).spec_in_flight() ==> r == Ok::<
                LeaseKeepAliveRequest,
                Error,
            >(LeaseKeepAliveRequest { id: old(self).spec_id() }) && final(self).spec_in_flight()
                && final(self).spec_id() == old(self).spec_id() && final(self).spec_ttl()
                == old(self).spec_ttl() && !final(self).spec_closed(),
    {
        if self.closed {
            return Err(Error::StaleSession);
        }
        if self.in_flight {
            return Err(Error::KeepAliveInFlight);
        }
        self.in_flight = true;
        Ok(LeaseKeepAliveRequest::new(self.id))
    }

    /// Takes the next thing that the stream gave: an answer is yielded and
    /// its time to live recorded; the end of the stream closes the session;
    /// a failure of the transport interrupts. Once closed, the session yields
    /// `Closed` whatever comes.
    pub fn inbound(&mut self, received: Received<LeaseKeepAliveResponse>) -> (r: LeaseInbound)
        ensures
            final(self).spec_id() == old(self).spec_id(),
            old(self).spec_closed() ==> r == LeaseInbound::Closed && *final(self) == *old(self),
            !old(self).spec_closed() ==> match received {
                Received::Message(resp) => r == LeaseInbound::Ready(resp) && final(self).spec_ttl()
                    == resp.ttl && !final(self).spec_in_flight() && !final(self).spec_closed(),
                Received::End => r == LeaseInbound::Closed && final(self).spec_closed()
                    && final(self).spec_ttl() == old(self).spec_ttl(),
                Received::Failed(s) => r == LeaseInbound::Interrupted(Error::Response(s))
                    && *final(self) == *old(self),
            },
    {
        if self.closed {
            return LeaseInbound::Closed;
        }
        match received {
            Received::Message(resp) => {
                self.in_flight = false;
                self.ttl = resp.ttl;
                LeaseInbound::Ready(resp)
            },
            Received::End => {
                self.closed = true;
                LeaseInbound::Closed
            },
            Received::Failed(s) => LeaseInbound::Interrupted(Error::Response(s)),
        }
    }
}

} // verus!
