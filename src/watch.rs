//! Watches: the requests and responses of the watch RPC, and the state
//! machine of one watch session.
use vstd::prelude::*;

use crate::error::{Error, Received};
use crate::header::ResponseHeader;
use crate::key_range::KeyRange;
use crate::kv::KeyValue;

verus! {

/// The kind of change that an event reports.
#[derive(Debug, Clone, Copy, PartialEq, Eq, Structural)]
pub enum EventType {
    Put,
    Delete,
}

/// The protocol's code of a put event.
pub const EVENT_PUT: i32 = 0;

impl EventType {
    /// The kind that the protocol's code `code` stands for: a put for its
    /// code, a delete for any other.
    pub open spec fn spec_from_code(code: i32) -> EventType {
        if code == EVENT_PUT {
            EventType::Put
        } else {
            EventType::Delete
        }
    }

    /// The kind that the protocol's code `code` stands for.
    pub fn from_code(code: i32) -> (r: EventType)
        ensures
            r == EventType::spec_from_code(code),
    {
        if code == EVENT_PUT {
            EventType::Put
        } else {
            EventType::Delete
        }
    }
}

/// One change to one key.
#[derive(Debug, Clone)]
pub struct Event {
    pub event_type: EventType,
    pub kv: KeyValue,
    pub prev_kv: Option<KeyValue>,
}

impl Event {
    /// The event that the protocol writes as `code`, `kv` and `prev_kv`.
    pub fn from_parts(code: i32, kv: KeyValue, prev_kv: Option<KeyValue>) -> (r: Event)
        ensures
            r.event_type == EventType::spec_from_code(code),
            r.kv == kv,
            r.prev_kv == prev_kv,
    {
        Event { event_type: EventType::from_code(code), kv, prev_kv }
    }
}

/// A kind of event that a watch asks the server not to send.
#[derive(Debug, Clone, Copy, PartialEq, Eq, Structural)]
pub enum WatchFilter {
    /// No put events.
    NoPut,
    /// No delete events.
    NoDelete,
}

impl WatchFilter {
    /// The protocol's code of the filter.
    pub open spec fn spec_code(self) -> i32 {
        match self {
            WatchFilter::NoPut => 0,
            WatchFilter::NoDelete => 1,
        }
    }

    /// The protocol's code of the filter.
    pub fn code(&self) -> (r: i32)
        ensures
            r == self.spec_code(),
    {
        match self {
            WatchFilter::NoPut => 0,
            WatchFilter::NoDelete => 1,
        }
    }
}

/// A request that opens a watch on a range of keys.
#[derive(Debug, Clone)]
pub struct WatchCreateRequest {
    pub key: Vec<u8>,
    pub range_end: Vec<u8>,
    pub start_revision: i64,
    pub progress_notify: bool,
    pub filters: Vec<WatchFilter>,
    pub prev_kv: bool,
}

impl WatchCreateRequest {
    /// Creates a request that watches the keys of `key_range` from now on,
    /// with no option set and no filter.
    pub fn create(key_range: KeyRange) -> (r: Self)
        ensures
            r.key@ == key_range.key@,
            r.range_end@ == key_range.range_end@,
            r.start_revision == 0,
            !r.progress_notify,
            r.filters@.len() == 0,
            !r.prev_kv,
    {
        WatchCreateRequest {
            key: key_range.key,
            range_end: key_range.range_end,
            start_revision: 0,
            progress_notify: false,
            filters: Vec::new(),
            prev_kv: false,
        }
    }

    /// The request, watching from revision `revision` on (inclusive).
    pub fn start_revision(self, revision: i64) -> (r: Self)
        ensures
            r == (WatchCreateRequest { start_revision: revision, ..self }),
    {
        let mut r = self;
        r.start_revision = revision;
        r
    }

    /// The request, asking for progress notifications while no event comes.
    pub fn progress_notify(self) -> (r: Self)
        ensures
            r == (WatchCreateRequest { progress_notify: true, ..self }),
    {
        let mut r = self;
        r.progress_notify = true;
        r
    }

    /// The request, asking for the pair as it was before each event.
    pub fn prev_kv(self) -> (r: Self)
        ensures
            r == (WatchCreateRequest { prev_kv: true, ..self }),
    {
        let mut r = self;
        r.prev_kv = true;
        r
    }

    /// The request, asking the server not to send events of the kind
    /// `filter`.
    pub fn filter(self, filter: WatchFilter) -> (r: Self)
        ensures
            r == (WatchCreateRequest { filters: r.filters, ..self }),
            r.filters@ == self.filters@.push(filter),
    {
        let mut r = self;
        r.filters.push(filter);
        r
    }
}

/// A request that closes a watch.
#[derive(Debug, Clone, Copy, PartialEq, Eq, Structural)]
pub struct WatchCancelRequest {
    pub watch_id: i64,
}

impl WatchCancelRequest {
    /// Creates a request that closes the watch `watch_id`.
    pub fn new(watch_id: i64) -> (r: Self)
        ensures
            r.watch_id == watch_id,
    {
        WatchCancelRequest { watch_id }
    }
}

/// A message sent on a watch stream.
#[derive(Debug)]
pub enum WatchRequest {
    Create(WatchCreateRequest),
    Cancel(WatchCancelRequest),
}

/// A message received on a watch stream.
#[derive(Debug, Clone)]
pub struct WatchResponse {
    pub header: ResponseHeader,
    pub watch_id: i64,
    pub created: bool,
    pub canceled: bool,
    pub events: Vec<Event>,
}

/// What a watch session yields for each message, failure or end of its
/// stream.
#[derive(Debug, Clone)]
pub enum WatchInbound {
    /// A message of the watch.
    Ready(WatchResponse),
    /// The transport failed.
    Interrupted(Error),
    /// The watch is over.
    Closed,
}

/// True when `resp` confirms the creation of a watch and carries no event.
pub open spec fn is_creation_ack(resp: WatchResponse) -> bool {
    resp.created && resp.events@.len() == 0
}

/// True when `resp` confirms the cancellation of a watch and carries no event.
pub open spec fn is_cancel_ack(resp: WatchResponse) -> bool {
    resp.canceled && resp.events@.len() == 0
}

/// The event as a session yields it: with the pair as it was before only
/// when the watch asked for it.
pub open spec fn shown_event(e: Event, prev_kv: bool) -> Event {
    if prev_kv {
        e
    } else {
        Event { prev_kv: None, ..e }
    }
}

/// True when `out` is the message `resp` as a session yields it: the same
/// message, with each event shown as `shown_event` says.
pub open spec fn shown(resp: WatchResponse, out: WatchResponse, prev_kv: bool) -> bool {
    &&& out.header == resp.header
    &&& out.watch_id == resp.watch_id
    &&& out.created == resp.created
    &&& out.canceled == resp.canceled
    &&& out.events@ == resp.events@.map_values(|e: Event| shown_event(e, prev_kv))
}

/// Whether a session is closed after it takes `received`, closed before or not.
pub open spec fn step_closed(closed: bool, received: Received<WatchResponse>) -> bool {
    closed || match received {
        Received::Message(resp) => is_cancel_ack(resp),
        Received::End => true,
        Received::Failed(_) => false,
    }
}

/// True when `out` is what a session yields for `received`, closed before or
/// not, where the watch asked for the previous pairs or not: `Closed` once
/// closed, and for the confirmation of a cancellation or the end of the
/// stream; an interruption for a failure of the transport; any other message
/// as `shown` says.
pub open spec fn step_out(
    closed: bool,
    prev_kv: bool,
    received: Received<WatchResponse>,
    out: WatchInbound,
) -> bool {
    if step_closed(closed, received) {
        out is Closed
    } else {
        match received {
            Received::Message(resp) => out matches WatchInbound::Ready(o) && shown(resp, o, prev_kv),
            Received::Failed(s) => out == WatchInbound::Interrupted(Error::Response(s)),
            Received::End => false,
        }
    }
}

/// Whether a session is closed after it takes each of `received` in order.
pub open spec fn deliver_closed(closed: bool, received: Seq<Received<WatchResponse>>) -> bool
    decreases received.len(),
{
    if received.len() == 0 {
        closed
    } else {
        step_closed(deliver_closed(closed, received.drop_last()), received.last())
    }
}

/// True when `outs` is what a session yields, one for each of `received` in
/// order.
pub open spec fn delivered(
    closed: bool,
    prev_kv: bool,
    received: Seq<Received<WatchResponse>>,
    outs: Seq<WatchInbound>,
) -> bool
    decreases received.len(),
{
    if received.len() == 0 {
        outs.len() == 0
    } else {
        &&& outs.len() == received.len()
        &&& delivered(closed, prev_kv, received.drop_last(), outs.drop_last())
        &&& step_out(
            deliver_closed(closed, received.drop_last()),
            prev_kv,
            received.last(),
            outs.last(),
        )
    }
}

/// The message `resp`, with its previous pairs dropped unless `prev_kv`.
fn show(resp: WatchResponse, prev_kv: bool) -> (out: WatchResponse)
    ensures
        shown(resp, out, prev_kv),
{
    if prev_kv {
        assert(resp.events@.map_values(|e: Event| shown_event(e, prev_kv)) =~= resp.events@);
        return resp;
    }
    let ghost all = resp.events@;
    let WatchResponse { header, watch_id, created, canceled, events } = resp;
    let mut rest = events;
    let mut out: Vec<Event> = Vec::new();
    let n = rest.len();
    let mut i: usize = 0;
    while rest.len() > 0
        invariant
            all.len() == n,
            i + rest@.len() == n,
            rest@ == all.subrange(i as int, n as int),
            out@ == all.subrange(0, i as int).map_values(|e: Event| shown_event(e, false)),
        decreases rest@.len(),
    {
        let e = rest.remove(0);
        let Event { event_type, kv, prev_kv: _ } = e;
        out.push(Event { event_type, kv, prev_kv: None });
        i = i + 1;
        assert(all.subrange(0, i as int) =~= all.subrange(0, i - 1).push(all[i - 1]));
        assert(out@ =~= all.subrange(0, i as int).map_values(|e: Event| shown_event(e, false)));
    }
    assert(all.subrange(0, n as int) =~= all);
    WatchResponse { header, watch_id, created, canceled, events: out }
}

/// The session of one watch, after its creation was confirmed.
pub struct WatchStream {
    watch_id: i64,
    prev_kv: bool,
    canceled: bool,
    closed: bool,
}

impl WatchStream {
    /// The identifier that the server gave the watch.
    pub closed spec fn spec_watch_id(&self) -> i64 {
        self.watch_id
    }

    /// True when the watch asked for the pairs as they were before each event.
    pub closed spec fn spec_prev_kv(&self) -> bool {
        self.prev_kv
    }

    /// True once `cancel` was called.
    pub closed spec fn spec_canceled(&self) -> bool {
        self.canceled
    }

    /// True once the session yielded `Closed`.
    pub closed spec fn spec_closed(&self) -> bool {
        self.closed
    }

    /// The outcome of the handshake whose first answer was `first`.
    pub open spec fn spec_open(first: Received<WatchResponse>) -> Result<i64, Error> {
        match first {
            Received::Message(resp) => if is_creation_ack(resp) {
                Ok(resp.watch_id)
            } else {
                Err(Error::CreateWatch)
            },
            Received::End => Err(Error::CreateWatch),
            Received::Failed(s) => Err(Error::Response(s)),
        }
    }

    /// The request that opens a watch, to send before anything else on a new
    /// stream.
    pub fn create_request(req: WatchCreateRequest) -> (r: WatchRequest)
        ensures
            r == WatchRequest::Create(req),
    {
        WatchRequest::Create(req)
    }

    /// Ends the handshake of the watch that `req` opened with the first thing
    /// that its stream gave: a message that confirms the creation and carries
    /// no event opens the session; anything else fails.
    pub fn open(req: &WatchCreateRequest, first: Received<WatchResponse>) -> (r: Result<
        WatchStream,
        Error,
    >)
        ensures
            match (r, WatchStream::spec_open(first)) {
                (Ok(s), Ok(id)) => s.spec_watch_id() == id && s.spec_prev_kv() == req.prev_kv
                    && !s.spec_canceled() && !s.spec_closed(),
                (Err(e), Err(f)) => e == f,
                _ => false,
            },
    {
        match first {
            Received::Message(resp) => {
                if resp.created && resp.events.len() == 0 {
                    Ok(
                        WatchStream {
                            watch_id: resp.watch_id,
                            prev_kv: req.prev_kv,
                            canceled: false,
                            closed: false,
                        },
                    )
                } else {
                    Err(Error::CreateWatch)
                }
            },
            Received::End => Err(Error::CreateWatch),
            Received::Failed(s) => Err(Error::Response(s)),
        }
    }

    /// The identifier that the server gave the watch.
    pub fn watch_id(&self) -> (r: i64)
        ensures
            r == self.spec_watch_id(),
    {
        self.watch_id
    }

    /// True once the session yielded `Closed`.
    pub fn is_closed(&self) -> (r: bool)
        ensures
            r == self.spec_closed(),
    {
        self.closed
    }

    /// Takes the next thing that the stream gave: a message is yielded as
    /// it came, its previous pairs dropped unless the watch asked for them,
    /// but for the confirmation of a cancellation, which closes the session,
    /// as the end of the stream does; a failure of the transport interrupts.
    /// Once closed, the session yields `Closed` whatever comes.
    pub fn inbound(&mut self, received: Received<WatchResponse>) -> (r: WatchInbound)
        ensures
            step_out(old(self).spec_closed(), old(self).spec_prev_kv(), received, r),
            final(self).spec_closed() == step_closed(old(self).spec_closed(), received),
            final(self).spec_watch_id() == old(self).spec_watch_id(),
            final(self).spec_prev_kv() == old(self).spec_prev_kv(),
            final(self).spec_canceled() == old(self).spec_canceled(),
    {
        if self.closed {
            return WatchInbound::Closed;
        }
        match received {
            Received::Message(resp) => {
                if resp.canceled && resp.events.len() == 0 {
                    self.closed = true;
                    WatchInbound::Closed
                } else {
                    WatchInbound::Ready(show(resp, self.prev_kv))
                }
            },
            Received::End => {
                self.closed = true;
                WatchInbound::Closed
            },
            Received::Failed(s) => WatchInbound::Interrupted(Error::Response(s)),
        }
    }

    /// The request that cancels the watch, to send on the stream that opened
    /// it. A session can be cancelled once, and not once it is closed.
    pub fn cancel(&mut self) -> (r: Result<WatchRequest, Error>)
        ensures
            old(self).spec_canceled() || old(self).spec_closed() ==> r == Err::<WatchRequest, Error>(
                Error::StaleSession,
            ) && *final(self) == *old(self),
            !old(self).spec_canceled() && !old(self).spec_closed() ==> r == Ok::<
                WatchRequest,
                Error,
            >(WatchRequest::Cancel(WatchCancelRequest { watch_id: old(self).spec_watch_id() }))
                && final(self).spec_canceled() && !final(self).spec_closed()
                && final(self).spec_watch_id() == old(self).spec_watch_id()
                && final(self).spec_prev_kv() == old(self).spec_prev_kv(),
    {
        if self.canceled || self.closed {
            return Err(Error::StaleSession);
        }
        self.canceled = true;
        Ok(WatchRequest::Cancel(WatchCancelRequest::new(self.watch_id)))
    }

    /// Takes the things that the stream gave, in order, and yields what
    /// `inbound` yields for each.
    pub fn inbound_all(&mut self, received: Vec<Received<WatchResponse>>) -> (r: Vec<WatchInbound>)
        ensures
            delivered(old(self).spec_closed(), old(self).spec_prev_kv(), received@, r@),
            final(self).spec_closed() == deliver_closed(old(self).spec_closed(), received@),
            final(self).spec_watch_id() == old(self).spec_watch_id(),
            final(self).spec_prev_kv() == old(self).spec_prev_kv(),
            final(self).spec_canceled() == old(self).spec_canceled(),
    {
        let ghost all = received@;
        let ghost start = self.spec_closed();
        let mut rest = received;
        let mut out: Vec<WatchInbound> = Vec::new();
        let n = rest.len();
        let mut i: usize = 0;
        assert(all.subrange(0, 0) =~= Seq::<Received<WatchResponse>>::empty());
        while rest.len() > 0
            invariant
                all.len() == n,
                i + rest@.len() == n,
                rest@ == all.subrange(i as int, n as int),
                delivered(start, self.spec_prev_kv(), all.subrange(0, i as int), out@),
                self.spec_closed() == deliver_closed(start, all.subrange(0, i as int)),
                self.spec_watch_id() == old(self).spec_watch_id(),
                self.spec_prev_kv() == old(self).spec_prev_kv(),
                self.spec_canceled() == old(self).spec_canceled(),
            decreases rest@.len(),
        {
            let next = rest.remove(0);
            let ghost before = out@;
            let o = self.inbound(next);
            out.push(o);
            i = i + 1;
            let ghost done = all.subrange(0, i as int);
            assert(done.drop_last() =~= all.subrange(0, i - 1));
            assert(done.last() == next);
            assert(out@.drop_last() =~= before);
        }
        assert(all.subrange(0, n as int) =~= all);
        out
    }
}

/// True when `m` is a message that carries exactly one event and is no
/// cancellation.
pub open spec fn is_single_event(m: Received<WatchResponse>) -> bool {
    match m {
        Received::Message(resp) => resp.events@.len() == 1 && !resp.canceled,
        _ => false,
    }
}

/// Once a session takes the confirmation of its cancellation it yields
/// `Closed`, and it yields `Closed` again for whatever comes next.
pub proof fn law_cancel_ack_closes(
    closed: bool,
    prev_kv: bool,
    ack: WatchResponse,
    out: WatchInbound,
    next: Received<WatchResponse>,
    again: WatchInbound,
)
    requires
        is_cancel_ack(ack),
        step_out(closed, prev_kv, Received::Message(ack), out),
        step_out(step_closed(closed, Received::Message(ack)), prev_kv, next, again),
    ensures
        out is Closed,
        step_closed(closed, Received::Message(ack)),
        again is Closed,
        step_closed(step_closed(closed, Received::Message(ack)), next),
{
}

/// An open session yields the messages of its stream that carry one event
/// each as they came: one `Ready` for each, in the same order, holding the
/// same events, and it stays open.
pub proof fn law_events_delivered_in_order(
    prev_kv: bool,
    received: Seq<Received<WatchResponse>>,
    outs: Seq<WatchInbound>,
)
    requires
        forall|i: int| 0 <= i < received.len() ==> #[trigger] is_single_event(received[i]),
        delivered(false, prev_kv, received, outs),
    ensures
        outs.len() == received.len(),
        !deliver_closed(false, received),
        forall|i: int|
            0 <= i < received.len() ==> (#[trigger] outs[i] is Ready) && shown(
                received[i]->Message_0,
                outs[i]->Ready_0,
                prev_kv,
            ),
    decreases received.len(),
{
    if received.len() > 0 {
        let front = received.drop_last();
        assert forall|i: int| 0 <= i < front.len() implies #[trigger] is_single_event(front[i]) by {
            assert(front[i] == received[i]);
            assert(is_single_event(received[i]));
        }
        law_events_delivered_in_order(prev_kv, front, outs.drop_last());
        assert(is_single_event(received[received.len() - 1]));
        assert forall|i: int| 0 <= i < received.len() implies (#[trigger] outs[i] is Ready) && shown(
            received[i]->Message_0,
            outs[i]->Ready_0,
            prev_kv,
        ) by {
            if i < received.len() - 1 {
                assert(outs[i] == outs.drop_last()[i]);
                assert(received[i] == front[i]);
            }
        }
    }
}

} // verus!
