use etcd_rs::{
    Error, Event, EventType, KeyRange, KeyValue, Received, ResponseHeader, Status,
    WatchCreateRequest, WatchFilter, WatchInbound, WatchRequest, WatchResponse, WatchStream,
};

fn header() -> ResponseHeader {
    ResponseHeader { cluster_id: 1, member_id: 2, revision: 3, raft_term: 4 }
}

fn kv(key: &[u8], value: &[u8]) -> KeyValue {
    KeyValue {
        key: key.to_vec(),
        value: value.to_vec(),
        create_revision: 1,
        mod_revision: 1,
        version: 1,
        lease: 0,
    }
}

fn response(watch_id: i64, created: bool, canceled: bool, events: Vec<Event>) -> WatchResponse {
    WatchResponse { header: header(), watch_id, created, canceled, events }
}

fn put(key: &[u8], value: &[u8]) -> Event {
    Event::from_parts(0, kv(key, value), None)
}

fn delete(key: &[u8]) -> Event {
    Event::from_parts(1, kv(key, b""), None)
}

fn request() -> WatchCreateRequest {
    WatchCreateRequest::create(KeyRange::prefix(b"foo".to_vec()))
}

fn opened(id: i64) -> WatchStream {
    WatchStream::open(&request(), Received::Message(response(id, true, false, vec![]))).unwrap()
}

#[test]
fn open_rejects_not_created() {
    let r = WatchStream::open(&request(), Received::Message(response(1, false, false, vec![])));
    assert!(matches!(r, Err(Error::CreateWatch)));
}

#[test]
fn open_rejects_created_with_events() {
    let r = WatchStream::open(&request(), Received::Message(response(1, true, false, vec![put(b"a", b"1")])));
    assert!(matches!(r, Err(Error::CreateWatch)));
}

#[test]
fn open_rejects_end_and_failure() {
    assert!(matches!(WatchStream::open(&request(), Received::End), Err(Error::CreateWatch)));
    let st = Status { code: 14, message: "unavailable".to_string() };
    match WatchStream::open(&request(), Received::Failed(st.clone())) {
        Err(Error::Response(s)) => assert_eq!(s, st),
        _ => panic!("expected the transport's status"),
    }
}

#[test]
fn open_takes_the_server_watch_id() {
    let s = opened(42);
    assert_eq!(s.watch_id(), 42);
    assert!(!s.is_closed());
}

#[test]
fn cancel_then_ack_closes_for_good() {
    let mut s = opened(9);
    match s.cancel() {
        Ok(WatchRequest::Cancel(c)) => assert_eq!(c.watch_id, 9),
        _ => panic!("expected a cancel request"),
    }
    assert!(matches!(s.cancel(), Err(Error::StaleSession)));
    let out = s.inbound(Received::Message(response(9, false, true, vec![])));
    assert!(matches!(out, WatchInbound::Closed));
    assert!(s.is_closed());
    let again = s.inbound(Received::Message(response(9, false, false, vec![put(b"x", b"y")])));
    assert!(matches!(again, WatchInbound::Closed));
    assert!(matches!(s.inbound(Received::End), WatchInbound::Closed));
}

#[test]
fn end_of_stream_closes_and_failure_interrupts() {
    let mut s = opened(1);
    let st = Status { code: 2, message: "boom".to_string() };
    match s.inbound(Received::Failed(st.clone())) {
        WatchInbound::Interrupted(Error::Response(x)) => assert_eq!(x, st),
        _ => panic!("expected an interruption"),
    }
    assert!(!s.is_closed());
    assert!(matches!(s.inbound(Received::End), WatchInbound::Closed));
    assert!(matches!(s.cancel(), Err(Error::StaleSession)));
}

#[test]
fn events_come_in_order() {
    let mut s = opened(5);
    let msgs = vec![
        Received::Message(response(5, false, false, vec![put(b"a", b"1")])),
        Received::Message(response(5, false, false, vec![put(b"b", b"2")])),
        Received::Message(response(5, false, false, vec![delete(b"a")])),
    ];
    let out = s.inbound_all(msgs);
    let mut seen = Vec::new();
    for o in out {
        match o {
            WatchInbound::Ready(resp) => {
                assert_eq!(resp.events.len(), 1);
                let e = &resp.events[0];
                seen.push((e.event_type.clone(), e.kv.key.clone(), e.kv.value.clone()));
            }
            _ => panic!("expected a message"),
        }
    }
    assert_eq!(
        seen,
        vec![
            (EventType::Put, b"a".to_vec(), b"1".to_vec()),
            (EventType::Put, b"b".to_vec(), b"2".to_vec()),
            (EventType::Delete, b"a".to_vec(), b"".to_vec()),
        ]
    );
}

#[test]
fn event_codes() {
    assert_eq!(EventType::from_code(0), EventType::Put);
    assert_eq!(EventType::from_code(1), EventType::Delete);
    let e = Event::from_parts(1, kv(b"k", b"v"), Some(kv(b"k", b"old")));
    assert_eq!(e.event_type, EventType::Delete);
    assert_eq!(e.prev_kv.unwrap().value, b"old".to_vec());
}

/// A store that sends an event to the watch for each change of a key in the
/// watched range.
fn in_range(range: &KeyRange, key: &[u8]) -> bool {
    key >= range.key.as_slice() && (range.range_end == vec![0] || key < range.range_end.as_slice())
}

#[test]
fn watch_prefix_end_to_end() {
    let range = KeyRange::prefix(b"foo".to_vec());
    let create = WatchStream::create_request(WatchCreateRequest::create(range.clone()));
    assert!(matches!(create, WatchRequest::Create(ref c) if c.key == b"foo".to_vec()
        && c.range_end == b"fop".to_vec()));
    let mut s = opened(3);
    let ops: Vec<(bool, &[u8], &[u8])> = vec![
        (true, b"foo1", b"bar1"),
        (true, b"bar", b"x"),
        (true, b"foo2", b"bar2"),
        (true, b"bar", b"y"),
        (true, b"foo2", b"bar3"),
        (false, b"foo1", b""),
        (false, b"bar", b""),
    ];
    let mut stream = Vec::new();
    for (is_put, key, value) in &ops {
        if in_range(&range, key) {
            let e = if *is_put { put(key, value) } else { delete(key) };
            stream.push(Received::Message(response(3, false, false, vec![e])));
        }
    }
    let mut seen = Vec::new();
    for o in s.inbound_all(stream) {
        match o {
            WatchInbound::Ready(resp) => {
                for e in resp.events {
                    seen.push((e.event_type, String::from_utf8(e.kv.key).unwrap()));
                }
            }
            _ => panic!("expected a message"),
        }
    }
    assert_eq!(
        seen,
        vec![
            (EventType::Put, "foo1".to_string()),
            (EventType::Put, "foo2".to_string()),
            (EventType::Put, "foo2".to_string()),
            (EventType::Delete, "foo1".to_string()),
        ]
    );
    assert!(s.cancel().is_ok());
    let out = s.inbound(Received::Message(response(3, false, true, vec![])));
    assert!(matches!(out, WatchInbound::Closed));
}

#[test]
fn create_request_builders() {
    let r = WatchCreateRequest::create(KeyRange::key(b"k".to_vec()))
        .start_revision(12)
        .progress_notify()
        .prev_kv()
        .filter(WatchFilter::NoPut)
        .filter(WatchFilter::NoDelete);
    assert_eq!(r.filters, vec![WatchFilter::NoPut, WatchFilter::NoDelete]);
    assert_eq!((WatchFilter::NoPut.code(), WatchFilter::NoDelete.code()), (0, 1));
    assert_eq!(r.key, b"k".to_vec());
    assert!(r.range_end.is_empty());
    assert_eq!(r.start_revision, 12);
    assert!(r.progress_notify);
    assert!(r.prev_kv);
}

#[test]
fn previous_pairs_only_when_asked() {
    let with_prev = |asked: bool| {
        let req = if asked { request().prev_kv() } else { request() };
        let mut s =
            WatchStream::open(&req, Received::Message(response(1, true, false, vec![]))).unwrap();
        let e = Event::from_parts(0, kv(b"foo1", b"new"), Some(kv(b"foo1", b"old")));
        match s.inbound(Received::Message(response(1, false, false, vec![e]))) {
            WatchInbound::Ready(resp) => resp.events[0].prev_kv.clone(),
            _ => panic!("expected a message"),
        }
    };
    assert!(with_prev(false).is_none());
    assert_eq!(with_prev(true).unwrap().value, b"old".to_vec());
}
