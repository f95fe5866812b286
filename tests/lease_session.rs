use etcd_rs::{
    Error, LeaseInbound, LeaseKeepAlive, LeaseKeepAliveResponse, Received, ResponseHeader, Status,
};

fn answer(id: i64, ttl: i64) -> Received<LeaseKeepAliveResponse> {
    Received::Message(LeaseKeepAliveResponse {
        header: ResponseHeader { cluster_id: 0, member_id: 0, revision: 0, raft_term: 0 },
        id,
        ttl,
    })
}

#[test]
fn zero_ttl_opens_and_reports_expired() {
    let s = LeaseKeepAlive::open(7, answer(7, 0)).unwrap();
    assert_eq!(s.lease_id(), 7);
    assert_eq!(s.ttl(), 0);
    assert!(s.is_expired());
}

#[test]
fn open_rejects_another_lease() {
    assert!(matches!(LeaseKeepAlive::open(7, answer(8, 10)), Err(Error::KeepAliveLease)));
    assert!(matches!(LeaseKeepAlive::open(7, Received::End), Err(Error::KeepAliveLease)));
    let st = Status { code: 5, message: "lease not found".to_string() };
    assert!(matches!(LeaseKeepAlive::open(7, Received::Failed(st)), Err(Error::Response(_))));
}

#[test]
fn one_refresh_in_flight() {
    let mut s = LeaseKeepAlive::open(3, answer(3, 10)).unwrap();
    assert!(!s.is_expired());
    let req = s.keep_alive().unwrap();
    assert_eq!(req.id, 3);
    assert!(matches!(s.keep_alive(), Err(Error::KeepAliveInFlight)));
    match s.inbound(answer(3, 9)) {
        LeaseInbound::Ready(r) => assert_eq!(r.ttl, 9),
        _ => panic!("expected an answer"),
    }
    assert_eq!(s.ttl(), 9);
    assert!(s.keep_alive().is_ok());
    assert!(matches!(s.inbound(answer(3, 0)), LeaseInbound::Ready(_)));
    assert!(s.is_expired());
}

#[test]
fn end_closes_the_session() {
    let mut s = LeaseKeepAlive::open(3, answer(3, 10)).unwrap();
    let st = Status { code: 14, message: "gone".to_string() };
    assert!(matches!(s.inbound(Received::Failed(st)), LeaseInbound::Interrupted(_)));
    assert!(matches!(s.inbound(Received::End), LeaseInbound::Closed));
    assert!(matches!(s.inbound(answer(3, 5)), LeaseInbound::Closed));
    assert!(matches!(s.keep_alive(), Err(Error::StaleSession)));
}
