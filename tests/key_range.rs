use etcd_rs::KeyRange;

#[test]
fn prefix_increments_last_byte() {
    let r = KeyRange::prefix(b"foo".to_vec());
    assert_eq!(r.key, b"foo".to_vec());
    assert_eq!(r.range_end, b"fop".to_vec());
}

#[test]
fn prefix_of_single_byte() {
    let r = KeyRange::prefix(vec![0x41]);
    assert_eq!(r.key, vec![0x41]);
    assert_eq!(r.range_end, vec![0x42]);
}

#[test]
fn prefix_ending_in_ff_drops_it() {
    let r = KeyRange::prefix(vec![0x61, 0xff]);
    assert_eq!(r.key, vec![0x61, 0xff]);
    assert_eq!(r.range_end, vec![0x62]);
}

#[test]
fn prefix_with_several_trailing_ff() {
    let r = KeyRange::prefix(vec![0x01, 0x7f, 0xff, 0xff, 0xff]);
    assert_eq!(r.range_end, vec![0x01, 0x80]);
}

#[test]
fn empty_prefix_is_all_keys() {
    let p = KeyRange::prefix(vec![]);
    let a = KeyRange::all();
    assert_eq!(p.key, a.key);
    assert_eq!(p.range_end, a.range_end);
    assert_eq!(a.key, vec![0]);
    assert_eq!(a.range_end, vec![0]);
}

#[test]
fn all_ff_prefix_is_open_ended() {
    let r = KeyRange::prefix(vec![0xff]);
    assert_eq!(r.key, vec![0xff]);
    assert_eq!(r.range_end, vec![0x00]);
    let r = KeyRange::prefix(vec![0xff, 0xff, 0xff]);
    assert_eq!(r.range_end, vec![0x00]);
}

#[test]
fn prefix_end_bounds_every_extension() {
    let p = b"foo".to_vec();
    let r = KeyRange::prefix(p.clone());
    for tail in [vec![], vec![0x00], vec![0xff, 0xff], b"/abc".to_vec()] {
        let mut s = p.clone();
        s.extend(tail);
        assert!(s < r.range_end);
    }
    assert!(b"fop".to_vec() >= r.range_end);
}

#[test]
fn key_and_range() {
    let k = KeyRange::key(b"foo".to_vec());
    assert_eq!(k.key, b"foo".to_vec());
    assert!(k.range_end.is_empty());
    let r = KeyRange::range(b"a".to_vec(), b"c".to_vec());
    assert_eq!(r.key, b"a".to_vec());
    assert_eq!(r.range_end, b"c".to_vec());
}
