//! The key-range codec: turns a key, a pair of bounds or a key prefix into the
//! `(key, range_end)` pair that the store's protocol expects.
use vstd::prelude::*;

verus! {

/// True when `a` and `b` hold the same bytes at every index below `j`.
pub open spec fn agree_upto(a: Seq<u8>, b: Seq<u8>, j: int) -> bool {
    forall|k: int| 0 <= k < j ==> a[k] == b[k]
}

/// Strict lexicographic order on byte strings: `a` is a proper prefix of `b`,
/// or at the first index where they differ `a` holds the smaller byte.
pub open spec fn lex_lt(a: Seq<u8>, b: Seq<u8>) -> bool {
    ||| (a.len() < b.len() && agree_upto(a, b, a.len() as int))
    ||| exists|j: int| 0 <= j < a.len() && j < b.len() && agree_upto(a, b, j) && a[j] < b[j]
}

/// True when `s` starts with `p`.
pub open spec fn starts_with(s: Seq<u8>, p: Seq<u8>) -> bool {
    p.len() <= s.len() && agree_upto(s, p, p.len() as int)
}

/// True when every byte of `p` from index `i` on is `0xFF`.
pub open spec fn all_ff_from(p: Seq<u8>, i: int) -> bool {
    forall|k: int| i <= k < p.len() ==> p[k] == 0xFFu8
}

/// The upper bound of a prefix: drop the trailing `0xFF` bytes and add one to
/// the last byte left. Empty when every byte is `0xFF`.
pub open spec fn prefix_bound(p: Seq<u8>) -> Seq<u8>
    decreases p.len(),
{
    if p.len() == 0 {
        Seq::empty()
    } else if p.last() < 0xFFu8 {
        p.drop_last().push((p.last() + 1) as u8)
    } else {
        prefix_bound(p.drop_last())
    }
}

/// The `range_end` that marks a range as open above: `[0x00]`.
pub open spec fn open_end() -> Seq<u8> {
    seq![0u8]
}

/// The `range_end` that `KeyRange::prefix` gives for a non-empty prefix.
pub open spec fn prefix_range_end(p: Seq<u8>) -> Seq<u8> {
    if all_ff_from(p, 0) {
        open_end()
    } else {
        prefix_bound(p)
    }
}

/// A key or a range of keys, as the protocol writes it: a single key when
/// `range_end` is empty, the keys in `[key, range_end)` otherwise, and every
/// key from `key` on when `range_end` is `[0x00]`.
#[derive(Clone, Debug, Hash, PartialEq, Eq)]
pub struct KeyRange {
    pub key: Vec<u8>,
    pub range_end: Vec<u8>,
}

impl KeyRange {
    /// The bytes of the range that covers every key.
    pub open spec fn spec_all_key() -> Seq<u8> {
        seq![0u8]
    }

    /// The key that `KeyRange::prefix` gives for `p`.
    pub open spec fn spec_prefix_key(p: Seq<u8>) -> Seq<u8> {
        if p.len() == 0 {
            Self::spec_all_key()
        } else {
            p
        }
    }

    /// The range end that `KeyRange::prefix` gives for `p`.
    pub open spec fn spec_prefix_end(p: Seq<u8>) -> Seq<u8> {
        if p.len() == 0 {
            open_end()
        } else {
            prefix_range_end(p)
        }
    }

    /// Creates a range of the keys in `[key, range_end)`.
    pub fn range(key: Vec<u8>, range_end: Vec<u8>) -> (r: Self)
        ensures
            r.key@ == key@,
            r.range_end@ == range_end@,
    {
        KeyRange { key, range_end }
    }

    /// Creates a range that holds the single key `key`.
    pub fn key(key: Vec<u8>) -> (r: Self)
        ensures
            r.key@ == key@,
            r.range_end@ == Seq::<u8>::empty(),
    {
        KeyRange { key, range_end: Vec::new() }
    }

    /// Creates the range of all keys.
    pub fn all() -> (r: Self)
        ensures
            r.key@ == Self::spec_all_key(),
            r.range_end@ == open_end(),
    {
        let r = KeyRange { key: vec![0u8], range_end: vec![0u8] };
        assert(r.key@ =~= Self::spec_all_key());
        assert(r.range_end@ =~= open_end());
        r
    }

    /// Creates the range of the keys that start with `prefix`. An empty prefix
    /// gives the range of all keys; a prefix of `0xFF` bytes alone gives a
    /// range open above.
    pub fn prefix(prefix: Vec<u8>) -> (r: Self)
        ensures
            r.key@ == Self::spec_prefix_key(prefix@),
            r.range_end@ == Self::spec_prefix_end(prefix@),
    {
        if prefix.len() == 0 {
            return KeyRange::all();
        }
        let mut end = prefix.clone();
        let mut i: usize = end.len();
        while i > 0
            invariant
                i <= end@.len(),
                end@ == prefix@,
                all_ff_from(prefix@, i as int),
            decreases i,
        {
            let j = i - 1;
            if end[j] < 0xFFu8 {
                proof {
                    lemma_prefix_bound_at(prefix@, j as int);
                }
                let b = end[j] + 1;
                end.set(j, b);
                end.truncate(j + 1);
                assert(end@ =~= prefix@.subrange(0, j as int).push(b));
                return KeyRange { key: prefix, range_end: end };
            }
            i = j;
        }
        let open = vec![0u8];
        assert(open@ =~= open_end());
        KeyRange { key: prefix, range_end: open }
    }
}

/// Where `p[i]` is the last byte below `0xFF`, the bound is `p[..i]` followed
/// by `p[i] + 1`.
pub proof fn lemma_prefix_bound_at(p: Seq<u8>, i: int)
    requires
        0 <= i < p.len(),
        p[i] < 0xFFu8,
        all_ff_from(p, i + 1),
    ensures
        prefix_bound(p) == p.subrange(0, i).push((p[i] + 1) as u8),
        !all_ff_from(p, 0),
    decreases p.len(),
{
    if i == p.len() - 1 {
        assert(p.drop_last() =~= p.subrange(0, i));
    } else {
        let q = p.drop_last();
        assert(p.last() == 0xFFu8);
        lemma_prefix_bound_at(q, i);
        assert(q.subrange(0, i) =~= p.subrange(0, i));
    }
}

/// The index of the last byte below `0xFF` in a prefix that has one.
pub proof fn lemma_last_below_ff(p: Seq<u8>) -> (i: int)
    requires
        !all_ff_from(p, 0),
    ensures
        0 <= i < p.len(),
        p[i] < 0xFFu8,
        all_ff_from(p, i + 1),
    decreases p.len(),
{
    if p.len() == 0 {
        assert(false);
        0
    } else if p.last() < 0xFFu8 {
        (p.len() - 1) as int
    } else {
        let q = p.drop_last();
        let k = choose|k: int| 0 <= k < p.len() && p[k] != 0xFFu8;
        assert(q[k] != 0xFFu8);
        let i = lemma_last_below_ff(q);
        assert forall|m: int| i + 1 <= m < p.len() implies p[m] == 0xFFu8 by {
            if m < q.len() {
                assert(q[m] == p[m]);
            }
        }
        i
    }
}

/// The string `p` followed by `n` bytes `0xFF`.
pub open spec fn pad_ff(p: Seq<u8>, n: nat) -> Seq<u8> {
    p + Seq::new(n, |k: int| 0xFFu8)
}

/// For a non-empty prefix `p` whose bytes are not all `0xFF`, the range end
/// that `KeyRange::prefix` gives is the least byte string above every string
/// that starts with `p`: every such string lies below it, and for any string
/// `t` below it some string that starts with `p` does not lie below `t`.
pub proof fn law_prefix_end_is_least_upper_bound(p: Seq<u8>)
    requires
        p.len() > 0,
        !all_ff_from(p, 0),
    ensures
        forall|s: Seq<u8>| starts_with(s, p) ==> lex_lt(s, KeyRange::spec_prefix_end(p)),
        forall|t: Seq<u8>|
            lex_lt(t, KeyRange::spec_prefix_end(p)) ==> exists|s: Seq<u8>|
                starts_with(s, p) && !lex_lt(s, t),
{
    let i = lemma_last_below_ff(p);
    lemma_prefix_bound_at(p, i);
    let end = prefix_range_end(p);
    assert(end == p.subrange(0, i).push((p[i] + 1) as u8));
    assert(end.len() == i + 1);
    assert forall|s: Seq<u8>| starts_with(s, p) implies lex_lt(s, end) by {
        assert(agree_upto(s, end, i));
        assert(s[i] == p[i]);
        assert(s[i] < end[i]);
    }
    assert forall|t: Seq<u8>| lex_lt(t, end) implies exists|s: Seq<u8>|
        starts_with(s, p) && !lex_lt(s, t) by {
        let s = pad_ff(p, t.len());
        assert(starts_with(s, p));
        assert forall|k: int| 0 <= k < i implies s[k] == end[k] by {}
        if t.len() < end.len() && agree_upto(t, end, t.len() as int) {
            assert forall|j: int| 0 <= j < s.len() && j < t.len() implies s[j] == t[j] by {
                assert(s[j] == end[j]);
            }
        } else {
            let j0 = choose|j: int|
                0 <= j < t.len() && j < end.len() && agree_upto(t, end, j) && t[j] < end[j];
            assert forall|j: int| 0 <= j < j0 implies s[j] == t[j] by {
                assert(s[j] == end[j]);
            }
            if j0 < i || t[j0] < p[j0] {
                assert(t[j0] < s[j0]);
                assert forall|j: int|
                    0 <= j < s.len() && j < t.len() && agree_upto(s, t, j) implies !(s[j]
                    < t[j]) by {
                    if j > j0 {
                        assert(s[j0] == t[j0]);
                    }
                }
            } else {
                assert forall|j: int|
                    0 <= j < s.len() && j < t.len() && agree_upto(s, t, j) implies !(s[j]
                    < t[j]) by {
                    if j > i {
                        assert(s[j] == 0xFFu8);
                    }
                }
            }
        }
        assert(!lex_lt(s, t));
    }
}

/// An empty prefix gives the same range as `KeyRange::all`.
pub proof fn law_empty_prefix_is_all()
    ensures
        KeyRange::spec_prefix_key(Seq::empty()) == KeyRange::spec_all_key(),
        KeyRange::spec_prefix_end(Seq::empty()) == open_end(),
{
}

/// A non-empty prefix of `0xFF` bytes alone gives a range with no finite
/// upper bound.
pub proof fn law_all_ff_prefix_is_open_ended(p: Seq<u8>)
    requires
        p.len() > 0,
        all_ff_from(p, 0),
    ensures
        KeyRange::spec_prefix_end(p) == open_end(),
{
}

} // verus!
