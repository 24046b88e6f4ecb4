//! Properties of the hash that relate several steps or several calls.
use vstd::prelude::*;
use crate::model::{
    absorb, absorb_body, finalize, lanes_of, le_u64, packets_of, reduce_128,
    reduce_256, reduce_64, spec_finish_128, spec_finish_256, spec_finish_64, spec_hash_128,
    spec_hash_256, spec_hash_64, spec_init, tail_of, Lanes, State,
};

verus! {

/// Mixing packets `p` and then packets `q` is mixing `p + q`.
pub proof fn absorb_concat(s: State, p: Seq<Lanes>, q: Seq<Lanes>)
    ensures
        absorb(s, p + q) == absorb(absorb(s, p), q),
    decreases q.len(),
{
    if q.len() == 0 {
        assert(p + q =~= p);
    } else {
        assert((p + q).drop_last() =~= p + q.drop_last());
        absorb_concat(s, p, q.drop_last());
    }
}

/// The packets of `a + b`, where `a` is whole packets, are those of `a` then those of `b`,
/// and the tail is that of `b`.
pub proof fn packets_concat(a: Seq<u8>, b: Seq<u8>)
    requires
        a.len() % 32 == 0,
    ensures
        packets_of(a + b) == packets_of(a) + packets_of(b),
        tail_of(a + b) == tail_of(b),
{
    let ab = a + b;
    let na = a.len() / 32;
    assert(ab.len() / 32 == na + b.len() / 32);
    assert forall|i: int| 0 <= i < ab.len() / 32 implies #[trigger] packets_of(ab)[i] == (
    packets_of(a) + packets_of(b))[i] by {
        if i < na {
            assert(le_u64(ab, 32 * i) == le_u64(a, 32 * i));
            assert(le_u64(ab, 32 * i + 8) == le_u64(a, 32 * i + 8));
            assert(le_u64(ab, 32 * i + 16) == le_u64(a, 32 * i + 16));
            assert(le_u64(ab, 32 * i + 24) == le_u64(a, 32 * i + 24));
        } else {
            let j = i - na;
            assert(32 * i == a.len() + 32 * j);
            assert(le_u64(ab, 32 * i) == le_u64(b, 32 * j));
            assert(le_u64(ab, 32 * i + 8) == le_u64(b, 32 * j + 8));
            assert(le_u64(ab, 32 * i + 16) == le_u64(b, 32 * j + 16));
            assert(le_u64(ab, 32 * i + 24) == le_u64(b, 32 * j + 24));
        }
    }
    assert(packets_of(ab) =~= packets_of(a) + packets_of(b));
    assert(ab.len() / 32 * 32 == a.len() + b.len() / 32 * 32);
    assert(tail_of(ab) =~= tail_of(b));
}

/// Splitting the input at a packet boundary changes nothing: hashing `a + b`,
/// where `a` is whole packets, is taking in the packets of `a`, then those of
/// `b`, then finishing with the tail of `b`. When `b` is whole packets too,
/// that tail is empty.
pub proof fn split_at_packet_boundary(key: Seq<u64>, a: Seq<u8>, b: Seq<u8>)
    requires
        a.len() % 32 == 0,
    ensures
        spec_hash_64(a + b, key) == spec_finish_64(
            absorb(absorb_body(a, key), packets_of(b)),
            tail_of(b),
        ),
        spec_hash_128(a + b, key) == spec_finish_128(
            absorb(absorb_body(a, key), packets_of(b)),
            tail_of(b),
        ),
        spec_hash_256(a + b, key) == spec_finish_256(
            absorb(absorb_body(a, key), packets_of(b)),
            tail_of(b),
        ),
        b.len() % 32 == 0 ==> tail_of(b) == Seq::<u8>::empty(),
{
    packets_concat(a, b);
    absorb_concat(spec_init(lanes_of(key)), packets_of(a), packets_of(b));
    if b.len() % 32 == 0 {
        assert(tail_of(b) =~= Seq::<u8>::empty());
    }
}

/// The empty input is valid: its hash is the reducer applied to the
/// key's initial state after the finalization rounds alone.
pub proof fn empty_input(key: Seq<u64>)
    ensures
        spec_hash_64(Seq::empty(), key) == reduce_64(finalize(spec_init(lanes_of(key)), 4)),
        spec_hash_128(Seq::empty(), key) == reduce_128(finalize(spec_init(lanes_of(key)), 6)),
        spec_hash_256(Seq::empty(), key) == reduce_256(finalize(spec_init(lanes_of(key)), 10)),
{
    let e = Seq::<u8>::empty();
    assert(packets_of(e) =~= Seq::<Lanes>::empty());
    assert(tail_of(e) =~= e);
}

/// The hash is a function of the input bytes and the key alone.
pub proof fn deterministic(b1: Seq<u8>, k1: Seq<u64>, b2: Seq<u8>, k2: Seq<u64>)
    requires
        b1 == b2,
        k1 == k2,
    ensures
        spec_hash_64(b1, k1) == spec_hash_64(b2, k2),
        spec_hash_128(b1, k1) == spec_hash_128(b2, k2),
        spec_hash_256(b1, k1) == spec_hash_256(b2, k2),
{
}

} // verus!
