//! The hash engine and the one-shot hash functions.
use vstd::prelude::*;
use crate::lanes::{modular_reduction, permute, read_packet, zipper_merge};
use crate::model::{
    absorb, absorb_body, absorb_tail, finalize, init_c0, init_c1, lanes_of, packet_at, packets_of,
    reduce_128, reduce_256, spec_finish_128, spec_finish_256, spec_finish_64, spec_hash_128,
    spec_hash_256, spec_hash_64, spec_init, spec_update, splat, tail_of, zero_padded, Lanes, State,
};

verus! {

/// A key and the bytes to hash under it.
#[derive(Clone, Debug)]
pub struct Input {
    pub key: [u64; 4],
    pub data: Vec<u8>,
}

/// A hash instance: the four registers of the mixing state.
#[derive(Clone, Copy, Debug)]
pub struct AutobahnHasher {
    v0: Lanes,
    v1: Lanes,
    mul0: Lanes,
    mul1: Lanes,
}

impl View for AutobahnHasher {
    type V = State;

    closed spec fn view(&self) -> State {
        State { v0: self.v0, v1: self.v1, mul0: self.mul0, mul1: self.mul1 }
    }
}

impl Default for AutobahnHasher {
    fn default() -> (r: Self)
        ensures
            r@ == spec_init(splat(0)),
    {
        Self::new()
    }
}

impl AutobahnHasher {
    /// Creates a hasher with the all-zero key.
    pub fn new() -> (r: Self)
        ensures
            r@ == spec_init(splat(0)),
    {
        let key: [u64; 4] = [0; 4];
        assert(lanes_of(key@) == splat(0)) by {
            assert(key@[0] == 0 && key@[1] == 0 && key@[2] == 0 && key@[3] == 0);
        }
        Self::new_with_key(key)
    }

    /// Creates a hasher with the given key.
    pub fn new_with_key(key: [u64; 4]) -> (r: Self)
        ensures
            r@ == spec_init(lanes_of(key@)),
    {
        let key = Lanes::from_array(key);
        let mul0 = Lanes {
            l0: 0xdbe6d5d5fe4cce2f,
            l1: 0xa4093822299f31d0,
            l2: 0x13198a2e03707344,
            l3: 0x243f6a8885a308d3,
        };
        let mul1 = Lanes {
            l0: 0x3bd39e10cb0ef593,
            l1: 0xc0acf169b5f18a8c,
            l2: 0xbe5466cf34e90c6c,
            l3: 0x452821e638d01377,
        };
        assert(mul0 == init_c0() && mul1 == init_c1());
        let v0 = mul0.xor(key);
        let v1 = mul1.xor(key.swap_halves());
        Self { v0, v1, mul0, mul1 }
    }

    fn write_simd(&mut self, packet: Lanes)
        ensures
            final(self)@ == spec_update(old(self)@, packet),
    {
        self.v1 = self.v1.wrapping_add(self.mul0.wrapping_add(packet));
        self.mul0 = self.mul0.xor(self.v1.mul32(self.v0));
        self.v0 = self.v0.wrapping_add(self.mul1);
        self.mul1 = self.mul1.xor(self.v0.mul32(self.v1));
        self.v0 = self.v0.wrapping_add(zipper_merge(self.v1));
        self.v1 = self.v1.wrapping_add(zipper_merge(self.v0));
    }

    /// Mixes one packet, given as four words, into the state.
    pub fn write_packet(&mut self, packet: [u64; 4])
        ensures
            final(self)@ == spec_update(old(self)@, lanes_of(packet@)),
    {
        let packet = Lanes::from_array(packet);
        self.write_simd(packet);
    }

    /// Mixes one packet, given as 32 bytes read as four little-endian words,
    /// into the state.
    pub fn write_bytes(&mut self, bytes: [u8; 32])
        ensures
            final(self)@ == spec_update(old(self)@, packet_at(bytes@, 0)),
    {
        let packet = read_packet(&bytes, 0);
        self.write_simd(packet);
    }

    /// Mixes in every whole packet of `bytes`, in order; the bytes after the
    /// last whole packet are left out.
    fn write_whole_packets(&mut self, bytes: &[u8])
        ensures
            final(self)@ == absorb(old(self)@, packets_of(bytes@)),
    {
        let n = bytes.len();
        let count = n / 32;
        let ghost start = self@;
        let ghost packets = packets_of(bytes@);
        let mut i: usize = 0;
        while i < count
            invariant
                i <= count,
                n == bytes@.len(),
                count == n / 32,
                packets == packets_of(bytes@),
                self@ == absorb(start, packets.take(i as int)),
            decreases count - i,
        {
            let packet = read_packet(bytes, 32 * i);
            proof {
                absorb_take_step(start, packets, i as int);
            }
            self.write_simd(packet);
            i += 1;
        }
        assert(packets.take(count as int) =~= packets);
    }

    /// Mixes a tail of fewer than 32 bytes into the state: first its length,
    /// then the padded packet. An empty tail changes nothing.
    fn finish(&mut self, remainder: &[u8])
        requires
            remainder@.len() < 32,
        ensures
            final(self)@ == absorb_tail(old(self)@, remainder@),
    {
        if remainder.len() != 0 {
            let size = remainder.len() as u64;
            assert(size == (remainder@.len() as int) as u64);
            self.v0 = self.v0.wrapping_add(Lanes::splat((size << 32u64) | size));
            self.v1 = self.v1.rotate_halves(size as u32);
            self.write_bytes(crate::lanes::remainder(remainder));
        }
    }

    /// Runs `rounds` finalization rounds.
    fn finalize_rounds(&mut self, rounds: u32)
        ensures
            final(self)@ == finalize(old(self)@, rounds as nat),
    {
        let mut i: u32 = 0;
        while i < rounds
            invariant
                i <= rounds,
                self@ == finalize(old(self)@, i as nat),
            decreases rounds - i,
        {
            let p = permute(self.v0);
            self.write_simd(p);
            i += 1;
        }
    }

    /// Produces a 64-bit hash, given the last bytes of the input (fewer than 32).
    ///
    /// The tail is length-mixed and padded, which differs from writing a
    /// zero-padded packet.
    pub fn finish_64(self, remainder: &[u8]) -> (r: u64)
        requires
            remainder@.len() < 32,
        ensures
            r == spec_finish_64(self@, remainder@),
    {
        let mut s = self;
        s.finish(remainder);
        s.finalize_rounds(4);
        s.v0.l0.wrapping_add(s.v1.l0).wrapping_add(s.mul0.l0).wrapping_add(s.mul1.l0)
    }

    /// Produces a 128-bit hash, low word first, given the last bytes of the
    /// input (fewer than 32).
    pub fn finish_128(self, remainder: &[u8]) -> (r: [u64; 2])
        requires
            remainder@.len() < 32,
        ensures
            r@ == spec_finish_128(self@, remainder@),
    {
        let mut s = self;
        s.finish(remainder);
        s.finalize_rounds(6);
        let r = [
            s.v0.l0.wrapping_add(s.mul0.l0).wrapping_add(s.v1.l2).wrapping_add(s.mul1.l2),
            s.v0.l1.wrapping_add(s.mul0.l1).wrapping_add(s.v1.l3).wrapping_add(s.mul1.l3),
        ];
        assert(r@ =~= reduce_128(s@));
        r
    }

    /// Produces a 256-bit hash, low word first, given the last bytes of the
    /// input (fewer than 32).
    pub fn finish_256(self, remainder: &[u8]) -> (r: [u64; 4])
        requires
            remainder@.len() < 32,
        ensures
            r@ == spec_finish_256(self@, remainder@),
    {
        let mut s = self;
        s.finish(remainder);
        s.finalize_rounds(10);
        let (m1, m0) = modular_reduction(
            s.v1.l1.wrapping_add(s.mul1.l1),
            s.v1.l0.wrapping_add(s.mul1.l0),
            s.v0.l1.wrapping_add(s.mul0.l1),
            s.v0.l0.wrapping_add(s.mul0.l0),
        );
        let (m3, m2) = modular_reduction(
            s.v1.l3.wrapping_add(s.mul1.l3),
            s.v1.l2.wrapping_add(s.mul1.l2),
            s.v0.l3.wrapping_add(s.mul0.l3),
            s.v0.l2.wrapping_add(s.mul0.l2),
        );
        let r = [m0, m1, m2, m3];
        assert(r@ =~= reduce_256(s@));
        r
    }
}

impl core::hash::Hasher for AutobahnHasher {
    /// The 64-bit hash of the state, with an empty tail.
    fn finish(&self) -> (r: u64)
        ensures
            r == spec_finish_64(self@, seq![]),
    {
        let empty: [u8; 0] = [];
        assert(empty@ =~= Seq::<u8>::empty());
        (*self).finish_64(&empty)
    }

    /// Mixes in every whole packet of `bytes`, then the rest zero-padded to a
    /// packet, always, even when nothing is left. No length is mixed in.
    fn write(&mut self, bytes: &[u8])
        ensures
            final(self)@ == spec_update(
                absorb(old(self)@, packets_of(bytes@)),
                packet_at(zero_padded(tail_of(bytes@)), 0),
            ),
    {
        self.write_whole_packets(bytes);
        let tail = tail_slice(bytes);
        let mut packet = [0u8; 32];
        let mut k: usize = 0;
        while k < tail.len()
            invariant
                k <= tail@.len() < 32,
                packet@.len() == 32,
                forall|j: int| 0 <= j < k ==> packet@[j] == tail@[j],
                forall|j: int| k <= j < 32 ==> packet@[j] == 0u8,
            decreases tail@.len() - k,
        {
            packet[k] = tail[k];
            k += 1;
        }
        assert(packet@ =~= zero_padded(tail@));
        self.write_bytes(packet);
    }

    fn write_u8(&mut self, i: u8)
        ensures
            final(self)@ == spec_update(old(self)@, splat(i as u64)),
    {
        self.write_u64(i as u64);
    }

    fn write_u16(&mut self, i: u16)
        ensures
            final(self)@ == spec_update(old(self)@, splat(i as u64)),
    {
        self.write_u64(i as u64);
    }

    fn write_u32(&mut self, i: u32)
        ensures
            final(self)@ == spec_update(old(self)@, splat(i as u64)),
    {
        self.write_u64(i as u64);
    }

    /// Mixes in a packet with the integer in every lane.
    fn write_u64(&mut self, i: u64)
        ensures
            final(self)@ == spec_update(old(self)@, splat(i)),
    {
        self.write_simd(Lanes::splat(i));
    }

    /// A `usize` is at most 64 bits wide, so it is mixed in as a `u64`.
    fn write_usize(&mut self, i: usize)
        ensures
            final(self)@ == spec_update(old(self)@, splat(i as u64)),
    {
        self.write_u64(i as u64);
    }
}

/// Taking in one more packet of a sequence is one more update.
proof fn absorb_take_step(s: State, ps: Seq<Lanes>, i: int)
    requires
        0 <= i < ps.len(),
    ensures
        absorb(s, ps.take(i + 1)) == spec_update(absorb(s, ps.take(i)), ps[i]),
{
    assert(ps.take(i + 1).drop_last() =~= ps.take(i));
}

/// A hasher under `key` that has taken in every whole packet of `bytes`.
fn absorb_packets(bytes: &[u8], key: [u64; 4]) -> (r: AutobahnHasher)
    ensures
        r@ == absorb_body(bytes@, key@),
{
    let mut hasher = AutobahnHasher::new_with_key(key);
    hasher.write_whole_packets(bytes);
    hasher
}

/// The bytes of `bytes` after its last whole packet.
fn tail_slice(bytes: &[u8]) -> (r: &[u8])
    ensures
        r@ == tail_of(bytes@),
        r@.len() < 32,
{
    let (_, tail) = bytes.split_at(bytes.len() / 32 * 32);
    tail
}

/// The 64-bit hash of `bytes` under `key`.
pub fn hash_64(bytes: &[u8], key: [u64; 4]) -> (r: u64)
    ensures
        r == spec_hash_64(bytes@, key@),
{
    let hasher = absorb_packets(bytes, key);
    hasher.finish_64(tail_slice(bytes))
}

/// The 128-bit hash of `bytes` under `key`, low word first.
pub fn hash_128(bytes: &[u8], key: [u64; 4]) -> (r: [u64; 2])
    ensures
        r@ == spec_hash_128(bytes@, key@),
{
    let hasher = absorb_packets(bytes, key);
    hasher.finish_128(tail_slice(bytes))
}

/// The 256-bit hash of `bytes` under `key`, low word first.
pub fn hash_256(bytes: &[u8], key: [u64; 4]) -> (r: [u64; 4])
    ensures
        r@ == spec_hash_256(bytes@, key@),
{
    let hasher = absorb_packets(bytes, key);
    hasher.finish_256(tail_slice(bytes))
}

} // verus!
