//! The mathematical model of the hash: every step of the construction as a
//! spec function over plain integers and byte sequences.
use vstd::prelude::*;

verus! {

/// One 256-bit register: four 64-bit lanes, lane 0 first.
#[derive(Clone, Copy, Debug, PartialEq, Eq, Structural)]
pub struct Lanes {
    pub l0: u64,
    pub l1: u64,
    pub l2: u64,
    pub l3: u64,
}

/// The four registers of the mixing state.
#[derive(Clone, Copy, Debug, PartialEq, Eq, Structural)]
pub struct State {
    pub v0: Lanes,
    pub v1: Lanes,
    pub mul0: Lanes,
    pub mul1: Lanes,
}

/// First initialization constant, lane 0 first.
pub open spec fn init_c0() -> Lanes {
    Lanes {
        l0: 0xdbe6d5d5fe4cce2f,
        l1: 0xa4093822299f31d0,
        l2: 0x13198a2e03707344,
        l3: 0x243f6a8885a308d3,
    }
}

/// Second initialization constant, lane 0 first.
pub open spec fn init_c1() -> Lanes {
    Lanes {
        l0: 0x3bd39e10cb0ef593,
        l1: 0xc0acf169b5f18a8c,
        l2: 0xbe5466cf34e90c6c,
        l3: 0x452821e638d01377,
    }
}

/// The register holding the four words of a sequence, word 0 in lane 0.
pub open spec fn lanes_of(a: Seq<u64>) -> Lanes {
    Lanes { l0: a[0], l1: a[1], l2: a[2], l3: a[3] }
}

/// Lane `j` of a register.
pub open spec fn lane(x: Lanes, j: int) -> u64 {
    if j == 0 {
        x.l0
    } else if j == 1 {
        x.l1
    } else if j == 2 {
        x.l2
    } else {
        x.l3
    }
}

/// Every lane holding `w`.
pub open spec fn splat(w: u64) -> Lanes {
    Lanes { l0: w, l1: w, l2: w, l3: w }
}

/// Addition modulo 2^64.
pub open spec fn wadd(a: u64, b: u64) -> u64 {
    if a + b <= u64::MAX {
        (a + b) as u64
    } else {
        (a + b - 0x1_0000_0000_0000_0000) as u64
    }
}

/// The low 32 bits of `a` times the high 32 bits of `b`, as a full 64-bit product.
pub open spec fn mul32(a: u64, b: u64) -> u64 {
    ((a & 0xffff_ffff) as int * (b >> 32u64) as int) as u64
}

/// The two 32-bit halves of a word exchanged.
pub open spec fn swap_halves(x: u64) -> u64 {
    (x >> 32u64) | (x << 32u64)
}

pub open spec fn add_lanes(a: Lanes, b: Lanes) -> Lanes {
    Lanes { l0: wadd(a.l0, b.l0), l1: wadd(a.l1, b.l1), l2: wadd(a.l2, b.l2), l3: wadd(a.l3, b.l3) }
}

pub open spec fn xor_lanes(a: Lanes, b: Lanes) -> Lanes {
    Lanes { l0: a.l0 ^ b.l0, l1: a.l1 ^ b.l1, l2: a.l2 ^ b.l2, l3: a.l3 ^ b.l3 }
}

pub open spec fn mul32_lanes(a: Lanes, b: Lanes) -> Lanes {
    Lanes { l0: mul32(a.l0, b.l0), l1: mul32(a.l1, b.l1), l2: mul32(a.l2, b.l2), l3: mul32(a.l3, b.l3) }
}

pub open spec fn swap_halves_lanes(x: Lanes) -> Lanes {
    Lanes { l0: swap_halves(x.l0), l1: swap_halves(x.l1), l2: swap_halves(x.l2), l3: swap_halves(x.l3) }
}

/// The state that a key sets up.
pub open spec fn spec_init(key: Lanes) -> State {
    State {
        v0: xor_lanes(init_c0(), key),
        v1: xor_lanes(init_c1(), swap_halves_lanes(key)),
        mul0: init_c0(),
        mul1: init_c1(),
    }
}

/// Byte `k` (0 to 7) of a word in little-endian order.
pub open spec fn byte_of(x: u64, k: int) -> u8 {
    (x >> ((8 * k) as u64)) as u8
}

/// The 32 bytes of a register, lane 0 first, each lane little-endian.
pub open spec fn bytes_of(x: Lanes) -> Seq<u8> {
    Seq::new(32, |i: int| byte_of(lane(x, i / 8), i % 8))
}

/// The little-endian word made of the eight bytes of `b` from `at` on.
pub open spec fn le_u64(b: Seq<u8>, at: int) -> u64 {
    (b[at] as u64) | ((b[at + 1] as u64) << 8u64) | ((b[at + 2] as u64) << 16u64) | ((b[at + 3] as u64)
        << 24u64) | ((b[at + 4] as u64) << 32u64) | ((b[at + 5] as u64) << 40u64) | ((b[at + 6]
        as u64) << 48u64) | ((b[at + 7] as u64) << 56u64)
}

/// The packet made of the 32 bytes of `b` from `at` on: four little-endian words.
pub open spec fn packet_at(b: Seq<u8>, at: int) -> Lanes {
    Lanes {
        l0: le_u64(b, at),
        l1: le_u64(b, at + 8),
        l2: le_u64(b, at + 16),
        l3: le_u64(b, at + 24),
    }
}

/// Where byte `i` of a 16-byte half comes from in the zipper merge.
pub open spec fn zipper_index(i: int) -> int {
    if i == 0 { 3 }
    else if i == 1 { 12 }
    else if i == 2 { 2 }
    else if i == 3 { 5 }
    else if i == 4 { 14 }
    else if i == 5 { 1 }
    else if i == 6 { 15 }
    else if i == 7 { 0 }
    else if i == 8 { 11 }
    else if i == 9 { 4 }
    else if i == 10 { 10 }
    else if i == 11 { 13 }
    else if i == 12 { 9 }
    else if i == 13 { 6 }
    else if i == 14 { 8 }
    else { 7 }
}

/// The bytes of a register reordered within each 16-byte half.
pub open spec fn zipper_bytes(x: Lanes) -> Seq<u8> {
    Seq::new(32, |i: int| bytes_of(x)[(i / 16) * 16 + zipper_index(i % 16)])
}

/// The zipper merge: the byte swizzle, read back as four little-endian lanes.
pub open spec fn spec_zipper_merge(x: Lanes) -> Lanes {
    packet_at(zipper_bytes(x), 0)
}

/// The low 32 bits of a word.
pub open spec fn lo32(x: u64) -> u32 {
    x as u32
}

/// The high 32 bits of a word.
pub open spec fn hi32(x: u64) -> u32 {
    (x >> 32u64) as u32
}

/// The word whose low half is `lo` and high half is `hi`.
pub open spec fn join32(lo: u32, hi: u32) -> u64 {
    (lo as u64) | ((hi as u64) << 32u64)
}

/// With the register read as eight 32-bit lanes `x0..x7`, the register
/// `[x5, x4, x7, x6, x1, x0, x3, x2]`.
pub open spec fn spec_permute(x: Lanes) -> Lanes {
    Lanes {
        l0: join32(hi32(x.l2), lo32(x.l2)),
        l1: join32(hi32(x.l3), lo32(x.l3)),
        l2: join32(hi32(x.l0), lo32(x.l0)),
        l3: join32(hi32(x.l1), lo32(x.l1)),
    }
}

/// One packet mixed into the state.
pub open spec fn spec_update(s: State, p: Lanes) -> State {
    let v1 = add_lanes(s.v1, add_lanes(s.mul0, p));
    let mul0 = xor_lanes(s.mul0, mul32_lanes(v1, s.v0));
    let v0 = add_lanes(s.v0, s.mul1);
    let mul1 = xor_lanes(s.mul1, mul32_lanes(v0, v1));
    let v0 = add_lanes(v0, spec_zipper_merge(v1));
    let v1 = add_lanes(v1, spec_zipper_merge(v0));
    State { v0, v1, mul0, mul1 }
}

/// A sequence of packets mixed into the state in order.
pub open spec fn absorb(s: State, ps: Seq<Lanes>) -> State
    decreases ps.len(),
{
    if ps.len() == 0 {
        s
    } else {
        spec_update(absorb(s, ps.drop_last()), ps.last())
    }
}

/// The whole packets of a byte sequence, in order; trailing bytes are left out.
pub open spec fn packets_of(b: Seq<u8>) -> Seq<Lanes> {
    Seq::new(b.len() / 32, |i: int| packet_at(b, 32 * i))
}

/// The bytes after the last whole packet.
pub open spec fn tail_of(b: Seq<u8>) -> Seq<u8> {
    b.subrange((b.len() / 32 * 32) as int, b.len() as int)
}

/// The 32-byte packet into which a tail of fewer than 32 bytes is padded.
pub open spec fn tail_packet(r: Seq<u8>) -> Seq<u8> {
    let n = r.len() as int;
    let q = n % 4;
    let m = n - q;
    Seq::new(
        32,
        |i: int|
            if i < m {
                r[i]
            } else if (n as u64) & 16 != 0 {
                if 28 <= i {
                    r[n - 32 + i]
                } else {
                    0u8
                }
            } else if q != 0 && i == 16 {
                r[m]
            } else if q != 0 && i == 17 {
                r[m + q / 2]
            } else if q != 0 && i == 18 {
                r[m + q - 1]
            } else {
                0u8
            },
    )
}

/// The tail zero-padded to a whole packet, as a generic byte hasher mixes it.
pub open spec fn zero_padded(r: Seq<u8>) -> Seq<u8> {
    Seq::new(32, |i: int| if i < r.len() { r[i] } else { 0u8 })
}

/// `w` rotated left by `k` bits, for `0 < k < 32`.
pub open spec fn rotl32(w: u32, k: u32) -> u32 {
    (w << k) | (w >> ((32 - k) as u32))
}

/// Each 32-bit half of `x` rotated left by `k` bits.
pub open spec fn rotate_halves(x: u64, k: u32) -> u64 {
    join32(rotl32(lo32(x), k), rotl32(hi32(x), k))
}

pub open spec fn rotate_halves_lanes(x: Lanes, k: u32) -> Lanes {
    Lanes {
        l0: rotate_halves(x.l0, k),
        l1: rotate_halves(x.l1, k),
        l2: rotate_halves(x.l2, k),
        l3: rotate_halves(x.l3, k),
    }
}

/// The word that mixes a tail length `n` into `v0`.
pub open spec fn length_word(n: u64) -> u64 {
    (n << 32u64) | n
}

/// The tail mixed into the state: nothing for an empty tail, else the length
/// first and then the padded packet.
pub open spec fn absorb_tail(s: State, r: Seq<u8>) -> State {
    if r.len() == 0 {
        s
    } else {
        let n = r.len() as u64;
        let mixed = State {
            v0: add_lanes(s.v0, splat(length_word(n))),
            v1: rotate_halves_lanes(s.v1, n as u32),
            mul0: s.mul0,
            mul1: s.mul1,
        };
        spec_update(mixed, packet_at(tail_packet(r), 0))
    }
}

/// `rounds` finalization rounds, each feeding the permuted `v0` back in as a packet.
pub open spec fn finalize(s: State, rounds: nat) -> State
    decreases rounds,
{
    if rounds == 0 {
        s
    } else {
        let t = finalize(s, (rounds - 1) as nat);
        spec_update(t, spec_permute(t.v0))
    }
}

pub open spec fn reduce_64(s: State) -> u64 {
    wadd(wadd(wadd(s.v0.l0, s.v1.l0), s.mul0.l0), s.mul1.l0)
}

pub open spec fn reduce_128(s: State) -> Seq<u64> {
    seq![
        wadd(wadd(wadd(s.v0.l0, s.mul0.l0), s.v1.l2), s.mul1.l2),
        wadd(wadd(wadd(s.v0.l1, s.mul0.l1), s.v1.l3), s.mul1.l3),
    ]
}

/// The non-carrying reduction of four words to two: `(hi, lo)`.
pub open spec fn spec_modular_reduction(a3: u64, a2: u64, a1: u64, a0: u64) -> (u64, u64) {
    let a3 = a3 & 0x3fff_ffff_ffff_ffff;
    (
        a1 ^ ((a3 << 1u64) | (a2 >> 63u64)) ^ ((a3 << 2u64) | (a2 >> 62u64)),
        a0 ^ (a2 << 1u64) ^ (a2 << 2u64),
    )
}

pub open spec fn reduce_256(s: State) -> Seq<u64> {
    let low = spec_modular_reduction(
        wadd(s.v1.l1, s.mul1.l1),
        wadd(s.v1.l0, s.mul1.l0),
        wadd(s.v0.l1, s.mul0.l1),
        wadd(s.v0.l0, s.mul0.l0),
    );
    let high = spec_modular_reduction(
        wadd(s.v1.l3, s.mul1.l3),
        wadd(s.v1.l2, s.mul1.l2),
        wadd(s.v0.l3, s.mul0.l3),
        wadd(s.v0.l2, s.mul0.l2),
    );
    seq![low.1, low.0, high.1, high.0]
}

/// The 64-bit result of an engine in state `s` given its tail.
pub open spec fn spec_finish_64(s: State, tail: Seq<u8>) -> u64 {
    reduce_64(finalize(absorb_tail(s, tail), 4))
}

pub open spec fn spec_finish_128(s: State, tail: Seq<u8>) -> Seq<u64> {
    reduce_128(finalize(absorb_tail(s, tail), 6))
}

pub open spec fn spec_finish_256(s: State, tail: Seq<u8>) -> Seq<u64> {
    reduce_256(finalize(absorb_tail(s, tail), 10))
}

/// The state after the whole packets of `b` under `key`.
pub open spec fn absorb_body(b: Seq<u8>, key: Seq<u64>) -> State {
    absorb(spec_init(lanes_of(key)), packets_of(b))
}

/// The 64-bit hash of `b` under the key `key`.
pub open spec fn spec_hash_64(b: Seq<u8>, key: Seq<u64>) -> u64 {
    spec_finish_64(absorb_body(b, key), tail_of(b))
}

/// The 128-bit hash of `b` under the key `key`, low word first.
pub open spec fn spec_hash_128(b: Seq<u8>, key: Seq<u64>) -> Seq<u64> {
    spec_finish_128(absorb_body(b, key), tail_of(b))
}

/// The 256-bit hash of `b` under the key `key`, low word first.
pub open spec fn spec_hash_256(b: Seq<u8>, key: Seq<u64>) -> Seq<u64> {
    spec_finish_256(absorb_body(b, key), tail_of(b))
}

} // verus!
