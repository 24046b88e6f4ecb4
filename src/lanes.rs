//! Four-lane register operations in scalar form, each proved equal to its
//! model in `model`.
use vstd::prelude::*;
use crate::model::{
    add_lanes, bytes_of, lane, lanes_of, le_u64, mul32, mul32_lanes, packet_at, rotate_halves,
    rotate_halves_lanes, spec_modular_reduction, spec_permute, spec_zipper_merge, splat,
    swap_halves_lanes, tail_packet, xor_lanes, zipper_bytes, zipper_index, Lanes,
};

verus! {

impl Lanes {
    pub fn from_array(a: [u64; 4]) -> (r: Lanes)
        ensures
            r == lanes_of(a@),
    {
        Lanes { l0: a[0], l1: a[1], l2: a[2], l3: a[3] }
    }

    pub fn splat(w: u64) -> (r: Lanes)
        ensures
            r == splat(w),
    {
        Lanes { l0: w, l1: w, l2: w, l3: w }
    }

    /// Lane `j`, for `j < 4`.
    pub fn lane(&self, j: usize) -> (r: u64)
        requires
            j < 4,
        ensures
            r == lane(*self, j as int),
    {
        if j == 0 {
            self.l0
        } else if j == 1 {
            self.l1
        } else if j == 2 {
            self.l2
        } else {
            self.l3
        }
    }

    pub fn wrapping_add(self, o: Lanes) -> (r: Lanes)
        ensures
            r == add_lanes(self, o),
    {
        Lanes {
            l0: self.l0.wrapping_add(o.l0),
            l1: self.l1.wrapping_add(o.l1),
            l2: self.l2.wrapping_add(o.l2),
            l3: self.l3.wrapping_add(o.l3),
        }
    }

    pub fn xor(self, o: Lanes) -> (r: Lanes)
        ensures
            r == xor_lanes(self, o),
    {
        Lanes { l0: self.l0 ^ o.l0, l1: self.l1 ^ o.l1, l2: self.l2 ^ o.l2, l3: self.l3 ^ o.l3 }
    }

    /// Per lane, the low half of `self` times the high half of `o`.
    pub fn mul32(self, o: Lanes) -> (r: Lanes)
        ensures
            r == mul32_lanes(self, o),
    {
        Lanes {
            l0: mul32_word(self.l0, o.l0),
            l1: mul32_word(self.l1, o.l1),
            l2: mul32_word(self.l2, o.l2),
            l3: mul32_word(self.l3, o.l3),
        }
    }

    /// Per lane, the two 32-bit halves exchanged.
    pub fn swap_halves(self) -> (r: Lanes)
        ensures
            r == swap_halves_lanes(self),
    {
        Lanes {
            l0: (self.l0 >> 32u64) | (self.l0 << 32u64),
            l1: (self.l1 >> 32u64) | (self.l1 << 32u64),
            l2: (self.l2 >> 32u64) | (self.l2 << 32u64),
            l3: (self.l3 >> 32u64) | (self.l3 << 32u64),
        }
    }

    /// Per lane, each 32-bit half rotated left by `k` bits.
    pub fn rotate_halves(self, k: u32) -> (r: Lanes)
        requires
            0 < k < 32,
        ensures
            r == rotate_halves_lanes(self, k),
    {
        Lanes {
            l0: rotate_halves_word(self.l0, k),
            l1: rotate_halves_word(self.l1, k),
            l2: rotate_halves_word(self.l2, k),
            l3: rotate_halves_word(self.l3, k),
        }
    }
}

fn mul32_word(a: u64, b: u64) -> (r: u64)
    ensures
        r == mul32(a, b),
{
    let x = a & 0xffff_ffff;
    let y = b >> 32u64;
    assert(x <= 0xffff_ffff && y <= 0xffff_ffff) by (bit_vector)
        requires
            x == a & 0xffff_ffff,
            y == b >> 32u64,
    ;
    assert(x * y <= 0xffff_ffff * 0xffff_ffff) by (nonlinear_arith)
        requires
            x <= 0xffff_ffff,
            y <= 0xffff_ffff,
    ;
    x * y
}

fn rotate_halves_word(x: u64, k: u32) -> (r: u64)
    requires
        0 < k < 32,
    ensures
        r == rotate_halves(x, k),
{
    let lo = x as u32;
    let hi = (x >> 32u64) as u32;
    let lo_rot = (lo << k) | (lo >> (32 - k));
    let hi_rot = (hi << k) | (hi >> (32 - k));
    (lo_rot as u64) | ((hi_rot as u64) << 32u64)
}

/// Where byte `i` (below 16) of a 16-byte half comes from in the zipper merge.
fn zipper_source(i: usize) -> (r: usize)
    requires
        i < 16,
    ensures
        r as int == zipper_index(i as int),
        r < 16,
{
    if i == 0 { 3 }
    else if i == 1 { 12 }
    else if i == 2 { 2 }
    else if i == 3 { 5 }
    else if i == 4 { 14 }
    else if i == 5 { 1 }
    else if i == 6 { 15 }
    else if i == 7 { 0 }
    else if i == 8 { 11 }
    else if i == 9 { 4 }
    else if i == 10 { 10 }
    else if i == 11 { 13 }
    else if i == 12 { 9 }
    else if i == 13 { 6 }
    else if i == 14 { 8 }
    else { 7 }
}

/// The 32 bytes of a register, each lane little-endian.
fn to_bytes(x: Lanes) -> (r: [u8; 32])
    ensures
        r@ == bytes_of(x),
{
    let mut r = [0u8; 32];
    let mut i: usize = 0;
    while i < 32
        invariant
            i <= 32,
            r@.len() == 32,
            forall|j: int| 0 <= j < i ==> r@[j] == bytes_of(x)[j],
        decreases 32 - i,
    {
        let w = x.lane(i / 8);
        r[i] = (w >> ((8 * (i % 8)) as u64)) as u8;
        i += 1;
    }
    assert(r@ =~= bytes_of(x));
    r
}

/// The little-endian word made of `b[at..at + 8]`.
pub(crate) fn read_u64(b: &[u8], at: usize) -> (r: u64)
    requires
        at + 8 <= b@.len(),
    ensures
        r == le_u64(b@, at as int),
{
    (b[at] as u64) | ((b[at + 1] as u64) << 8u64) | ((b[at + 2] as u64) << 16u64) | ((b[at + 3]
        as u64) << 24u64) | ((b[at + 4] as u64) << 32u64) | ((b[at + 5] as u64) << 40u64) | ((b[at
        + 6] as u64) << 48u64) | ((b[at + 7] as u64) << 56u64)
}

/// The packet made of `b[at..at + 32]`.
pub(crate) fn read_packet(b: &[u8], at: usize) -> (r: Lanes)
    requires
        at + 32 <= b@.len(),
    ensures
        r == packet_at(b@, at as int),
{
    let _len = b.len();
    Lanes {
        l0: read_u64(b, at),
        l1: read_u64(b, at + 8),
        l2: read_u64(b, at + 16),
        l3: read_u64(b, at + 24),
    }
}

/// Reorders the bytes of each 16-byte half of `x` by the zipper table.
pub(crate) fn zipper_merge(x: Lanes) -> (r: Lanes)
    ensures
        r == spec_zipper_merge(x),
{
    let bytes = to_bytes(x);
    let mut merged = [0u8; 32];
    let mut i: usize = 0;
    while i < 32
        invariant
            i <= 32,
            merged@.len() == 32,
            bytes@ == bytes_of(x),
            forall|j: int| 0 <= j < i ==> merged@[j] == zipper_bytes(x)[j],
        decreases 32 - i,
    {
        merged[i] = bytes[i / 16 * 16 + zipper_source(i % 16)];
        i += 1;
    }
    assert(merged@ =~= zipper_bytes(x));
    read_packet(&merged, 0)
}

/// Reads the register as eight 32-bit lanes `x0..x7` and returns
/// `[x5, x4, x7, x6, x1, x0, x3, x2]`.
pub(crate) fn permute(x: Lanes) -> (r: Lanes)
    ensures
        r == spec_permute(x),
{
    Lanes {
        l0: ((x.l2 >> 32u64) as u32 as u64) | ((x.l2 as u32 as u64) << 32u64),
        l1: ((x.l3 >> 32u64) as u32 as u64) | ((x.l3 as u32 as u64) << 32u64),
        l2: ((x.l0 >> 32u64) as u32 as u64) | ((x.l0 as u32 as u64) << 32u64),
        l3: ((x.l1 >> 32u64) as u32 as u64) | ((x.l1 as u32 as u64) << 32u64),
    }
}

/// Pads a tail of fewer than 32 bytes into a packet.
pub(crate) fn remainder(bytes: &[u8]) -> (r: [u8; 32])
    requires
        bytes@.len() < 32,
    ensures
        r@ == tail_packet(bytes@),
{
    let mut packet = [0u8; 32];
    let n = bytes.len();
    let size_mod4 = n & 3;
    let remaining = n & !3usize;
    let size = n as u64;
    assert(size_mod4 == n % 4 && remaining == n - n % 4 && size_mod4 >> 1 == size_mod4 / 2)
        by (bit_vector)
        requires
            size_mod4 == n & 3,
            remaining == n & !3usize,
    ;
    assert(size & 16 != 0 <==> n >= 16) by (bit_vector)
        requires
            size == n as u64,
            n < 32,
    ;
    let mut i: usize = 0;
    while i < remaining
        invariant
            i <= remaining <= n < 32,
            packet@.len() == 32,
            n == bytes@.len(),
            forall|j: int| 0 <= j < i ==> packet@[j] == bytes@[j],
            forall|j: int| i <= j < 32 ==> packet@[j] == 0u8,
        decreases remaining - i,
    {
        packet[i] = bytes[i];
        i += 1;
    }
    if size & 16 != 0 {
        let mut k: usize = 0;
        while k < 4
            invariant
                k <= 4,
                16 <= n < 32,
                remaining == n - n % 4,
                size_mod4 == n % 4,
                n == bytes@.len(),
                packet@.len() == 32,
                forall|j: int| 0 <= j < remaining ==> packet@[j] == bytes@[j],
                forall|j: int| remaining <= j < 28 ==> packet@[j] == 0u8,
                forall|j: int| 28 <= j < 28 + k ==> packet@[j] == bytes@[n - 32 + j],
            decreases 4 - k,
        {
            packet[28 + k] = bytes[remaining + size_mod4 - 4 + k];
            k += 1;
        }
    } else if size_mod4 != 0 {
        packet[16] = bytes[remaining];
        packet[16 + 1] = bytes[remaining + (size_mod4 >> 1)];
        packet[16 + 2] = bytes[remaining + size_mod4 - 1];
    }
    assert(size == (bytes@.len() as int) as u64);
    assert forall|j: int| 0 <= j < 32 implies packet@[j] == tail_packet(bytes@)[j] by {
        if j >= remaining && size & 16 == 0 && size_mod4 != 0 {
            assert(remaining + size_mod4 / 2 == n - n % 4 + (n % 4) / 2);
        }
    }
    assert(packet@ =~= tail_packet(bytes@));
    packet
}

/// Reduces four words to two without carries: `(hi, lo)`.
pub(crate) fn modular_reduction(a3_unmasked: u64, a2: u64, a1: u64, a0: u64) -> (r: (u64, u64))
    ensures
        r == spec_modular_reduction(a3_unmasked, a2, a1, a0),
{
    let a3 = a3_unmasked & 0x3fff_ffff_ffff_ffff;
    (
        a1 ^ ((a3 << 1u64) | (a2 >> 63u64)) ^ ((a3 << 2u64) | (a2 >> 62u64)),
        a0 ^ (a2 << 1u64) ^ (a2 << 2u64),
    )
}

} // verus!
