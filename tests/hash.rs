use autobahn_hash::{hash_128, hash_256, hash_64, AutobahnHasher, Input};
use std::hash::Hasher;

const KEY: [u64; 4] = [
    0x0706050403020100,
    0x0F0E0D0C0B0A0908,
    0x1716151413121110,
    0x1F1E1D1C1B1A1918,
];

/// HighwayHash64 of the bytes `0, 1, ..., n - 1` under `KEY`, for `n` from 0 to 64.
const EXPECTED_64: [u64; 65] = [
    0x907A56DE22C26E53, 0x7EAB43AAC7CDDD78, 0xB8D0569AB0B53D62, 0x5C6BEFAB8A463D80,
    0xF205A46893007EDA, 0x2B8A1668E4A94541, 0xBD4CCC325BEFCA6F, 0x4D02AE1738F59482,
    0xE1205108E55F3171, 0x32D2644EC77A1584, 0xF6E10ACDB103A90B, 0xC3BBF4615B415C15,
    0x243CC2040063FA9C, 0xA89A58CE65E641FF, 0x24B031A348455A23, 0x40793F86A449F33B,
    0xCFAB3489F97EB832, 0x19FE67D2C8C5C0E2, 0x04DD90A69C565CC2, 0x75D9518E2371C504,
    0x38AD9B1141D3DD16, 0x0264432CCD8A70E0, 0xA9DB5A6288683390, 0xD7B05492003F028C,
    0x205F615AEA59E51E, 0xEEE0C89621052884, 0x1BFC1A93A7284F4F, 0x512175B5B70DA91D,
    0xF71F8976A0A2C639, 0xAE093FEF1F84E3E7, 0x22CA92B01161860F, 0x9FC7007CCF035A68,
    0xA0C964D9ECD580FC, 0x2C90F73CA03181FC, 0x185CF84E5691EB9E, 0x4FC1F5EF2752AA9B,
    0xF5B7391A5E0A33EB, 0xB9B84B83B4E96C9C, 0x5E42FE712A5CD9B4, 0xA150F2F90C3F97DC,
    0x7FA522D75E2D637D, 0x181AD0CC0DFFD32B, 0x3889ED981E854028, 0xFB4297E8C586EE2D,
    0x6D064A45BB28059C, 0x90563609B3EC860C, 0x7AA4FCE94097C666, 0x1326BAC06B911E08,
    0xB926168D2B154F34, 0x9919848945B1948D, 0xA2A98FC534825EBE, 0xE9809095213EF0B6,
    0x582E5483707BC0E9, 0x086E9414A88A6AF5, 0xEE86B98D20F6743D, 0xF89B7FF609B1C0A7,
    0x4C7D9CC19E22C3E8, 0x9A97005024562A6F, 0x5DD41CF423E6EBEF, 0xDF13609C0468E227,
    0x6E0DA4F64188155A, 0xB755BA4B50D7D4A1, 0x887A3484647479BD, 0xAB8EEBE9BF2139A0,
    0x75542C5D4CD2A6FF,
];

const BOUNDARY_LENGTHS: [usize; 12] = [0, 1, 3, 4, 15, 16, 17, 31, 32, 33, 63, 64];

/// HighwayHash128 of `0, 1, ..., n - 1` under `KEY`, for `n` in `BOUNDARY_LENGTHS`.
const EXPECTED_128: [[u64; 2]; 12] = [
    [0x0fed268f9d8ffec7, 0x33565e767f093e6f],
    [0xd6b0a8893681e7a8, 0xdc291df9eb9cdcb4],
    [0x0607621b295f0beb, 0xbfe69a0fd9cedd79],
    [0x26399eb46dace49e, 0x2e922ad039319208],
    [0x142237a52bc4af54, 0xe0796c0b6e26bcd7],
    [0x414460ffd5a401ad, 0x029ea3d5019f18c8],
    [0xc52a4b96c51c9962, 0xecb878b1169b5ea0],
    [0x06e7b465e8a57c29, 0x52415e3a07f5d446],
    [0x1984df66c1434aaa, 0x16fc1958f9b3e4b9],
    [0x111678afe0c6c36c, 0xf958b59de5a2849d],
    [0x74bd7018022f3ef0, 0x3aea94a8ad5f4bcb],
    [0x98bb1f7198d4c4f2, 0xe0bc0571de918fc8],
];

/// HighwayHash256 of `0, 1, ..., n - 1` under `KEY`, for `n` in `BOUNDARY_LENGTHS`.
const EXPECTED_256: [[u64; 4]; 12] = [
    [0xdd44482ac2c874f5, 0xd946017313c7351f, 0xb3aebeccb98714ff, 0x41da233145751df4],
    [0xedb941bce45f8254, 0xe20d44ef3dcac60f, 0x72651b9bcb324a47, 0x2073624cb275e484],
    [0x480aa0d70dd1d95c, 0x89225e7c6911d1d0, 0x8ea8426b8bbb865a, 0xe23dfbc390e1c722],
    [0xc9cfc497212be4dc, 0xa85f9df6afd2929b, 0x1fda9f211df4109e, 0x07e4277a374d4f9b],
    [0xc11905707842602e, 0x62c3db018501b146, 0x85f5ad17fa3406c1, 0xc884f87bd4fec347],
    [0xf51ad989a1b6cd1f, 0xf7f075d62a627bd9, 0x7e01d5f579f28a06, 0x1ad415c16a174d9f],
    [0x19f4cfa82ca4068e, 0x3b9d4abd3a9275b9, 0x8000b0dde9c010c6, 0x8884d50949215613],
    [0x6880e276601a644d, 0xb3728b20b10fb7da, 0xd0bd12060610d16e, 0x8aef14ef33452ef2],
    [0xbce38c9039a1c3fe, 0x42d56326a3c11289, 0xe35595f764fcaea9, 0xc9b03c6bc9475a99],
    [0xf60115cbf034a6e5, 0x6c36ea75bfce46d0, 0x3b17c8d382725990, 0x7edaa2ed11007a35],
    [0xf5b1f8266a3aeb67, 0x83b040be4dec1add, 0x7fe1c8635b26fbae, 0xf4a3a447defed79f],
    [0x90d8e6ff6ac12475, 0x1a422a196edac1f2, 0x9e3765fe1f8eb002, 0xc1bdd7c4c351cfbe],
];

fn counting(n: usize) -> Vec<u8> {
    (0..n).map(|i| i as u8).collect()
}

fn le_words(packet: &[u8]) -> [u64; 4] {
    let mut words = [0u64; 4];
    for (i, chunk) in packet.chunks(8).enumerate() {
        words[i] = u64::from_le_bytes(chunk.try_into().unwrap());
    }
    words
}

#[test]
fn every_length_up_to_two_packets_matches_reference_64() {
    for n in 0..=64 {
        assert_eq!(hash_64(&counting(n), KEY), EXPECTED_64[n], "length {}", n);
    }
}

#[test]
fn boundary_lengths_match_reference_128() {
    for (i, &n) in BOUNDARY_LENGTHS.iter().enumerate() {
        assert_eq!(hash_128(&counting(n), KEY), EXPECTED_128[i], "length {}", n);
    }
}

#[test]
fn boundary_lengths_match_reference_256() {
    for (i, &n) in BOUNDARY_LENGTHS.iter().enumerate() {
        assert_eq!(hash_256(&counting(n), KEY), EXPECTED_256[i], "length {}", n);
    }
}

#[test]
fn empty_input_is_the_initial_state_finalized() {
    assert_eq!(hash_64(&[], KEY), 0x907A56DE22C26E53);
    let hasher = AutobahnHasher::new_with_key(KEY);
    assert_eq!(hasher.finish_64(&[]), 0x907A56DE22C26E53);
    assert_eq!(hasher.finish_128(&[]), [0x0fed268f9d8ffec7, 0x33565e767f093e6f]);
    assert_eq!(hasher.finish_256(&[]), EXPECTED_256[0]);
}

#[test]
fn tail_branches_by_length_mod_4_and_bit_16() {
    // Bit 16 clear: lengths 4, 5, 6, 7 and 36, 37, 38, 39; set: 20, 21, 22, 23 and 52, 53, 54, 55.
    for base in [4usize, 20, 36, 52] {
        for n in base..base + 4 {
            assert_eq!(hash_64(&counting(n), KEY), EXPECTED_64[n], "length {}", n);
        }
    }
}

#[test]
fn empty_input_zero_key_64() {
    assert_eq!(hash_64(b"", [0; 4]), 0x7035da75b9d54469);
}

#[test]
fn one_zero_byte_zero_key_64() {
    assert_eq!(hash_64(&[0u8], [0; 4]), 0x226c415fe108f9cf);
}

#[test]
fn sixteen_letters_64() {
    assert_eq!(hash_64(b"abcdefghijklmnop", [1, 2, 3, 4]), 0xc9e4970a70d4f16a);
}

#[test]
fn one_packet_of_ff_128() {
    assert_eq!(hash_128(&[0xffu8; 32], [1, 2, 3, 4]), [0x43963f8192e6c170, 0xcc3918b7cfbf5bec]);
}

#[test]
fn thirty_three_counting_bytes_128() {
    let key = [0xdeaddeaddeaddead, 0xbeefbeefbeefbeef, 0, 0];
    assert_eq!(hash_128(&counting(33), key), [0xc2f572dc84a3aa9d, 0xe405397178b5581a]);
}

#[test]
fn hundred_counting_bytes_256() {
    assert_eq!(
        hash_256(&counting(100), [0; 4]),
        [0xfe38b5db74c224ba, 0xd4959ec27203cb69, 0x66514b3ee60273cb, 0x45f8bafe4b0a92f1]
    );
}

#[test]
fn repeated_calls_agree() {
    let data = counting(77);
    assert_eq!(hash_64(&data, KEY), hash_64(&data, KEY));
    assert_eq!(hash_128(&data, KEY), hash_128(&data, KEY));
    assert_eq!(hash_256(&data, KEY), hash_256(&data, KEY));
}

#[test]
fn packets_written_one_by_one_match_one_shot() {
    let data = counting(96);
    let mut by_words = AutobahnHasher::new_with_key(KEY);
    let mut by_bytes = AutobahnHasher::new_with_key(KEY);
    for packet in data.chunks(32) {
        by_words.write_packet(le_words(packet));
        by_bytes.write_bytes(packet.try_into().unwrap());
    }
    assert_eq!(by_words.finish_64(&[]), hash_64(&data, KEY));
    assert_eq!(by_bytes.finish_128(&[]), hash_128(&data, KEY));
    assert_eq!(by_bytes.finish_256(&[]), hash_256(&data, KEY));
}

#[test]
fn split_before_a_tail_matches_one_shot() {
    let data = counting(64 + 13);
    let mut hasher = AutobahnHasher::new_with_key(KEY);
    hasher.write_bytes(data[..32].try_into().unwrap());
    hasher.write_bytes(data[32..64].try_into().unwrap());
    assert_eq!(hasher.finish_64(&data[64..]), hash_64(&data, KEY));
    assert_eq!(hasher.finish_256(&data[64..]), hash_256(&data, KEY));
}

#[test]
fn tail_handling_differs_from_zero_padding() {
    for n in [1usize, 3, 4, 15, 16, 17, 31, 33, 63] {
        let data = counting(n);
        let whole = n / 32 * 32;
        let mut padded = [0u8; 32];
        padded[..n - whole].copy_from_slice(&data[whole..]);
        let mut hasher = AutobahnHasher::new_with_key(KEY);
        for packet in data[..whole].chunks(32) {
            hasher.write_bytes(packet.try_into().unwrap());
        }
        hasher.write_bytes(padded);
        assert_ne!(hasher.finish_64(&[]), hash_64(&data, KEY), "length {}", n);
        assert_ne!(hasher.finish_128(&[]), hash_128(&data, KEY), "length {}", n);
    }
}

#[test]
fn key_bit_flips_change_about_half_the_output() {
    let mut changed_bits = 0u32;
    let mut trials = 0u32;
    for n in [0usize, 1, 7, 31, 32, 33, 100] {
        let data = counting(n);
        let base = hash_64(&data, KEY);
        for bit in 0..256 {
            let mut key = KEY;
            key[bit / 64] ^= 1 << (bit % 64);
            let flipped = hash_64(&data, key);
            assert_ne!(flipped, base);
            changed_bits += (flipped ^ base).count_ones();
            trials += 1;
        }
    }
    let average = changed_bits / trials;
    assert!((30..=34).contains(&average), "average {}", average);
}

#[test]
fn appending_a_zero_byte_changes_the_hash() {
    for n in 0..=64 {
        let data = counting(n);
        let mut longer = data.clone();
        longer.push(0);
        assert_ne!(hash_64(&data, KEY), hash_64(&longer, KEY), "length {}", n);
        assert_ne!(hash_128(&data, KEY), hash_128(&longer, KEY), "length {}", n);
        assert_ne!(hash_256(&data, KEY), hash_256(&longer, KEY), "length {}", n);
    }
}

#[test]
fn new_and_default_use_the_zero_key() {
    let data = counting(40);
    let zero_key = AutobahnHasher::new_with_key([0; 4]);
    assert_eq!(AutobahnHasher::new().finish_64(&data[32..]), zero_key.finish_64(&data[32..]));
    assert_eq!(AutobahnHasher::default().finish_64(&[]), 0x7035da75b9d54469);
}

#[test]
fn hasher_write_pads_with_zeros() {
    let mut hasher = AutobahnHasher::new_with_key(KEY);
    hasher.write(&counting(5));
    assert_eq!(Hasher::finish(&hasher), 0x92ca39f971a22fdc);
}

#[test]
fn hasher_write_adds_a_packet_after_whole_packets() {
    let data = counting(32);
    let mut hasher = AutobahnHasher::new_with_key(KEY);
    hasher.write(&data);
    assert_eq!(Hasher::finish(&hasher), 0x9a1d4a59e077a6ee);
    assert_ne!(Hasher::finish(&hasher), hash_64(&data, KEY));
}

#[test]
fn hasher_integers_fill_every_lane() {
    let mut wide = AutobahnHasher::new_with_key(KEY);
    wide.write_u64(7);
    assert_eq!(Hasher::finish(&wide), 0x3f4db24bf3e35472);
    let mut by_packet = AutobahnHasher::new_with_key(KEY);
    by_packet.write_packet([7; 4]);
    assert_eq!(Hasher::finish(&by_packet), 0x3f4db24bf3e35472);
    for write in [
        |h: &mut AutobahnHasher| h.write_u8(7),
        |h: &mut AutobahnHasher| h.write_u16(7),
        |h: &mut AutobahnHasher| h.write_u32(7),
        |h: &mut AutobahnHasher| h.write_usize(7),
    ] {
        let mut narrow = AutobahnHasher::new_with_key(KEY);
        write(&mut narrow);
        assert_eq!(Hasher::finish(&narrow), 0x3f4db24bf3e35472);
    }
}

#[test]
fn input_holds_key_and_data() {
    let input = Input { key: KEY, data: counting(3) };
    assert_eq!(hash_64(&input.data, input.key), EXPECTED_64[3]);
}
