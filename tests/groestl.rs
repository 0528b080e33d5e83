use groestl::compress::{compress_block, extract_digest, transform_output};
use groestl::field::{field_mul, sub_byte};
use groestl::permutation::permute;
use groestl::{Groestl256, HashState, BLOCK_SIZE, OUTPUT_SIZE};

fn hex(d: &[u8]) -> String {
    let mut s = String::new();
    for b in d {
        s.push_str(&format!("{:02x}", b));
    }
    s
}

fn digest_of(m: &[u8]) -> [u8; 32] {
    let mut h = Groestl256::new();
    h.input(m);
    h.fixed_result()
}

fn counting(n: usize) -> Vec<u8> {
    (0..n).map(|i| (i % 251) as u8).collect()
}

#[test]
fn empty_input() {
    assert_eq!(
        hex(&digest_of(b"")),
        "1a52d11d550039be16107f9c58db9ebcc417f16f736adb2502567119f0083467"
    );
}

#[test]
fn single_ff_byte() {
    assert_eq!(
        hex(&digest_of(&[0xff])),
        "7bede333e40887353730b7b802b7f276c595fc8282464afd7f9774b1081907d6"
    );
}

#[test]
fn abc() {
    assert_eq!(
        hex(&digest_of(b"abc")),
        "f3c1bb19c048801326a7efbcf16e3d7887446249829c379e1840d1a3a1e7d4d2"
    );
}

#[test]
fn quick_brown_fox() {
    assert_eq!(
        hex(&digest_of(b"The quick brown fox jumps over the lazy dog")),
        "8c7ad62eb26a21297bc39c2d7293b4bd4d3399fa8afab29e970471739e28b301"
    );
    assert_eq!(
        hex(&digest_of(b"The quick brown fox jumps over the lazy dog.")),
        "f48290b1bcacee406a0429b993adb8fb3d065f4b09cbcdb464a631d4a0080aaf"
    );
}

#[test]
fn padding_boundary_55() {
    assert_eq!(
        hex(&digest_of(&counting(55))),
        "a2bbd209981d8e092deb8909433a9fc40c63738e1a5ba2d80f30d691205d422e"
    );
}

#[test]
fn padding_boundary_56() {
    assert_eq!(
        hex(&digest_of(&counting(56))),
        "373a1ecc579afc93bf0fe2140f57dab5aa57bd43a265b5c3c615732cd420dbf5"
    );
}

#[test]
fn padding_boundary_57() {
    assert_eq!(
        hex(&digest_of(&counting(57))),
        "3348f5ab237482dd0b59bfacd78c6d2b2bf4625aab34c0d4ed024ff2a285ed59"
    );
}

#[test]
fn block_boundaries() {
    let cases: [(usize, &str); 6] = [
        (63, "03843d92c44a2b28c27105e6c3597cd5e9a1aebbda2001a0e25ad85a4b392ecf"),
        (64, "aa3f0b70ae7e022644ed5bd29af4f66e2e9ebd10ef98bf50cd4680ac5ef1aaf4"),
        (65, "b2f93ea152c7c399ff4d3d764c6685001181f968556214068dbe7809a930c319"),
        (119, "306265a4d548427c593eced10318acd17eb4abe2ea5e56ae4cbd496b97c164b7"),
        (120, "fd4c080302f692160ff3f47c5ee35655867678ef626abe9fbb07e816c967508d"),
        (200, "5e4874941276bacd43cf9f5078a5d620143b0b105f633f44d65ed13d27f6a849"),
    ];
    for (n, expected) in cases.iter() {
        assert_eq!(hex(&digest_of(&counting(*n))), *expected, "length {}", n);
    }
}

#[test]
fn thousand_a() {
    assert_eq!(
        hex(&digest_of(&[b'a'; 1000])),
        "5aac190ab17e5f19102cfde02dc503a494bc1b553aecdee1a69ad9d60db69a3b"
    );
}

#[test]
fn deterministic() {
    let m = counting(150);
    assert_eq!(digest_of(&m), digest_of(&m));
}

#[test]
fn streaming_equivalence() {
    let m = counting(200);
    let whole = digest_of(&m);
    let splits: [&[usize]; 5] = [
        &[0, 200],
        &[1, 63, 64, 200],
        &[55, 56, 57, 130],
        &[10, 20, 30, 40, 50, 60, 70, 80, 190],
        &[64, 128, 192],
    ];
    for cuts in splits.iter() {
        let mut h = Groestl256::new();
        let mut from: usize = 0;
        for &to in cuts.iter() {
            h.input(&m[from..to]);
            from = to;
        }
        h.input(&m[from..]);
        assert_eq!(h.fixed_result(), whole, "cuts {:?}", cuts);
    }
    let mut h = Groestl256::new();
    for b in m.iter() {
        h.input(&[*b]);
    }
    assert_eq!(h.fixed_result(), whole);
}

#[test]
fn empty_chunks_change_nothing() {
    let mut h = Groestl256::new();
    h.input(b"");
    h.input(b"ab");
    h.input(b"");
    h.input(b"c");
    assert_eq!(h.fixed_result(), digest_of(b"abc"));
}

#[test]
fn reset_restores_fresh_state() {
    let mut h = Groestl256::new();
    h.input(&counting(100));
    h.reset();
    h.input(b"abc");
    assert_eq!(h.fixed_result(), digest_of(b"abc"));
    let mut d = Groestl256::default();
    d.input(&counting(30));
    d.reset();
    assert_eq!(
        hex(&d.fixed_result()),
        "1a52d11d550039be16107f9c58db9ebcc417f16f736adb2502567119f0083467"
    );
}

#[test]
fn fixed_output_size() {
    for n in [0usize, 1, 55, 56, 64, 1000] {
        assert_eq!(digest_of(&counting(n)).len(), OUTPUT_SIZE);
    }
    assert_eq!(OUTPUT_SIZE, 32);
    assert_eq!(BLOCK_SIZE, 64);
}

#[test]
fn avalanche_sampling() {
    let base = counting(80);
    let d0 = digest_of(&base);
    let mut total: u32 = 0;
    let mut samples: u32 = 0;
    for byte in [0usize, 17, 40, 63, 64, 79] {
        for bit in [0u8, 3, 7] {
            let mut m = base.clone();
            m[byte] ^= 1 << bit;
            let d1 = digest_of(&m);
            let flipped: u32 = d0.iter().zip(d1.iter()).map(|(a, b)| (a ^ b).count_ones()).sum();
            assert!(flipped > 64 && flipped < 192, "flipped {} bits", flipped);
            total += flipped;
            samples += 1;
        }
    }
    let mean = total / samples;
    assert!(mean > 100 && mean < 156, "mean {}", mean);
}

#[test]
fn field_arithmetic() {
    assert_eq!(field_mul(2, 0x80), 0x1b);
    assert_eq!(field_mul(3, 0x57), 0xf9);
    assert_eq!(field_mul(0x13, 0x57), 0xfe);
    assert_eq!(field_mul(1, 0xab), 0xab);
    assert_eq!(field_mul(0, 0xab), 0);
}

#[test]
fn substitution_box() {
    assert_eq!(sub_byte(0x00), 0x63);
    assert_eq!(sub_byte(0x53), 0xed);
    assert_eq!(sub_byte(0xff), 0x16);
}

#[test]
fn permutations_differ_and_move_state() {
    let zero = [0u8; 64];
    let p = permute(&zero, false);
    let q = permute(&zero, true);
    assert_ne!(p, zero);
    assert_ne!(q, zero);
    assert_ne!(p, q);
}

#[test]
fn state_pieces_compose_to_digest() {
    let mut s = HashState::default();
    assert_eq!(s.block_counter, 0);
    assert_eq!(s.chaining[62], 1);
    let mut block = [0u8; 64];
    block[0] = 0x80;
    block[63] = 1;
    let direct = compress_block(&s.chaining, &block);
    s.input_block(&block);
    assert_eq!(s.block_counter, 1);
    assert_eq!(s.chaining, direct);
    let out = transform_output(&s.chaining);
    assert_eq!(s.finalize(), out);
    assert_eq!(
        hex(&extract_digest(&out)),
        "1a52d11d550039be16107f9c58db9ebcc417f16f736adb2502567119f0083467"
    );
}

#[test]
fn clone_keeps_progress() {
    let mut h = Groestl256::new();
    h.input(&counting(70));
    let mut c = h.clone();
    h.input(b"tail");
    c.input(b"tail");
    let mut m = counting(70);
    m.extend_from_slice(b"tail");
    let expected = digest_of(&m);
    assert_eq!(h.fixed_result(), expected);
    assert_eq!(c.fixed_result(), expected);
}
