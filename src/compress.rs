//! The compression function, the output transform, the padding rule and
//! the digest of a whole message.
use vstd::prelude::*;
use crate::permutation::{perm_p, perm_q, permute};

verus! {

/// Bytes in a block and in the chaining value.
pub const BLOCK_SIZE: usize = 64;

/// Bytes in a digest.
pub const OUTPUT_SIZE: usize = 32;

/// Bytewise XOR of two states.
pub open spec fn xor(a: Seq<u8>, b: Seq<u8>) -> Seq<u8> {
    Seq::new(64, |k: int| a[k] ^ b[k])
}

/// Absorbs one block: `P(h ^ m) ^ Q(m) ^ h`.
pub open spec fn compress(h: Seq<u8>, m: Seq<u8>) -> Seq<u8> {
    xor(xor(perm_p(xor(h, m)), perm_q(m)), h)
}

/// The output transform: `P(h) ^ h`.
pub open spec fn output_transform(h: Seq<u8>) -> Seq<u8> {
    xor(perm_p(h), h)
}

/// The initial chaining value: zero but for the big-endian output length,
/// 256, in its last eight bytes.
pub open spec fn iv() -> Seq<u8> {
    Seq::new(64, |k: int| if k == 62 { 1u8 } else { 0u8 })
}

/// Absorbs the whole blocks of `data`, in order, starting from `h`.
pub open spec fn absorb_blocks(h: Seq<u8>, data: Seq<u8>) -> Seq<u8>
    decreases data.len(),
{
    if data.len() < 64 {
        h
    } else {
        absorb_blocks(compress(h, data.take(64)), data.skip(64))
    }
}

/// Big-endian encoding of a 64-bit integer.
pub open spec fn be64(x: u64) -> Seq<u8> {
    seq![
        (x >> 56) as u8,
        (x >> 48) as u8,
        (x >> 40) as u8,
        (x >> 32) as u8,
        (x >> 24) as u8,
        (x >> 16) as u8,
        (x >> 8) as u8,
        x as u8,
    ]
}

/// Number of zero bytes between the 0x80 marker and the length field, for a
/// final partial block of `rest` bytes: one block if the marker and the
/// length field fit after it, two blocks otherwise.
pub open spec fn zero_fill(rest: nat) -> nat {
    if rest <= 55 {
        (55 - rest) as nat
    } else {
        (119 - rest) as nat
    }
}

/// The padding blocks that close a final partial block `rest`: the bytes
/// themselves, 0x80, zeros, then `count` in big-endian order.
pub open spec fn pad_tail(rest: Seq<u8>, count: u64) -> Seq<u8> {
    rest + seq![0x80u8] + Seq::new(zero_fill(rest.len()), |i: int| 0u8) + be64(count)
}

/// Number of blocks of the padded message of length `n`.
pub open spec fn block_count(n: nat) -> nat {
    (n + 9 + zero_fill(n % 64)) / 64
}

/// Length of the part of a message of length `n` that fills whole blocks.
pub open spec fn full_len(n: nat) -> nat {
    n / 64 * 64
}

/// The padded message.
pub open spec fn pad(m: Seq<u8>) -> Seq<u8> {
    m.take(full_len(m.len()) as int) + pad_tail(
        m.skip(full_len(m.len()) as int),
        block_count(m.len()) as u64,
    )
}

/// The Grøstl-256 digest of a message: the last 32 bytes of the output
/// transform of the chaining value after every padded block.
pub open spec fn groestl256(m: Seq<u8>) -> Seq<u8> {
    output_transform(absorb_blocks(iv(), pad(m))).subrange(32, 64)
}

/// Bytewise XOR of two states.
pub fn xor_state(a: &[u8; 64], b: &[u8; 64]) -> (r: [u8; 64])
    ensures
        r@ == xor(a@, b@),
{
    let mut r: [u8; 64] = [0u8; 64];
    let mut k: usize = 0;
    while k < 64
        invariant
            k <= 64,
            forall|m: int| 0 <= m < k ==> r@[m] == xor(a@, b@)[m],
        decreases 64 - k,
    {
        r[k] = a[k] ^ b[k];
        k = k + 1;
    }
    assert(r@ =~= xor(a@, b@));
    r
}

/// The compression function on a chaining value and one block.
pub fn compress_block(h: &[u8; 64], m: &[u8; 64]) -> (r: [u8; 64])
    ensures
        r@ == compress(h@, m@),
{
    let hm = xor_state(h, m);
    let p = permute(&hm, false);
    let q = permute(m, true);
    let pq = xor_state(&p, &q);
    xor_state(&pq, h)
}

/// The output transform of a chaining value.
pub fn transform_output(h: &[u8; 64]) -> (r: [u8; 64])
    ensures
        r@ == output_transform(h@),
{
    let p = permute(h, false);
    xor_state(&p, h)
}

/// The digest bytes of an output-transform result: its upper half.
pub fn extract_digest(out: &[u8; 64]) -> (d: [u8; 32])
    ensures
        d@ == out@.subrange(32, 64),
{
    let mut d: [u8; 32] = [0u8; 32];
    let mut k: usize = 0;
    while k < 32
        invariant
            k <= 32,
            forall|m: int| 0 <= m < k ==> d@[m] == out@[32 + m],
        decreases 32 - k,
    {
        d[k] = out[32 + k];
        k = k + 1;
    }
    assert(d@ =~= out@.subrange(32, 64));
    d
}

/// Absorbing the blocks of `a` and then those of `b` is absorbing those of
/// `a + b`, when `a` is made of whole blocks.
pub proof fn lemma_absorb_concat(h: Seq<u8>, a: Seq<u8>, b: Seq<u8>)
    requires
        a.len() % 64 == 0,
    ensures
        absorb_blocks(h, a + b) == absorb_blocks(absorb_blocks(h, a), b),
    decreases a.len(),
{
    if a.len() == 0 {
        assert(a + b =~= b);
    } else {
        assert((a + b).take(64) =~= a.take(64));
        assert((a + b).skip(64) =~= a.skip(64) + b);
        lemma_absorb_concat(compress(h, a.take(64)), a.skip(64), b);
    }
}

/// Every digest is 32 bytes long.
pub proof fn lemma_digest_len(m: Seq<u8>)
    ensures
        groestl256(m).len() == OUTPUT_SIZE,
{
}

} // verus!
