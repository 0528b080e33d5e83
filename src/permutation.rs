//! The permutations P and Q of Grøstl-256 over an 8x8 byte matrix.
//!
//! A state is 64 bytes stored column by column: byte `k` holds row `k % 8`
//! of column `k / 8`.
use vstd::prelude::*;
use crate::field::{sbox, gf_mul, sub_byte, field_mul};

verus! {

/// Number of rounds of P and of Q for the 512-bit state.
pub const ROUNDS: u8 = 10;

/// Byte mixed into column `j` in round `r`: the column index in the high
/// nibble, the round number in the low one.
pub open spec fn column_const(j: int, r: int) -> u8 {
    (j * 16 + r) as u8
}

/// AddRoundConstant. P alters row 0; Q complements every byte and alters
/// row 7 on top of that.
pub open spec fn add_round_constant(a: Seq<u8>, r: int, q: bool) -> Seq<u8> {
    Seq::new(
        64,
        |k: int|
            if !q {
                if k % 8 == 0 {
                    a[k] ^ column_const(k / 8, r)
                } else {
                    a[k]
                }
            } else {
                if k % 8 == 7 {
                    a[k] ^ (0xff ^ column_const(k / 8, r))
                } else {
                    a[k] ^ 0xff
                }
            },
    )
}

/// SubBytes: the substitution box on every byte.
pub open spec fn sub_bytes(a: Seq<u8>) -> Seq<u8> {
    Seq::new(64, |k: int| sbox(a[k]))
}

/// How far ShiftBytes rotates row `i` to the left.
pub open spec fn row_shift(q: bool, i: int) -> int {
    if !q {
        i
    } else {
        seq![1int, 3, 5, 7, 0, 2, 4, 6][i]
    }
}

/// ShiftBytes: row `i` rotates left by `row_shift(q, i)` columns.
pub open spec fn shift_bytes(a: Seq<u8>, q: bool) -> Seq<u8> {
    Seq::new(64, |k: int| a[8 * ((k / 8 + row_shift(q, k % 8)) % 8) + k % 8])
}

/// First row of the circulant matrix of MixBytes.
pub open spec fn mix_coef(d: int) -> u8 {
    seq![2u8, 2, 3, 4, 5, 3, 5, 7][d]
}

/// Sum of the first `n` terms of row `i` of the matrix product with column `j`.
pub open spec fn mix_sum(a: Seq<u8>, j: int, i: int, n: nat) -> u8
    decreases n,
{
    if n == 0 {
        0
    } else {
        mix_sum(a, j, i, (n - 1) as nat) ^ gf_mul(
            mix_coef((n - 1 - i + 8) % 8),
            a[8 * j + n - 1],
        )
    }
}

/// MixBytes: every column multiplied by the circulant matrix.
pub open spec fn mix_bytes(a: Seq<u8>) -> Seq<u8> {
    Seq::new(64, |k: int| mix_sum(a, k / 8, k % 8, 8))
}

/// Round `r` of P (`q == false`) or Q (`q == true`).
pub open spec fn round(a: Seq<u8>, r: int, q: bool) -> Seq<u8> {
    mix_bytes(shift_bytes(sub_bytes(add_round_constant(a, r, q)), q))
}

/// The first `n` rounds.
pub open spec fn rounds(a: Seq<u8>, q: bool, n: nat) -> Seq<u8>
    decreases n,
{
    if n == 0 {
        a
    } else {
        round(rounds(a, q, (n - 1) as nat), n - 1, q)
    }
}

/// The permutation P.
pub open spec fn perm_p(a: Seq<u8>) -> Seq<u8> {
    rounds(a, false, ROUNDS as nat)
}

/// The permutation Q.
pub open spec fn perm_q(a: Seq<u8>) -> Seq<u8> {
    rounds(a, true, ROUNDS as nat)
}

fn exec_add_round_constant(a: &[u8; 64], r: u8, q: bool) -> (b: [u8; 64])
    requires
        r < 16,
    ensures
        b@ == add_round_constant(a@, r as int, q),
{
    let mut b: [u8; 64] = [0u8; 64];
    let mut k: usize = 0;
    while k < 64
        invariant
            k <= 64,
            r < 16,
            forall|m: int| 0 <= m < k ==> b@[m] == add_round_constant(a@, r as int, q)[m],
        decreases 64 - k,
    {
        let c: u8 = ((k / 8) as u8) * 16 + r;
        let v: u8 = if !q {
            if k % 8 == 0 {
                a[k] ^ c
            } else {
                a[k]
            }
        } else {
            if k % 8 == 7 {
                a[k] ^ (0xff ^ c)
            } else {
                a[k] ^ 0xff
            }
        };
        b[k] = v;
        k = k + 1;
    }
    assert(b@ =~= add_round_constant(a@, r as int, q));
    b
}

fn exec_sub_bytes(a: &[u8; 64]) -> (b: [u8; 64])
    ensures
        b@ == sub_bytes(a@),
{
    let mut b: [u8; 64] = [0u8; 64];
    let mut k: usize = 0;
    while k < 64
        invariant
            k <= 64,
            forall|m: int| 0 <= m < k ==> b@[m] == sub_bytes(a@)[m],
        decreases 64 - k,
    {
        b[k] = sub_byte(a[k]);
        k = k + 1;
    }
    assert(b@ =~= sub_bytes(a@));
    b
}

fn exec_row_shift(q: bool, i: usize) -> (s: usize)
    requires
        i < 8,
    ensures
        s == row_shift(q, i as int),
        s < 8,
{
    if !q {
        i
    } else {
        let t: [usize; 8] = [1, 3, 5, 7, 0, 2, 4, 6];
        proof {
            assert(t@ =~= seq![1usize, 3, 5, 7, 0, 2, 4, 6]);
        }
        t[i]
    }
}

fn exec_shift_bytes(a: &[u8; 64], q: bool) -> (b: [u8; 64])
    ensures
        b@ == shift_bytes(a@, q),
{
    let mut b: [u8; 64] = [0u8; 64];
    let mut k: usize = 0;
    while k < 64
        invariant
            k <= 64,
            forall|m: int| 0 <= m < k ==> b@[m] == shift_bytes(a@, q)[m],
        decreases 64 - k,
    {
        let s = exec_row_shift(q, k % 8);
        b[k] = a[8 * ((k / 8 + s) % 8) + k % 8];
        k = k + 1;
    }
    assert(b@ =~= shift_bytes(a@, q));
    b
}

fn exec_mix_coef(d: usize) -> (c: u8)
    requires
        d < 8,
    ensures
        c == mix_coef(d as int),
{
    let t: [u8; 8] = [2, 2, 3, 4, 5, 3, 5, 7];
    proof {
        assert(t@ =~= seq![2u8, 2, 3, 4, 5, 3, 5, 7]);
    }
    t[d]
}

fn exec_mix_cell(a: &[u8; 64], j: usize, i: usize) -> (v: u8)
    requires
        j < 8,
        i < 8,
    ensures
        v == mix_sum(a@, j as int, i as int, 8),
{
    let mut acc: u8 = 0;
    let mut n: usize = 0;
    while n < 8
        invariant
            n <= 8,
            j < 8,
            i < 8,
            acc == mix_sum(a@, j as int, i as int, n as nat),
        decreases 8 - n,
    {
        let c = exec_mix_coef((n + 8 - i) % 8);
        acc = acc ^ field_mul(c, a[8 * j + n]);
        n = n + 1;
    }
    acc
}

fn exec_mix_bytes(a: &[u8; 64]) -> (b: [u8; 64])
    ensures
        b@ == mix_bytes(a@),
{
    let mut b: [u8; 64] = [0u8; 64];
    let mut k: usize = 0;
    while k < 64
        invariant
            k <= 64,
            forall|m: int| 0 <= m < k ==> b@[m] == mix_bytes(a@)[m],
        decreases 64 - k,
    {
        b[k] = exec_mix_cell(a, k / 8, k % 8);
        k = k + 1;
    }
    assert(b@ =~= mix_bytes(a@));
    b
}

/// One round of P or Q.
pub fn apply_round(a: &[u8; 64], r: u8, q: bool) -> (b: [u8; 64])
    requires
        r < 16,
    ensures
        b@ == round(a@, r as int, q),
{
    let s1 = exec_add_round_constant(a, r, q);
    let s2 = exec_sub_bytes(&s1);
    let s3 = exec_shift_bytes(&s2, q);
    exec_mix_bytes(&s3)
}

/// Applies P (`q == false`) or Q (`q == true`) to a state.
pub fn permute(a: &[u8; 64], q: bool) -> (b: [u8; 64])
    ensures
        b@ == rounds(a@, q, ROUNDS as nat),
{
    let mut s: [u8; 64] = *a;
    let mut r: u8 = 0;
    while r < ROUNDS
        invariant
            r <= ROUNDS,
            s@ == rounds(a@, q, r as nat),
        decreases ROUNDS - r,
    {
        s = apply_round(&s, r, q);
        r = r + 1;
    }
    s
}

} // verus!
