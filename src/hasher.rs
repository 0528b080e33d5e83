//! The streaming Grøstl-256 hasher: a chaining value with its block
//! counter, and a block buffer that gathers input into 64-byte blocks.
use vstd::prelude::*;
use block_buffer::BlockBuffer;
use block_buffer::generic_array::typenum::U64;
use crate::compress::{
    absorb_blocks, block_count, compress_block, extract_digest, full_len, groestl256, iv,
    lemma_absorb_concat, pad_tail, transform_output, zero_fill, BLOCK_SIZE,
};

verus! {

/// Gathers input bytes into 64-byte blocks; holds fewer than a block
/// between calls.
#[verifier::external_body]
pub struct BlockAccumulator {
    inner: BlockBuffer<U64>,
}

/// The bytes that a block buffer holds, waiting for a block to fill.
pub uninterp spec fn buffered(b: BlockAccumulator) -> Seq<u8>;

/// Relies on `BlockBuffer::default`: a new buffer holds no bytes.
#[verifier::external_body]
fn new_buffer() -> (b: BlockAccumulator)
    ensures
        buffered(b) == Seq::<u8>::empty(),
{
    BlockAccumulator { inner: BlockBuffer::default() }
}

/// Relies on `BlockBuffer::clone`: the copy holds the same bytes.
#[verifier::external_body]
fn clone_buffer(b: &BlockAccumulator) -> (r: BlockAccumulator)
    ensures
        buffered(r) == buffered(*b),
{
    BlockAccumulator { inner: b.inner.clone() }
}

/// Relies on `BlockBuffer::remaining`: block size minus the bytes held.
#[verifier::external_body]
fn buffer_remaining(b: &BlockAccumulator) -> (r: usize)
    ensures
        r == BLOCK_SIZE - buffered(*b).len(),
{
    b.inner.remaining()
}

/// Relies on `BlockBuffer::input`: the held bytes followed by `data` are cut
/// into blocks; each whole block goes, in order, to `HashState::input_block`,
/// and the bytes after the last whole block are held.
#[verifier::external_body]
fn buffer_input(b: &mut BlockAccumulator, state: &mut HashState, data: &[u8])
    requires
        buffered(*old(b)).len() < BLOCK_SIZE,
        old(state).block_counter + (buffered(*old(b)).len() + data@.len()) / 64 <= u64::MAX,
    ensures
        ({
            let all = buffered(*old(b)) + data@;
            let n = full_len(all.len());
            &&& buffered(*final(b)) == all.skip(n as int)
            &&& final(state).chaining@ == absorb_blocks(old(state).chaining@, all.take(n as int))
            &&& final(state).block_counter == old(state).block_counter + all.len() / 64
        }),
{
    b.inner.input(data, |block| state.input_block(block.as_slice()))
}

/// Relies on `BlockBuffer::len64_padding_be` with prefix 0x80: the held
/// bytes, 0x80 and zeros fill one block, or two where fewer than eight bytes
/// are left after the 0x80; `count` in big-endian order takes the last eight
/// bytes. Each block goes to `HashState::input_block`, and the buffer empties.
#[verifier::external_body]
fn buffer_pad(b: &mut BlockAccumulator, state: &mut HashState, count: u64)
    requires
        buffered(*old(b)).len() < BLOCK_SIZE,
        old(state).block_counter + 2 <= u64::MAX,
    ensures
        ({
            let tail = pad_tail(buffered(*old(b)), count);
            &&& buffered(*final(b)) == Seq::<u8>::empty()
            &&& final(state).chaining@ == absorb_blocks(old(state).chaining@, tail)
            &&& final(state).block_counter == old(state).block_counter + tail.len() / 64
        }),
{
    b.inner.len64_padding_be(0x80, count, |block| state.input_block(block.as_slice()))
}

/// The chaining value and the number of blocks absorbed into it.
#[derive(Clone, Debug)]
pub struct HashState {
    pub chaining: [u8; 64],
    pub block_counter: u64,
}

impl Default for HashState {
    /// The state before any block: the initial chaining value, no block.
    fn default() -> (s: HashState)
        ensures
            s.chaining@ == iv(),
            s.block_counter == 0,
    {
        let mut chaining: [u8; 64] = [0u8; 64];
        chaining[62] = 1;
        assert(chaining@ =~= iv());
        HashState { chaining, block_counter: 0 }
    }
}

impl HashState {
    /// Absorbs one 64-byte block.
    pub fn input_block(&mut self, block: &[u8])
        requires
            block@.len() == BLOCK_SIZE,
            old(self).block_counter < u64::MAX,
        ensures
            final(self).chaining@ == crate::compress::compress(old(self).chaining@, block@),
            final(self).block_counter == old(self).block_counter + 1,
    {
        let mut m: [u8; 64] = [0u8; 64];
        let mut k: usize = 0;
        while k < 64
            invariant
                k <= 64,
                block@.len() == 64,
                forall|i: int| 0 <= i < k ==> m@[i] == block@[i],
            decreases 64 - k,
        {
            m[k] = block[k];
            k = k + 1;
        }
        assert(m@ =~= block@);
        self.block_counter = self.block_counter + 1;
        self.chaining = compress_block(&self.chaining, &m);
    }

    /// Applies the output transform; the state is used up.
    pub fn finalize(self) -> (r: [u8; 64])
        ensures
            r@ == crate::compress::output_transform(self.chaining@),
    {
        transform_output(&self.chaining)
    }
}

/// Chaining value after the whole blocks of a message.
pub open spec fn chaining_of(m: Seq<u8>) -> Seq<u8> {
    absorb_blocks(iv(), m.take(full_len(m.len()) as int))
}

/// Bytes of a message after its last whole block.
pub open spec fn pending_of(m: Seq<u8>) -> Seq<u8> {
    m.skip(full_len(m.len()) as int)
}

/// One streaming step: the pending bytes and the chunk `c` are cut into
/// blocks, the whole ones are absorbed, the rest is pending.
pub open spec fn stream_step(h: Seq<u8>, p: Seq<u8>, c: Seq<u8>) -> (Seq<u8>, Seq<u8>) {
    let all = p + c;
    let n = full_len(all.len());
    (absorb_blocks(h, all.take(n as int)), all.skip(n as int))
}

/// Streams the chunks in order from chaining value `h` and pending bytes `p`.
pub open spec fn stream(h: Seq<u8>, p: Seq<u8>, chunks: Seq<Seq<u8>>) -> (Seq<u8>, Seq<u8>)
    decreases chunks.len(),
{
    if chunks.len() == 0 {
        (h, p)
    } else {
        let next = stream_step(h, p, chunks.first());
        stream(next.0, next.1, chunks.drop_first())
    }
}

/// Feeding a chunk after a message leaves the state that the message
/// followed by the chunk leaves.
pub proof fn lemma_stream_step(a: Seq<u8>, c: Seq<u8>)
    ensures
        stream_step(chaining_of(a), pending_of(a), c) == (
            chaining_of(a + c),
            pending_of(a + c),
        ),
{
    let fa = full_len(a.len());
    let q = a.len() / 64;
    let all = pending_of(a) + c;
    let n = full_len(all.len());
    assert(fa == 64 * q) by (nonlinear_arith)
        requires
            fa == a.len() / 64 * 64,
            q == a.len() / 64,
    ;
    assert(all.len() == a.len() - fa + c.len());
    assert(full_len((a + c).len()) == fa + n) by (nonlinear_arith)
        requires
            fa == 64 * q,
            (a + c).len() == fa + all.len(),
            n == all.len() / 64 * 64,
            full_len((a + c).len()) == (a + c).len() / 64 * 64,
    ;
    assert((a + c).take((fa + n) as int) =~= a.take(fa as int) + all.take(n as int));
    assert((a + c).skip((fa + n) as int) =~= all.skip(n as int));
    assert(fa % 64 == 0) by (nonlinear_arith)
        requires
            fa == 64 * q,
    ;
    lemma_absorb_concat(iv(), a.take(fa as int), all.take(n as int));
}

/// Streaming equivalence: feeding a message chunk by chunk leaves the same
/// chaining value and pending bytes as feeding their concatenation at once.
pub proof fn lemma_streaming_equivalence(a: Seq<u8>, chunks: Seq<Seq<u8>>)
    ensures
        stream(chaining_of(a), pending_of(a), chunks) == (
            chaining_of(a + chunks.flatten()),
            pending_of(a + chunks.flatten()),
        ),
    decreases chunks.len(),
{
    if chunks.len() == 0 {
        assert(a + chunks.flatten() =~= a);
    } else {
        lemma_stream_step(a, chunks.first());
        lemma_streaming_equivalence(a + chunks.first(), chunks.drop_first());
        assert(a + chunks.first() + chunks.drop_first().flatten() =~= a + chunks.flatten());
    }
}

/// The streaming Grøstl-256 hasher.
pub struct Groestl256 {
    buffer: BlockAccumulator,
    state: HashState,
    message: Ghost<Seq<u8>>,
}

impl View for Groestl256 {
    type V = Seq<u8>;

    /// Every byte fed since the hasher was made or reset.
    closed spec fn view(&self) -> Seq<u8> {
        self.message@
    }
}

impl Groestl256 {
    /// The hasher's parts agree with the bytes fed so far: whole blocks are
    /// absorbed and counted, the rest is buffered.
    pub closed spec fn wf(&self) -> bool {
        let m = self.message@;
        &&& m.len() <= u64::MAX
        &&& buffered(self.buffer) == pending_of(m)
        &&& self.state.chaining@ == chaining_of(m)
        &&& self.state.block_counter == m.len() / 64
    }

    /// A hasher that has been fed nothing.
    pub fn new() -> (h: Groestl256)
        ensures
            h.wf(),
            h@ == Seq::<u8>::empty(),
    {
        let ghost m = Seq::<u8>::empty();
        assert(m.take(0) =~= m);
        Groestl256 { buffer: new_buffer(), state: HashState::default(), message: Ghost(m) }
    }

    /// Feeds `data` to the hasher.
    pub fn input(&mut self, data: &[u8])
        requires
            old(self).wf(),
            old(self)@.len() + data@.len() <= u64::MAX,
        ensures
            final(self).wf(),
            final(self)@ == old(self)@ + data@,
    {
        let ghost m = self.message@;
        proof {
            lemma_stream_step(m, data@);
            lemma_pending_len(m);
            lemma_pending_len(m + data@);
            let all = pending_of(m) + data@;
            assert(m.len() / 64 + all.len() / 64 == (m + data@).len() / 64) by (nonlinear_arith)
                requires
                    m.len() == 64 * (m.len() / 64) + pending_of(m).len(),
                    all.len() == pending_of(m).len() + data@.len(),
                    pending_of(m).len() < 64,
                    (m + data@).len() == m.len() + data@.len(),
            ;
            assert(m.len() / 64 + all.len() / 64 <= u64::MAX) by (nonlinear_arith)
                requires
                    m.len() / 64 + all.len() / 64 == (m + data@).len() / 64,
                    (m + data@).len() <= u64::MAX,
            ;
        }
        buffer_input(&mut self.buffer, &mut self.state, data);
        self.message = Ghost(m + data@);
    }

    /// Pads what was fed, absorbs the padding and returns the digest.
    pub fn fixed_result(self) -> (r: [u8; 32])
        requires
            self.wf(),
        ensures
            r@ == groestl256(self@),
    {
        let Groestl256 { mut buffer, mut state, message } = self;
        let ghost m = message@;
        proof {
            lemma_pending_len(m);
            assert(m.len() / 64 + 2 <= u64::MAX) by (nonlinear_arith)
                requires
                    m.len() <= u64::MAX,
            ;
        }
        let extra: u64 = if buffer_remaining(&buffer) <= 8 { 2 } else { 1 };
        let count = state.block_counter + extra;
        proof {
            let r = pending_of(m).len();
            let q = m.len() / 64;
            assert(m.len() % 64 == r);
            assert(count == block_count(m.len())) by (nonlinear_arith)
                requires
                    m.len() == 64 * q + r,
                    r < 64,
                    m.len() % 64 == r,
                    count == q + extra,
                    extra == (if r >= 56 { 2int } else { 1int }),
                    zero_fill(r) == (if r <= 55 { 55 - r } else { 119 - r }),
                    block_count(m.len()) == (m.len() + 9 + zero_fill(m.len() % 64)) / 64,
            ;
            let fa = full_len(m.len());
            assert(fa % 64 == 0) by (nonlinear_arith)
                requires
                    fa == m.len() / 64 * 64,
            ;
            lemma_absorb_concat(iv(), m.take(fa as int), pad_tail(pending_of(m), count));
        }
        buffer_pad(&mut buffer, &mut state, count);
        let out = state.finalize();
        extract_digest(&out)
    }

    /// Brings the hasher back to the state of a new one.
    pub fn reset(&mut self)
        ensures
            final(self).wf(),
            final(self)@ == Seq::<u8>::empty(),
    {
        *self = Groestl256::new();
    }
}

impl Clone for Groestl256 {
    fn clone(&self) -> (h: Groestl256)
        ensures
            h.wf() == self.wf(),
            h@ == self@,
    {
        Groestl256 {
            buffer: clone_buffer(&self.buffer),
            state: HashState { chaining: self.state.chaining, block_counter: self.state.block_counter },
            message: Ghost(self.message@),
        }
    }
}

impl Default for Groestl256 {
    fn default() -> (h: Groestl256)
        ensures
            h.wf(),
            h@ == Seq::<u8>::empty(),
    {
        Groestl256::new()
    }
}

/// The bytes after the last whole block are fewer than a block, and the
/// message is that many bytes longer than its whole blocks.
proof fn lemma_pending_len(m: Seq<u8>)
    ensures
        pending_of(m).len() < 64,
        m.len() == 64 * (m.len() / 64) + pending_of(m).len(),
        full_len(m.len()) == 64 * (m.len() / 64),
{
}

} // verus!
