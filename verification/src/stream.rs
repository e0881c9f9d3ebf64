//! The keyed stream generator: deterministic expansion of a 32-byte seed into
//! an arbitrarily long byte stream, produced one block at a time.
//!
//! The write path and the read path each construct their own instance from the
//! same seed; verification rests on both instances producing the same bytes at
//! the same positions. The underlying generator's output depends on the seed
//! and on the lengths of all fills made so far, so this type fixes every fill
//! to one block size chosen at construction; the bytes of fill number `k` are
//! then a function of the seed, the block size and `k` alone.

use vstd::prelude::*;

use crate::seed::Seed;
use rand_chacha::rand_core::RngCore;
use rand_chacha::rand_core::SeedableRng;

verus! {

#[verifier::external_type_specification]
#[verifier::external_body]
pub struct ExChaCha12Rng(rand_chacha::ChaCha12Rng);

/// Relies on rand_chacha::ChaCha12Rng::from_seed: construction is a pure
/// function of the 32 seed bytes. `KeyedStream` records those bytes beside the
/// generator; its `fill` contract speaks of them.
#[verifier::external_body]
fn chacha_from_seed(seed: &Seed) -> (r: rand_chacha::ChaCha12Rng)
    requires
        seed.wf(),
{
    let mut raw = [0u8; 32];
    raw.copy_from_slice(seed.bytes().as_slice());
    rand_chacha::ChaCha12Rng::from_seed(raw)
}

/// The bytes returned by fill number `block` (counting from zero) of a
/// generator built from `seed`, every fill of which requests exactly
/// `block_size` bytes.
pub uninterp spec fn keystream_block(seed: Seq<u8>, block_size: int, block: int) -> Seq<u8>;

/// Byte `pos` of the keyed stream for `seed`, as produced in blocks of
/// `block_size` bytes.
pub open spec fn stream_byte(seed: Seq<u8>, block_size: int, pos: int) -> u8
    recommends
        block_size >= 1,
        pos >= 0,
{
    keystream_block(seed, block_size, pos / block_size)[pos % block_size]
}

/// A generator instance: a cursor over the keyed stream for one seed,
/// advanced monotonically one block per fill and never rewound.
pub struct KeyedStream {
    rng: rand_chacha::ChaCha12Rng,
    size: usize,
    seed: Ghost<Seq<u8>>,
    blocks: Ghost<int>,
}

impl KeyedStream {
    /// The seed this instance was built from.
    pub closed spec fn seed(&self) -> Seq<u8> {
        self.seed@
    }

    /// How many blocks this instance has produced so far.
    pub closed spec fn blocks(&self) -> int {
        self.blocks@
    }

    /// The fixed number of bytes every fill produces.
    pub closed spec fn block_size(&self) -> int {
        self.size as int
    }

    pub open spec fn wf(&self) -> bool {
        self.block_size() >= 1 && self.blocks() >= 0 && self.seed().len() == 32
    }

    /// The fixed number of bytes every fill produces.
    pub fn size(&self) -> (r: usize)
        ensures
            r as int == self.block_size(),
    {
        self.size
    }

    /// Builds a fresh generator over the keyed stream for `seed`.
    pub fn new(seed: &Seed, block_size: usize) -> (r: KeyedStream)
        requires
            seed.wf(),
            block_size >= 1,
        ensures
            r.seed() == seed@,
            r.blocks() == 0,
            r.block_size() == block_size as int,
    {
        KeyedStream {
            rng: chacha_from_seed(seed),
            size: block_size,
            seed: Ghost(seed@),
            blocks: Ghost(0),
        }
    }

    /// Relies on rand_core's RngCore::fill_bytes as implemented for
    /// ChaCha12Rng: the bytes of a fill are a deterministic function of the
    /// seed and of the lengths of all fills made on the instance so far. The
    /// only constructor builds the generator from the recorded seed, and every
    /// fill through this type requests exactly `block_size` bytes, so fill
    /// number `k` returns `keystream_block(seed, block_size, k)`.
    #[verifier::external_body]
    fn fill_raw(&mut self, buf: &mut Vec<u8>)
        requires
            old(self).wf(),
            old(buf)@.len() == old(self).block_size(),
        ensures
            final(self).seed() == old(self).seed(),
            final(self).block_size() == old(self).block_size(),
            final(self).blocks() == old(self).blocks() + 1,
            final(buf)@.len() == old(buf)@.len(),
            final(buf)@ == keystream_block(old(self).seed(), old(self).block_size(), old(self).blocks()),
    {
        self.rng.fill_bytes(buf.as_mut_slice());
    }

    /// Produces the next block of the keyed stream into `buf`, advancing this
    /// instance by one block.
    pub fn fill(&mut self, buf: &mut Vec<u8>)
        requires
            old(self).wf(),
            old(buf)@.len() == old(self).block_size(),
        ensures
            final(self).seed() == old(self).seed(),
            final(self).block_size() == old(self).block_size(),
            final(self).blocks() == old(self).blocks() + 1,
            final(buf)@.len() == old(buf)@.len(),
            final(buf)@ == keystream_block(old(self).seed(), old(self).block_size(), old(self).blocks()),
    {
        self.fill_raw(buf);
    }
}

/// Law: stream determinism. Two independently constructed generator instances
/// with the same seed and the same block size produce the same bytes at every
/// block index: the output depends on seed, block size and position alone,
/// never on the instance.
pub proof fn lemma_stream_determinism(a: KeyedStream, b: KeyedStream, block: int)
    requires
        a.seed() == b.seed(),
        a.block_size() == b.block_size(),
    ensures
        keystream_block(a.seed(), a.block_size(), block) == keystream_block(
            b.seed(),
            b.block_size(),
            block,
        ),
{
}

/// Relates a position inside a block to the flat stream position: byte `off`
/// of block `block` is stream byte `block * block_size + off`.
pub proof fn lemma_stream_byte_decompose(seed: Seq<u8>, block_size: int, block: int, off: int)
    requires
        block_size >= 1,
        block >= 0,
        0 <= off < block_size,
    ensures
        stream_byte(seed, block_size, block * block_size + off) == keystream_block(
            seed,
            block_size,
            block,
        )[off],
{
    vstd::arithmetic::div_mod::lemma_fundamental_div_mod_converse(
        block * block_size + off,
        block_size,
        block,
        off,
    );
}

} // verus!
