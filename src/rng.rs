use rand_chacha::rand_core::{RngCore, SeedableRng};
use rand_chacha::ChaCha20Rng;
use sha2::Digest;
use vstd::prelude::*;

verus! {

#[verifier::external_type_specification]
#[verifier::external_body]
pub struct ExChaCha20Rng(ChaCha20Rng);

/// Number of 32-bit words after which a ChaCha20 stream cycles.
pub const STREAM_WORDS: u128 = 0x1_0000_0000_0000_0000_0;

/// The SHA-256 digest of `data`.
pub uninterp spec fn sha256_of(data: Seq<u8>) -> Seq<u8>;

/// The key that a ChaCha20 generator was seeded with.
pub uninterp spec fn rng_seed(r: ChaCha20Rng) -> Seq<u8>;

/// The stream number of a ChaCha20 generator (the nonce words of its state).
pub uninterp spec fn rng_stream(r: ChaCha20Rng) -> u64;

/// The position of a ChaCha20 generator in its stream, in 32-bit words.
pub uninterp spec fn rng_word_pos(r: ChaCha20Rng) -> int;

/// The 32 bytes of the ChaCha20 key stream of `key` and stream number
/// `stream` that start at word `word_pos`.
pub uninterp spec fn chacha20_block(key: Seq<u8>, stream: u64, word_pos: int) -> Seq<u8>;

/// Relies on sha2's `Sha256::digest`: the digest depends on the bytes alone.
#[verifier::external_body]
fn sha256(data: &[u8]) -> (r: [u8; 32])
    ensures
        r@ == sha256_of(data@),
{
    sha2::Sha256::digest(data).into()
}

/// Relies on rand_chacha's `ChaCha20Rng::from_seed`: a generator keyed by
/// `seed`, on stream 0, at the start of that stream.
#[verifier::external_body]
fn chacha_from_seed(seed: [u8; 32]) -> (r: ChaCha20Rng)
    ensures
        rng_seed(r) == seed@,
        rng_stream(r) == 0,
        rng_word_pos(r) == 0,
{
    ChaCha20Rng::from_seed(seed)
}

/// Relies on rand_chacha's `ChaCha20Rng::fill_bytes`: 32 bytes take the next
/// eight words of the key stream of the generator's key and stream number,
/// and the stream cycles after `STREAM_WORDS`.
#[verifier::external_body]
fn chacha_fill_32(rng: &mut ChaCha20Rng) -> (r: [u8; 32])
    ensures
        r@ == chacha20_block(rng_seed(*old(rng)), rng_stream(*old(rng)), rng_word_pos(*old(rng))),
        rng_seed(*final(rng)) == rng_seed(*old(rng)),
        rng_stream(*final(rng)) == rng_stream(*old(rng)),
        rng_word_pos(*final(rng)) == (rng_word_pos(*old(rng)) + 8) % (STREAM_WORDS as int),
{
    let mut bytes = [0u8; 32];
    rng.fill_bytes(&mut bytes);
    bytes
}

/// A deterministic generator of 32-byte draws. It is keyed by the SHA-256
/// digest of a domain tag followed by a seed, so that one seed gives
/// independent streams for different tags.
pub struct Prng {
    rng: ChaCha20Rng,
}

impl Prng {
    /// The ChaCha20 key of this generator.
    pub closed spec fn key(&self) -> Seq<u8> {
        rng_seed(self.rng)
    }

    /// The stream number of this generator.
    pub closed spec fn stream(&self) -> u64 {
        rng_stream(self.rng)
    }

    /// The position of the next draw in the key stream, in words.
    pub closed spec fn word_pos(&self) -> int {
        rng_word_pos(self.rng)
    }

    /// The bytes that the next draw returns.
    pub open spec fn next_draw(&self) -> Seq<u8> {
        chacha20_block(self.key(), self.stream(), self.word_pos())
    }

    /// A generator for the domain tag `tag` and the seed `seed`.
    pub fn new(tag: &[u8], seed: &[u8]) -> (p: Prng)
        requires
            tag@.len() + seed@.len() <= usize::MAX,
        ensures
            p.key() == sha256_of(tag@ + seed@),
            p.stream() == 0,
            p.word_pos() == 0,
    {
        let mut input: Vec<u8> = Vec::new();
        let mut i: usize = 0;
        while i < tag.len()
            invariant
                i <= tag@.len(),
                input@ == tag@.subrange(0, i as int),
            decreases tag@.len() - i,
        {
            input.push(tag[i]);
            i = i + 1;
        }
        let mut j: usize = 0;
        while j < seed.len()
            invariant
                j <= seed@.len(),
                input@ == tag@ + seed@.subrange(0, j as int),
            decreases seed@.len() - j,
        {
            input.push(seed[j]);
            j = j + 1;
        }
        assert(tag@.subrange(0, tag@.len() as int) == tag@);
        assert(seed@.subrange(0, seed@.len() as int) == seed@);
        let digest = sha256(input.as_slice());
        Prng { rng: chacha_from_seed(digest) }
    }

    /// Draws the next 32 bytes.
    pub fn rand_bytes(&mut self) -> (r: [u8; 32])
        ensures
            r@ == old(self).next_draw(),
            final(self).key() == old(self).key(),
            final(self).stream() == old(self).stream(),
            final(self).word_pos() == (old(self).word_pos() + 8) % (STREAM_WORDS as int),
    {
        chacha_fill_32(&mut self.rng)
    }
}

} // verus!
