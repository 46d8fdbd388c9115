use vstd::prelude::*;

verus! {

/// Odd multiplier that spreads the packed chunk coordinates over all 64 bits.
pub const COORD_SPREAD: u64 = 0x9e37_79b9_7f4a_7c15;

/// Multiplicative inverse of `COORD_SPREAD` modulo 2^64.
pub const COORD_SPREAD_INV: u64 = 0xf1de_83e1_9937_733d;

/// First multiplier of the 64-bit finalizer.
pub const MIX_MUL_1: u64 = 0xff51_afd7_ed55_8ccd;

/// Multiplicative inverse of `MIX_MUL_1` modulo 2^64.
pub const MIX_MUL_1_INV: u64 = 0x4f74_430c_22a5_4005;

/// Second multiplier of the 64-bit finalizer.
pub const MIX_MUL_2: u64 = 0xc4ce_b9fe_1a85_ec53;

/// Multiplicative inverse of `MIX_MUL_2` modulo 2^64.
pub const MIX_MUL_2_INV: u64 = 0x9cb4_b2f8_1293_37db;

/// `h ^ (h >> 33)`: a shift-xor step, its own inverse.
pub open spec fn xorshift33(h: u64) -> u64 {
    h ^ (h >> 33u64)
}

/// The 64-bit finalizer: shift-xor steps around two odd multiplications.
pub open spec fn mix64(h: u64) -> u64 {
    xorshift33(xorshift33(xorshift33(h).wrapping_mul(MIX_MUL_1)).wrapping_mul(MIX_MUL_2))
}

/// The chunk coordinates packed into one word: `x` in the high half, `z` in the low half,
/// each as its two's-complement bits.
pub open spec fn coord_word(x: i32, z: i32) -> u64 {
    ((x as u32 as u64) << 32u64) | (z as u32 as u64)
}

/// The inputs that decide a chunk's random stream.
#[derive(Clone, Copy, Debug, PartialEq, Eq, Structural)]
pub struct ChunkSeedKey {
    pub global_seed: u32,
    pub chunk_x: i32,
    pub chunk_z: i32,
}

/// The 64-bit seed of a chunk's random stream: the packed coordinates are spread by an
/// odd multiplier, xored with the global seed, and finalized by `mix64`.
pub open spec fn stream_seed_of(key: ChunkSeedKey) -> u64 {
    mix64(coord_word(key.chunk_x, key.chunk_z).wrapping_mul(COORD_SPREAD) ^ (key.global_seed as u64))
}

proof fn lemma_wrapping_mul_inverse(a: u64, m: u64, m_inv: u64)
    requires
        (m == COORD_SPREAD && m_inv == COORD_SPREAD_INV) || (m == MIX_MUL_1 && m_inv
            == MIX_MUL_1_INV) || (m == MIX_MUL_2 && m_inv == MIX_MUL_2_INV),
    ensures
        a.wrapping_mul(m).wrapping_mul(m_inv) == a,
{
    let b = a.wrapping_mul(m);
    assert(((a * m) % 0x1_0000_0000_0000_0000) as u64 == (a * m) as u64) by (bit_vector);
    assert(((b * m_inv) % 0x1_0000_0000_0000_0000) as u64 == (b * m_inv) as u64) by (bit_vector);
    if m == COORD_SPREAD {
        assert(((a * COORD_SPREAD) as u64 * COORD_SPREAD_INV) as u64 == a) by (bit_vector);
    } else if m == MIX_MUL_1 {
        assert(((a * MIX_MUL_1) as u64 * MIX_MUL_1_INV) as u64 == a) by (bit_vector);
    } else {
        assert(((a * MIX_MUL_2) as u64 * MIX_MUL_2_INV) as u64 == a) by (bit_vector);
    }
}

proof fn lemma_wrapping_mul_injective(a: u64, b: u64, m: u64, m_inv: u64)
    requires
        (m == COORD_SPREAD && m_inv == COORD_SPREAD_INV) || (m == MIX_MUL_1 && m_inv
            == MIX_MUL_1_INV) || (m == MIX_MUL_2 && m_inv == MIX_MUL_2_INV),
        a.wrapping_mul(m) == b.wrapping_mul(m),
    ensures
        a == b,
{
    lemma_wrapping_mul_inverse(a, m, m_inv);
    lemma_wrapping_mul_inverse(b, m, m_inv);
}

proof fn lemma_xorshift33_injective(a: u64, b: u64)
    requires
        xorshift33(a) == xorshift33(b),
    ensures
        a == b,
{
    assert(xorshift33(xorshift33(a)) == a) by (bit_vector);
    assert(xorshift33(xorshift33(b)) == b) by (bit_vector);
}

/// `mix64` is a bijection: distinct words never mix to the same value.
pub proof fn lemma_mix64_injective(a: u64, b: u64)
    requires
        a != b,
    ensures
        mix64(a) != mix64(b),
{
    if mix64(a) == mix64(b) {
        let a1 = xorshift33(a).wrapping_mul(MIX_MUL_1);
        let b1 = xorshift33(b).wrapping_mul(MIX_MUL_1);
        lemma_xorshift33_injective(xorshift33(a1).wrapping_mul(MIX_MUL_2), xorshift33(b1).wrapping_mul(MIX_MUL_2));
        lemma_wrapping_mul_injective(xorshift33(a1), xorshift33(b1), MIX_MUL_2, MIX_MUL_2_INV);
        lemma_xorshift33_injective(a1, b1);
        lemma_wrapping_mul_injective(xorshift33(a), xorshift33(b), MIX_MUL_1, MIX_MUL_1_INV);
        lemma_xorshift33_injective(a, b);
    }
}

/// Changing the global seed while holding the chunk coordinates fixed always changes the
/// chunk's stream seed.
pub proof fn lemma_stream_seed_separates_seeds(seed_a: u32, seed_b: u32, chunk_x: i32, chunk_z: i32)
    requires
        seed_a != seed_b,
    ensures
        stream_seed_of(ChunkSeedKey { global_seed: seed_a, chunk_x, chunk_z })
            != stream_seed_of(ChunkSeedKey { global_seed: seed_b, chunk_x, chunk_z }),
{
    let spread = coord_word(chunk_x, chunk_z).wrapping_mul(COORD_SPREAD);
    assert((spread ^ (seed_a as u64)) != (spread ^ (seed_b as u64))) by (bit_vector)
        requires
            seed_a != seed_b,
    ;
    lemma_mix64_injective(spread ^ (seed_a as u64), spread ^ (seed_b as u64));
}

/// Under one global seed, two different chunks always get different stream seeds.
pub proof fn lemma_stream_seed_separates_chunks(global_seed: u32, ax: i32, az: i32, bx: i32, bz: i32)
    requires
        ax != bx || az != bz,
    ensures
        stream_seed_of(ChunkSeedKey { global_seed, chunk_x: ax, chunk_z: az })
            != stream_seed_of(ChunkSeedKey { global_seed, chunk_x: bx, chunk_z: bz }),
{
    let wa = coord_word(ax, az);
    let wb = coord_word(bx, bz);
    assert(wa != wb) by (bit_vector)
        requires
            ax != bx || az != bz,
            wa == coord_word(ax, az),
            wb == coord_word(bx, bz),
    ;
    if wa.wrapping_mul(COORD_SPREAD) == wb.wrapping_mul(COORD_SPREAD) {
        lemma_wrapping_mul_injective(wa, wb, COORD_SPREAD, COORD_SPREAD_INV);
    }
    let sa = wa.wrapping_mul(COORD_SPREAD);
    let sb = wb.wrapping_mul(COORD_SPREAD);
    let g = global_seed as u64;
    assert((sa ^ g) != (sb ^ g)) by (bit_vector)
        requires
            sa != sb,
    ;
    lemma_mix64_injective(sa ^ g, sb ^ g);
}

impl ChunkSeedKey {
    /// The seed of this chunk's random stream.
    pub fn stream_seed(&self) -> (r: u64)
        ensures
            r == stream_seed_of(*self),
    {
        let word: u64 = ((self.chunk_x as u32 as u64) << 32u64) | (self.chunk_z as u32 as u64);
        let h: u64 = word.wrapping_mul(COORD_SPREAD) ^ (self.global_seed as u64);
        let a: u64 = h ^ (h >> 33u64);
        let b: u64 = a.wrapping_mul(MIX_MUL_1);
        let c: u64 = b ^ (b >> 33u64);
        let d: u64 = c.wrapping_mul(MIX_MUL_2);
        d ^ (d >> 33u64)
    }
}

} // verus!
