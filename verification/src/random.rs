//! The global random-number source: a permuted-congruential generator seeded
//! once from the operating system.
//!
//! The generator itself comes from an outside crate and its values are taken
//! as unconstrained; what this module adds — the seeding, the signed-range
//! mapping, the byte filling and the narrowing helpers — is verified around
//! it.

use vstd::prelude::*;

verus! {

/// The seed bytes could not be read from the operating system.
#[derive(Debug, Copy, Clone, PartialEq, Eq, Structural)]
pub struct RandomInitError;

#[verifier::external_type_specification]
#[verifier::external_body]
pub struct ExRand64(oorandom::Rand64);

#[verifier::external_type_specification]
#[verifier::external_body]
pub struct ExGetrandomError(getrandom::Error);

/// Relies on oorandom::Rand64::new: builds a generator from a 128-bit seed.
pub assume_specification [ oorandom::Rand64::new ](seed: u128) -> oorandom::Rand64;

/// Relies on oorandom::Rand64::rand_u64: produces a value anywhere in the
/// full 64-bit range; nothing more is promised of it.
pub assume_specification [ oorandom::Rand64::rand_u64 ](rng: &mut oorandom::Rand64) -> u64;

/// Relies on oorandom::Rand64::rand_i64: produces a value anywhere in the
/// full signed 64-bit range; nothing more is promised of it.
pub assume_specification [ oorandom::Rand64::rand_i64 ](rng: &mut oorandom::Rand64) -> i64;

/// Relies on oorandom::Rand64::rand_range: produces a value in `[start,
/// end)`, including the lower bound and excluding the upper one; the source
/// requires a non-empty range.
pub assume_specification [ oorandom::Rand64::rand_range ](
    rng: &mut oorandom::Rand64,
    range: core::ops::Range<u64>,
) -> (value: u64)
    requires
        range.start < range.end,
    ensures
        range.start <= value < range.end,
;

/// Relies on getrandom::getrandom: fills the buffer with random bytes from
/// the operating system, reporting an environment error when it cannot; the
/// buffer keeps its length either way.
#[verifier::external_body]
fn fill_random_bytes(buffer: &mut Vec<u8>) -> (result: Result<(), getrandom::Error>)
    ensures
        final (buffer)@.len() == old(buffer)@.len(),
{
    getrandom::getrandom(buffer.as_mut_slice())
}

/// The little-endian value of sixteen bytes.
pub open spec fn spec_u128_from_le_bytes(bytes: Seq<u8>) -> int
    decreases bytes.len(),
{
    if bytes.len() == 0 {
        0
    } else {
        bytes.first() + 256 * spec_u128_from_le_bytes(bytes.drop_first())
    }
}

/// Powers of two past the 64-bit table, as products of tabled ones.
proof fn lemma_pow2_past_64()
    ensures
        vstd::arithmetic::power2::pow2(120) == 0x1000000_00000000_00000000_00000000,
        vstd::arithmetic::power2::pow2(128) == 0x1_00000000_00000000_00000000_00000000,
{
    vstd::arithmetic::power2::lemma2_to64();
    vstd::arithmetic::power2::lemma2_to64_rest();
    vstd::arithmetic::power2::lemma_pow2_adds(56, 64);
    vstd::arithmetic::power2::lemma_pow2_adds(64, 64);
}

/// Reads a 128-bit value out of sixteen little-endian bytes.
fn u128_from_le_bytes(bytes: &Vec<u8>) -> (value: u128)
    requires
        bytes@.len() == 16,
    ensures
        value == spec_u128_from_le_bytes(bytes@),
{
    let mut value: u128 = 0;
    let mut pos: usize = 16;
    proof {
        assert(bytes@.skip(16) =~= Seq::<u8>::empty());
        vstd::arithmetic::power2::lemma2_to64();
    }
    while pos > 0
        invariant
            0 <= pos <= 16,
            bytes@.len() == 16,
            value == spec_u128_from_le_bytes(bytes@.skip(pos as int)),
            value < vstd::arithmetic::power2::pow2((8 * (16 - pos)) as nat),
        decreases pos,
    {
        proof {
            lemma_pow2_past_64();
            if 8 * (16 - pos) < 120 {
                vstd::arithmetic::power2::lemma_pow2_strictly_increases(
                    (8 * (16 - pos)) as nat,
                    120,
                );
            }
            assert(bytes@.skip(pos - 1).first() == bytes@[pos - 1]);
            assert(bytes@.skip(pos - 1).drop_first() =~= bytes@.skip(pos as int));
            vstd::arithmetic::power2::lemma_pow2_adds(8, (8 * (16 - pos)) as nat);
            vstd::arithmetic::power2::lemma2_to64();
        }
        pos = pos - 1;
        value = value * 256 + (bytes[pos] as u128);
        proof {
            assert(value < vstd::arithmetic::power2::pow2((8 * (16 - pos)) as nat))
                by (nonlinear_arith)
                requires
                    value == (spec_u128_from_le_bytes(bytes@.skip(pos + 1)) * 256
                        + bytes@[pos as int]),
                    spec_u128_from_le_bytes(bytes@.skip(pos + 1)) < vstd::arithmetic::power2::pow2(
                        (8 * (16 - pos - 1)) as nat,
                    ),
                    bytes@[pos as int] < 256,
                    vstd::arithmetic::power2::pow2((8 * (16 - pos)) as nat) == 256
                        * vstd::arithmetic::power2::pow2((8 * (16 - pos - 1)) as nat),
            ;
        }
    }
    proof {
        assert(bytes@.skip(0) =~= bytes@);
    }
    value
}

/// The byte at little-endian position `index` of a 64-bit value: the value
/// shifted down by eight bits per position, truncated to one byte.
pub open spec fn spec_u64_le_byte(value: u64, index: int) -> u8 {
    (value >> (8 * index) as u64) as u8
}

/// Extracts the byte at little-endian position `index` of a 64-bit value.
fn u64_le_byte(value: u64, index: usize) -> (byte: u8)
    requires
        index < 8,
    ensures
        byte == spec_u64_le_byte(value, index as int),
{
    let shift: u64 = 8 * (index as u64);
    #[verifier::truncate] ((value >> shift) as u8)
}

/// The global random-number source: one generator, seeded once.
#[derive(Debug)]
pub struct GlobalRandom {
    rng: oorandom::Rand64,
}

impl GlobalRandom {
    /// Seeds a generator with sixteen bytes from the operating system.
    /// Fails exactly when the operating system cannot supply them.
    pub fn init() -> Result<GlobalRandom, RandomInitError> {
        let mut seed_bytes: Vec<u8> = Vec::new();
        let mut remaining: usize = 16;
        while remaining > 0
            invariant
                seed_bytes@.len() == 16 - remaining,
                0 <= remaining <= 16,
            decreases remaining,
        {
            seed_bytes.push(0);
            remaining = remaining - 1;
        }
        let filled = fill_random_bytes(&mut seed_bytes);
        match filled {
            Ok(_) => {},
            Err(_) => {
                return Err(RandomInitError);
            },
        }
        let seed: u128 = u128_from_le_bytes(&seed_bytes);
        Ok(GlobalRandom { rng: oorandom::Rand64::new(seed) })
    }

    /// A value anywhere in the full 64-bit range.
    pub fn next_u64(&mut self) -> u64 {
        self.rng.rand_u64()
    }

    /// A value anywhere in the full signed 64-bit range.
    pub fn next_i64(&mut self) -> i64 {
        self.rng.rand_i64()
    }

    /// A coin flip: the lowest bit of the next value.
    pub fn next_bool(&mut self) -> bool {
        self.next_u64() & 1 != 0
    }

    /// A value in `[range.start, range.end)`: the lower bound included, the
    /// upper one excluded. The range must be non-empty.
    pub fn next_u64_in_range(&mut self, range: core::ops::Range<u64>) -> (value: u64)
        requires
            range.start < range.end,
        ensures
            range.start <= value < range.end,
    {
        self.rng.rand_range(range)
    }

    /// A value in `[range.start, range.end)` over the signed integers: the
    /// signed range is shifted onto an unsigned range of the same size, drawn
    /// there, and shifted back, so neither the values nor their distribution
    /// are distorted. The range must be non-empty.
    pub fn next_i64_in_range(&mut self, range: core::ops::Range<i64>) -> (value: i64)
        requires
            range.start < range.end,
        ensures
            range.start <= value < range.end,
    {
        let unsigned_start: u64 = ((range.start as i128) + 0x8000_0000_0000_0000i128) as u64;
        let unsigned_end: u64 = ((range.end as i128) + 0x8000_0000_0000_0000i128) as u64;
        let unsigned_value: u64 = self.next_u64_in_range(unsigned_start..unsigned_end);
        ((unsigned_value as i128) - 0x8000_0000_0000_0000i128) as i64
    }

    /// Overwrites every byte of `out` with random bytes: each drawn 64-bit
    /// block lands in the next up-to-eight positions, least significant byte
    /// first.
    pub fn fill_bytes(&mut self, out: &mut Vec<u8>)
        ensures
            final (out)@.len() == old(out)@.len(),
    {
        let total: usize = out.len();
        let mut pos: usize = 0;
        while pos < total
            invariant
                0 <= pos <= total,
                out@.len() == total,
            decreases total - pos,
        {
            let block: u64 = self.next_u64();
            let mut offset: usize = 0;
            while offset < 8 && pos + offset < total
                invariant
                    0 <= offset <= 8,
                    pos + offset <= total,
                    pos < total,
                    out@.len() == total,
                    forall|i: int|
                        0 <= i < offset ==> out@[pos + i] == spec_u64_le_byte(block, i),
                decreases 8 - offset,
            {
                out[pos + offset] = u64_le_byte(block, offset);
                offset = offset + 1;
            }
            pos = pos + offset;
        }
    }

    /// A value anywhere in the full 8-bit range.
    pub fn next_u8(&mut self) -> u8 {
        #[verifier::truncate] (self.next_u64() as u8)
    }

    /// A value anywhere in the full signed 8-bit range.
    pub fn next_i8(&mut self) -> i8 {
        #[verifier::truncate] (self.next_i64() as i8)
    }

    /// A value anywhere in the full 16-bit range.
    pub fn next_u16(&mut self) -> u16 {
        #[verifier::truncate] (self.next_u64() as u16)
    }

    /// A value anywhere in the full signed 16-bit range.
    pub fn next_i16(&mut self) -> i16 {
        #[verifier::truncate] (self.next_i64() as i16)
    }

    /// A value anywhere in the full 32-bit range.
    pub fn next_u32(&mut self) -> u32 {
        #[verifier::truncate] (self.next_u64() as u32)
    }

    /// A value anywhere in the full signed 32-bit range.
    pub fn next_i32(&mut self) -> i32 {
        #[verifier::truncate] (self.next_i64() as i32)
    }

    /// A value anywhere in the full pointer-width range.
    pub fn next_usize(&mut self) -> usize {
        #[verifier::truncate] (self.next_u64() as usize)
    }

    /// A value anywhere in the full signed pointer-width range.
    pub fn next_isize(&mut self) -> isize {
        #[verifier::truncate] (self.next_i64() as isize)
    }
}

} // verus!
