use crate::math::point::Point;
use std::hash::Hasher;
use vstd::prelude::*;

verus! {

/// The value that rapidhash's fast `RapidHasher`, seeded with `seed`, gives
/// after `x`, `y` (as `i64`) and `tag` (as `u64`) are written to it (fixed
/// for a given build target and rapidhash version).
pub uninterp spec fn rapid_cell_hash(seed: u64, x: i64, y: i64, tag: u64) -> u64;

/// Relies on `rapidhash::fast::RapidHasher` (`new`, `write_i64`, `write_u64`,
/// `finish`): for a given build target and crate version its output depends on
/// the seed and the written integers alone, since its secrets are constants of
/// the crate.
#[verifier::external_body]
fn rapid_hash_cell(seed: u64, x: i64, y: i64, tag: u64) -> (r: u64)
    ensures
        r == rapid_cell_hash(seed, x, y, tag),
{
    let mut hasher = rapidhash::fast::RapidHasher::new(seed);
    hasher.write_i64(x);
    hasher.write_i64(y);
    hasher.write_u64(tag);
    hasher.finish()
}

/// Two to the power 53: the resolution of a hash read as a fraction of one.
pub const UNIT_53: u64 = 9007199254740992;

/// Independent pseudo-random streams drawn from the same cell.
#[derive(Clone, Copy, Debug, PartialEq, Eq, Structural)]
pub enum ProcHashDomain {
    AsteroidExists,
    AsteroidResourceType,
    AsteroidResourceAmount,
    AsteroidShape,
}

impl ProcHashDomain {
    /// The number mixed into the hash input for this stream.
    pub open spec fn spec_tag(self) -> u64 {
        match self {
            ProcHashDomain::AsteroidExists => 1,
            ProcHashDomain::AsteroidResourceType => 2,
            ProcHashDomain::AsteroidResourceAmount => 3,
            ProcHashDomain::AsteroidShape => 4,
        }
    }

    pub fn tag(self) -> (r: u64)
        ensures
            r == self.spec_tag(),
    {
        match self {
            ProcHashDomain::AsteroidExists => 1,
            ProcHashDomain::AsteroidResourceType => 2,
            ProcHashDomain::AsteroidResourceAmount => 3,
            ProcHashDomain::AsteroidShape => 4,
        }
    }
}

/// A pseudo-random value fixed by a seed, a cell and a domain.
#[derive(Clone, Copy, Debug, PartialEq, Eq, Structural)]
pub struct ProcHash(pub u64);

/// The hash of `point` in stream `domain` of the world `seed`.
pub open spec fn cell_hash(seed: u64, point: Point<i64>, domain: ProcHashDomain) -> u64 {
    rapid_cell_hash(seed, point.x, point.y, domain.spec_tag())
}

/// `(h * n) / 2^64`: a draw from `[0, n)` (zero where `n` is zero).
pub open spec fn uniform_of(h: u64, n: u64) -> int {
    (h as int * n as int) / 0x1_0000_0000_0000_0000
}

impl ProcHash {
    pub fn from_point_i64(seed: u64, point: Point<i64>, domain: ProcHashDomain) -> (r: ProcHash)
        ensures
            r.0 == cell_hash(seed, point, domain),
    {
        ProcHash(rapid_hash_cell(seed, point.x, point.y, domain.tag()))
    }

    /// The high 64 bits of the 128-bit product of the hash and `n`.
    pub fn uniform_n(&self, n: u64) -> (r: u64)
        ensures
            r == uniform_of(self.0, n),
            n > 0 ==> r < n,
    {
        proof {
            let h = self.0 as int;
            let m = n as int;
            let b = 0x1_0000_0000_0000_0000int;
            assert(0 <= h * m <= (b - 1) * (b - 1)) by (nonlinear_arith)
                requires 0 <= h < b, 0 <= m < b;
            if n > 0 {
                assert(h * m < b * m) by (nonlinear_arith) requires 0 <= h < b, 0 < m;
                vstd::arithmetic::div_mod::lemma_multiply_divide_lt(h * m, b, m);
            }
        }
        let wide = (self.0 as u128) * (n as u128);
        (wide / 0x1_0000_0000_0000_0000u128) as u64
    }

    /// The top 53 bits of the hash: the hash as a fraction of `UNIT_53`, in `[0, 1)`.
    pub fn unit_numerator(&self) -> (r: u64)
        ensures
            r == self.0 / 2048,
            r < UNIT_53,
    {
        self.0 / 2048
    }

    pub fn raw(&self) -> (r: u64)
        ensures
            r == self.0,
    {
        self.0
    }
}

} // verus!
