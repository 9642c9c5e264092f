use vstd::prelude::*;

verus! {

/// Number of fixed-point steps in one world cell.
pub const FIXED_SCALE: i64 = 1000;

/// A continuous world coordinate held exactly as a count of thousandths of a cell.
#[derive(Clone, Copy, Debug, Default, PartialEq, Eq, Structural)]
pub struct Fixed {
    pub raw: i64,
}

/// Largest magnitude of a raw coordinate (and of a cell index) that the geometry accepts.
pub const COORD_LIMIT: i64 = 4000000000000000000;

/// A raw value that leaves room for sums, differences and rounding in `i64`.
pub open spec fn in_limit(v: int) -> bool {
    -COORD_LIMIT <= v <= COORD_LIMIT
}

/// The value `raw / FIXED_SCALE` truncated toward zero and saturated to `u32`,
/// as a float-to-`u32` cast behaves.
pub open spec fn trunc_u32(raw: int) -> int {
    if raw <= 0 {
        0
    } else if raw / (FIXED_SCALE as int) > u32::MAX {
        u32::MAX as int
    } else {
        raw / (FIXED_SCALE as int)
    }
}

/// `raw / FIXED_SCALE` rounded to the nearest whole number, halves away from zero,
/// in raw units.
pub open spec fn round_raw(raw: int) -> int {
    if raw >= 0 {
        ((raw + FIXED_SCALE / 2) / (FIXED_SCALE as int)) * FIXED_SCALE
    } else {
        -(((-raw + FIXED_SCALE / 2) / (FIXED_SCALE as int)) * FIXED_SCALE)
    }
}

/// The greatest whole number not above `raw / FIXED_SCALE`.
pub open spec fn floor_cells(raw: int) -> int {
    raw / (FIXED_SCALE as int)
}

/// The least whole number not below `raw / FIXED_SCALE`.
pub open spec fn ceil_cells(raw: int) -> int {
    -((-raw) / (FIXED_SCALE as int))
}

/// `floor_cells(raw)` cells span at most `raw`, and one more cell exceeds it.
pub proof fn lemma_floor_bounds(raw: int)
    ensures
        floor_cells(raw) * FIXED_SCALE <= raw < floor_cells(raw) * FIXED_SCALE + FIXED_SCALE,
{
}

/// Rounding a coordinate in range to whole cells keeps it in range.
pub proof fn lemma_rounding_in_limit(raw: int)
    requires
        in_limit(raw),
    ensures
        in_limit(floor_cells(raw) * FIXED_SCALE),
        in_limit(round_raw(raw)),
{
    lemma_floor_bounds(raw);
    lemma_floor_bounds(raw + FIXED_SCALE / 2);
    lemma_floor_bounds(-raw + FIXED_SCALE / 2);
    vstd::arithmetic::div_mod::lemma_div_is_ordered(-COORD_LIMIT as int, raw, FIXED_SCALE as int);
    vstd::arithmetic::div_mod::lemma_div_is_ordered(raw + FIXED_SCALE / 2, COORD_LIMIT + FIXED_SCALE / 2, FIXED_SCALE as int);
    vstd::arithmetic::div_mod::lemma_div_is_ordered(-raw + FIXED_SCALE / 2, COORD_LIMIT + FIXED_SCALE / 2, FIXED_SCALE as int);
    assert(floor_cells(-COORD_LIMIT as int) == -(COORD_LIMIT / FIXED_SCALE) as int);
    assert((COORD_LIMIT + FIXED_SCALE / 2) as int / (FIXED_SCALE as int) == (COORD_LIMIT / FIXED_SCALE) as int);
}

impl Fixed {
    pub open spec fn wf(self) -> bool {
        in_limit(self.raw as int)
    }

    /// The whole part of the coordinate, rounded toward negative infinity.
    pub fn floor(self) -> (r: Fixed)
        requires
            self.wf(),
        ensures
            r.raw == floor_cells(self.raw as int) * FIXED_SCALE,
            r.wf(),
    {
        proof {
            lemma_rounding_in_limit(self.raw as int);
        }
        let q = self.floor_int();
        Fixed { raw: q * FIXED_SCALE }
    }

    /// The nearest whole coordinate, halves rounded away from zero.
    pub fn round(self) -> (r: Fixed)
        requires
            self.wf(),
        ensures
            r.raw == round_raw(self.raw as int),
            r.wf(),
    {
        proof {
            lemma_rounding_in_limit(self.raw as int);
        }
        if self.raw >= 0 {
            let q = (self.raw + FIXED_SCALE / 2) / FIXED_SCALE;
            proof {
                lemma_floor_bounds(self.raw + FIXED_SCALE / 2);
            }
            Fixed { raw: q * FIXED_SCALE }
        } else {
            let q = (-self.raw + FIXED_SCALE / 2) / FIXED_SCALE;
            proof {
                lemma_floor_bounds(-self.raw + FIXED_SCALE / 2);
            }
            Fixed { raw: -(q * FIXED_SCALE) }
        }
    }

    /// The coordinate truncated toward zero and saturated into `u32`.
    pub fn to_u32(self) -> (r: u32)
        ensures
            r == trunc_u32(self.raw as int),
    {
        if self.raw <= 0 {
            0
        } else {
            let q = self.raw / FIXED_SCALE;
            if q > u32::MAX as i64 {
                u32::MAX
            } else {
                q as u32
            }
        }
    }

    pub fn from_raw(raw: i64) -> (r: Fixed)
        ensures
            r.raw == raw,
    {
        Fixed { raw }
    }

    /// The coordinate of the whole cell boundary `n`.
    pub fn from_int(n: i64) -> (r: Fixed)
        requires
            i64::MIN <= n * FIXED_SCALE <= i64::MAX,
        ensures
            r.raw == n * FIXED_SCALE,
    {
        Fixed { raw: n * FIXED_SCALE }
    }

    /// The index of the cell that holds this coordinate (rounding toward negative infinity).
    pub fn floor_int(self) -> (r: i64)
        ensures
            r == floor_cells(self.raw as int),
    {
        match self.raw.checked_div_euclid(FIXED_SCALE) {
            Some(q) => q,
            None => 0,
        }
    }

    /// The smallest whole number of cells not below this coordinate.
    pub fn ceil_int(self) -> (r: i64)
        ensures
            r == ceil_cells(self.raw as int),
    {
        let q = self.floor_int();
        proof {
            lemma_floor_bounds(self.raw as int);
        }
        if (q as i128) * (FIXED_SCALE as i128) == self.raw as i128 {
            q
        } else {
            assert(q * FIXED_SCALE < self.raw) by (nonlinear_arith)
                requires q == floor_cells(self.raw as int), q * FIXED_SCALE != self.raw;
            q + 1
        }
    }
}

} // verus!
