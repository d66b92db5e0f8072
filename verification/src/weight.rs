//! Two-dimensional execution weight with saturating arithmetic, and the
//! per-read / per-write cost of database access.

use vstd::prelude::*;

verus! {

/// `x` clamped into the range of `u64` from above (`x` is never negative here).
pub open spec fn saturate(x: int) -> int {
    if x > u64::MAX {
        u64::MAX as int
    } else {
        x
    }
}

/// Saturating multiplication of two `u64` values.
pub fn mul_saturating(a: u64, b: u64) -> (r: u64)
    ensures
        r == saturate(a * b),
{
    match a.checked_mul(b) {
        Some(v) => v,
        None => u64::MAX,
    }
}

/// The weight of a piece of work: computation time and proof size.
#[derive(Clone, Copy, Debug, PartialEq, Eq, Structural)]
pub struct Weight {
    pub ref_time: u64,
    pub proof_size: u64,
}

impl Weight {
    /// The weight of `ref_time` computation and no proof size.
    pub fn from_ref_time(ref_time: u64) -> (w: Weight)
        ensures
            w.ref_time == ref_time,
            w.proof_size == 0,
    {
        Weight { ref_time, proof_size: 0 }
    }

    /// The weight with the two given components.
    pub fn from_parts(ref_time: u64, proof_size: u64) -> (w: Weight)
        ensures
            w.ref_time == ref_time,
            w.proof_size == proof_size,
    {
        Weight { ref_time, proof_size }
    }

    /// The computation-time component.
    pub fn ref_time(&self) -> (r: u64)
        ensures
            r == self.ref_time,
    {
        self.ref_time
    }

    /// The proof-size component.
    pub fn proof_size(&self) -> (r: u64)
        ensures
            r == self.proof_size,
    {
        self.proof_size
    }

    /// Component-wise addition, clamped at `u64::MAX`.
    pub fn saturating_add(self, rhs: Weight) -> (w: Weight)
        ensures
            w.ref_time == saturate(self.ref_time + rhs.ref_time),
            w.proof_size == saturate(self.proof_size + rhs.proof_size),
    {
        Weight {
            ref_time: self.ref_time.saturating_add(rhs.ref_time),
            proof_size: self.proof_size.saturating_add(rhs.proof_size),
        }
    }

    /// Component-wise multiplication by a scalar, clamped at `u64::MAX`.
    pub fn saturating_mul(self, b: u64) -> (w: Weight)
        ensures
            w.ref_time == saturate(self.ref_time * b),
            w.proof_size == saturate(self.proof_size * b),
    {
        Weight {
            ref_time: mul_saturating(self.ref_time, b),
            proof_size: mul_saturating(self.proof_size, b),
        }
    }
}

/// The computation time charged for one database read and one database write.
#[derive(Clone, Copy, Debug, PartialEq, Eq, Structural)]
pub struct RuntimeDbWeight {
    pub read: u64,
    pub write: u64,
}

impl RuntimeDbWeight {
    /// The weight of `r` reads.
    pub fn reads(self, r: u64) -> (w: Weight)
        ensures
            w.ref_time == saturate(self.read * r),
            w.proof_size == 0,
    {
        Weight::from_ref_time(mul_saturating(self.read, r))
    }

    /// The weight of `w` writes.
    pub fn writes(self, w: u64) -> (res: Weight)
        ensures
            res.ref_time == saturate(self.write * w),
            res.proof_size == 0,
    {
        Weight::from_ref_time(mul_saturating(self.write, w))
    }
}

} // verus!
