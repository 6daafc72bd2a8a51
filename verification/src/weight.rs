//! Weights: how much computation time and proof size a call may use.

use vstd::prelude::*;

verus! {

/// The sum of two numbers, or the largest `u64` where the sum is larger.
pub open spec fn sat_add(a: u64, b: u64) -> u64 {
    if a + b > u64::MAX {
        u64::MAX
    } else {
        (a + b) as u64
    }
}

/// The product of two numbers, or the largest `u64` where the product is
/// larger.
pub open spec fn sat_mul(a: u64, b: u64) -> u64 {
    if a * b > u64::MAX {
        u64::MAX
    } else {
        (a * b) as u64
    }
}

/// The sum of two numbers, or the largest `u64` where the sum is larger.
pub fn saturating_sum(a: u64, b: u64) -> (sum: u64)
    ensures
        sum == sat_add(a, b),
{
    if a > u64::MAX - b {
        u64::MAX
    } else {
        a + b
    }
}

/// The product of two numbers, or the largest `u64` where the product is
/// larger.
pub fn saturating_product(a: u64, b: u64) -> (product: u64)
    ensures
        product == sat_mul(a, b),
{
    if a == 0 || b == 0 {
        assert(a * b == 0) by (nonlinear_arith)
            requires
                a == 0 || b == 0,
        ;
        0
    } else if a > u64::MAX / b {
        assert(a * b > u64::MAX) by (nonlinear_arith)
            requires
                b > 0,
                a > u64::MAX / b,
        ;
        u64::MAX
    } else {
        assert(a * b <= u64::MAX) by (nonlinear_arith)
            requires
                b > 0,
                a <= u64::MAX / b,
        ;
        a * b
    }
}

/// A weight in two dimensions.
#[derive(Debug, Clone, Copy, PartialEq, Eq, Structural)]
pub struct Weight {
    /// Computation time, in picoseconds on the reference hardware.
    pub ref_time: u64,
    /// Proof size, in bytes.
    pub proof_size: u64,
}

impl Weight {
    /// The weight with the given parts.
    pub fn from_parts(ref_time: u64, proof_size: u64) -> (w: Weight)
        ensures
            w == (Weight { ref_time, proof_size }),
    {
        Weight { ref_time, proof_size }
    }

    /// The weight of nothing.
    pub fn zero() -> (w: Weight)
        ensures
            w == (Weight { ref_time: 0, proof_size: 0 }),
    {
        Weight { ref_time: 0, proof_size: 0 }
    }

    /// The computation time.
    pub fn ref_time(&self) -> (t: u64)
        ensures
            t == self.ref_time,
    {
        self.ref_time
    }

    /// The proof size.
    pub fn proof_size(&self) -> (s: u64)
        ensures
            s == self.proof_size,
    {
        self.proof_size
    }

    /// The two weights together, part by part, each part saturating.
    pub open spec fn plus(self, rhs: Weight) -> Weight {
        Weight {
            ref_time: sat_add(self.ref_time, rhs.ref_time),
            proof_size: sat_add(self.proof_size, rhs.proof_size),
        }
    }

    /// The weight `scalar` times over, part by part, each part saturating.
    pub open spec fn times(self, scalar: u64) -> Weight {
        Weight {
            ref_time: sat_mul(self.ref_time, scalar),
            proof_size: sat_mul(self.proof_size, scalar),
        }
    }

    /// The two weights together, part by part, each part saturating.
    pub fn saturating_add(self, rhs: Weight) -> (w: Weight)
        ensures
            w == self.plus(rhs),
    {
        Weight {
            ref_time: saturating_sum(self.ref_time, rhs.ref_time),
            proof_size: saturating_sum(self.proof_size, rhs.proof_size),
        }
    }

    /// The weight `scalar` times over, part by part, each part saturating.
    pub fn saturating_mul(self, scalar: u64) -> (w: Weight)
        ensures
            w == self.times(scalar),
    {
        Weight {
            ref_time: saturating_product(self.ref_time, scalar),
            proof_size: saturating_product(self.proof_size, scalar),
        }
    }
}

/// The weight of database operations that the runtime can invoke.
#[derive(Debug, Clone, Copy, PartialEq, Eq, Structural)]
pub struct RuntimeDbWeight {
    /// Computation time of one read.
    pub read: u64,
    /// Computation time of one write.
    pub write: u64,
}

impl RuntimeDbWeight {
    /// The weight of `r` reads: their time, and no proof size.
    pub open spec fn reads_of(self, r: u64) -> Weight {
        Weight { ref_time: sat_mul(self.read, r), proof_size: 0 }
    }

    /// The weight of `w` writes: their time, and no proof size.
    pub open spec fn writes_of(self, w: u64) -> Weight {
        Weight { ref_time: sat_mul(self.write, w), proof_size: 0 }
    }

    /// The weight of `r` reads.
    pub fn reads(self, r: u64) -> (w: Weight)
        ensures
            w == self.reads_of(r),
    {
        Weight::from_parts(saturating_product(self.read, r), 0)
    }

    /// The weight of `w` writes.
    pub fn writes(self, w: u64) -> (out: Weight)
        ensures
            out == self.writes_of(w),
    {
        Weight::from_parts(saturating_product(self.write, w), 0)
    }
}

/// A runtime, as far as weights need it: it knows what its database
/// operations weigh.
pub trait DbWeightSource {
    /// The weight of the runtime's database operations.
    fn db_weight() -> RuntimeDbWeight;
}

/// The weights measured for RocksDB: 25 microseconds for a read and 100
/// for a write.
pub open spec fn rocks_db_weight() -> RuntimeDbWeight {
    RuntimeDbWeight { read: 25_000_000, write: 100_000_000 }
}

/// A runtime on RocksDB.
#[derive(Debug, Clone, Copy, PartialEq, Eq, Structural)]
pub struct RocksDb;

impl DbWeightSource for RocksDb {
    fn db_weight() -> (db: RuntimeDbWeight)
        ensures
            db == rocks_db_weight(),
    {
        RuntimeDbWeight { read: 25_000_000, write: 100_000_000 }
    }
}

/// The weight of a call: a base, a slope for each item that the call
/// handles, and the call's database reads and writes.
pub open spec fn call_weight(
    base: Weight,
    slope: Weight,
    items: u64,
    reads: u64,
    writes: u64,
    db: RuntimeDbWeight,
) -> Weight {
    base.plus(slope.times(items)).plus(db.reads_of(reads)).plus(db.writes_of(writes))
}

/// The weight of a call with the given base, slope, items, reads and
/// writes.
pub fn weigh_call(
    base: Weight,
    slope: Weight,
    items: u64,
    reads: u64,
    writes: u64,
    db: RuntimeDbWeight,
) -> (w: Weight)
    ensures
        w == call_weight(base, slope, items, reads, writes, db),
{
    base.saturating_add(slope.saturating_mul(items)).saturating_add(db.reads(reads)).saturating_add(
        db.writes(writes),
    )
}

} // verus!
