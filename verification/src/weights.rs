//! What each operation costs the host, as a weight: a measured base cost plus
//! what the host's database charges for the reads and writes of the operation.
//! All sums and products saturate.

use vstd::prelude::*;

verus! {

/// A cost, in the host's unit.
pub type Weight = u64;

/// What the host's database charges for one read and for one write.
#[derive(Clone, Copy, Debug, PartialEq, Eq)]
pub struct RuntimeDbWeight {
    pub read: Weight,
    pub write: Weight,
}

/// `x`, or the largest weight where `x` is beyond it.
pub open spec fn saturated(x: int) -> Weight {
    if x > u64::MAX {
        u64::MAX
    } else {
        x as u64
    }
}

/// The weight of an operation with this base cost and these numbers of reads
/// and writes.
pub open spec fn weight_of(db: RuntimeDbWeight, base: Weight, reads: Weight, writes: Weight) -> Weight {
    saturated(saturated(base + saturated(db.read * reads)) + saturated(db.write * writes))
}

/// The product of two weights, saturating.
fn saturating_mul(a: Weight, b: Weight) -> (product: Weight)
    ensures
        product == saturated(a * b),
{
    match a.checked_mul(b) {
        Some(product) => product,
        None => u64::MAX,
    }
}

impl RuntimeDbWeight {
    /// The cost of `r` reads.
    pub fn reads(&self, r: Weight) -> (cost: Weight)
        ensures
            cost == saturated(self.read * r),
    {
        saturating_mul(self.read, r)
    }

    /// The cost of `w` writes.
    pub fn writes(&self, w: Weight) -> (cost: Weight)
        ensures
            cost == saturated(self.write * w),
    {
        saturating_mul(self.write, w)
    }

    /// The weight of an operation with this base cost and these numbers of
    /// reads and writes.
    pub fn weigh(&self, base: Weight, reads: Weight, writes: Weight) -> (weight: Weight)
        ensures
            weight == weight_of(*self, base, reads, writes),
    {
        base.saturating_add(self.reads(reads)).saturating_add(self.writes(writes))
    }
}

/// The weights of the five operations.
pub trait WeightInfo {
    fn init_asset(&self) -> Weight;

    fn transfer_asset(&self) -> Weight;

    fn mint_private_asset(&self) -> Weight;

    fn private_transfer(&self) -> Weight;

    fn reclaim(&self) -> Weight;
}

/// The weights as measured on the reference hardware, over the database
/// weights of the host.
#[derive(Clone, Copy, Debug, PartialEq, Eq)]
pub struct SubstrateWeight {
    pub db_weight: RuntimeDbWeight,
}

impl WeightInfo for SubstrateWeight {
    fn init_asset(&self) -> (weight: Weight)
        ensures
            weight == weight_of(self.db_weight, 5_309_751_000, 1, 11),
    {
        self.db_weight.weigh(5_309_751_000, 1, 11)
    }

    fn transfer_asset(&self) -> (weight: Weight)
        ensures
            weight == weight_of(self.db_weight, 51_229_000, 3, 2),
    {
        self.db_weight.weigh(51_229_000, 3, 2)
    }

    fn mint_private_asset(&self) -> (weight: Weight)
        ensures
            weight == weight_of(self.db_weight, 42_731_469_000, 6, 3),
    {
        self.db_weight.weigh(42_731_469_000, 6, 3)
    }

    fn private_transfer(&self) -> (weight: Weight)
        ensures
            weight == weight_of(self.db_weight, 165_009_033_000, 6, 3),
    {
        self.db_weight.weigh(165_009_033_000, 6, 3)
    }

    fn reclaim(&self) -> (weight: Weight)
        ensures
            weight == weight_of(self.db_weight, 123_932_053_000, 8, 5),
    {
        self.db_weight.weigh(123_932_053_000, 8, 5)
    }
}

} // verus!
