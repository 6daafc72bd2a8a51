//! Weights for `pallet_nis`, measured on the Substrate node with the
//! recommended hardware.

use crate::weight::{
    call_weight, rocks_db_weight, weigh_call, DbWeightSource, RocksDb, RuntimeDbWeight, Weight,
};
use core::marker::PhantomData;
use vstd::prelude::*;

verus! {

/// Weight functions needed for `pallet_nis`.
pub trait WeightInfo {
    fn place_bid(l: u32) -> Weight;

    fn place_bid_max() -> Weight;

    fn retract_bid(l: u32) -> Weight;

    fn fund_deficit() -> Weight;

    fn communify() -> Weight;

    fn privatize() -> Weight;

    fn thaw_private() -> Weight;

    fn thaw_communal() -> Weight;

    fn process_queues() -> Weight;

    fn process_queue() -> Weight;

    fn process_bid() -> Weight;
}

/// Placing a bid in a queue that holds `l` bids.
pub open spec fn place_bid_weight(l: u32, db: RuntimeDbWeight) -> Weight {
    call_weight(
        Weight { ref_time: 52_894_557, proof_size: 51487 },
        Weight { ref_time: 48_441, proof_size: 0 },
        l as u64,
        3,
        3,
        db,
    )
}

/// Placing a bid in a queue that is full.
pub open spec fn place_bid_max_weight(db: RuntimeDbWeight) -> Weight {
    call_weight(
        Weight { ref_time: 114_966_000, proof_size: 51487 },
        Weight { ref_time: 0, proof_size: 0 },
        0,
        3,
        3,
        db,
    )
}

/// Retracting a bid from a queue that holds `l` bids.
pub open spec fn retract_bid_weight(l: u32, db: RuntimeDbWeight) -> Weight {
    call_weight(
        Weight { ref_time: 48_162_043, proof_size: 51487 },
        Weight { ref_time: 38_372, proof_size: 0 },
        l as u64,
        3,
        3,
        db,
    )
}

/// Funding the deficit.
pub open spec fn fund_deficit_weight(db: RuntimeDbWeight) -> Weight {
    call_weight(
        Weight { ref_time: 32_922_000, proof_size: 3593 },
        Weight { ref_time: 0, proof_size: 0 },
        0,
        2,
        1,
        db,
    )
}

/// Making a private receipt communal.
pub open spec fn communify_weight(db: RuntimeDbWeight) -> Weight {
    call_weight(
        Weight { ref_time: 76_192_000, proof_size: 3675 },
        Weight { ref_time: 0, proof_size: 0 },
        0,
        6,
        6,
        db,
    )
}

/// Making a communal receipt private.
pub open spec fn privatize_weight(db: RuntimeDbWeight) -> Weight {
    call_weight(
        Weight { ref_time: 96_561_000, proof_size: 3675 },
        Weight { ref_time: 0, proof_size: 0 },
        0,
        6,
        6,
        db,
    )
}

/// Thawing a private receipt.
pub open spec fn thaw_private_weight(db: RuntimeDbWeight) -> Weight {
    call_weight(
        Weight { ref_time: 51_361_000, proof_size: 3658 },
        Weight { ref_time: 0, proof_size: 0 },
        0,
        4,
        3,
        db,
    )
}

/// Thawing a communal receipt.
pub open spec fn thaw_communal_weight(db: RuntimeDbWeight) -> Weight {
    call_weight(
        Weight { ref_time: 98_867_000, proof_size: 3675 },
        Weight { ref_time: 0, proof_size: 0 },
        0,
        5,
        5,
        db,
    )
}

/// Processing the queues, apart from the work on each.
pub open spec fn process_queues_weight(db: RuntimeDbWeight) -> Weight {
    call_weight(
        Weight { ref_time: 22_057_000, proof_size: 7487 },
        Weight { ref_time: 0, proof_size: 0 },
        0,
        3,
        2,
        db,
    )
}

/// Processing one queue, apart from the work on each bid.
pub open spec fn process_queue_weight(db: RuntimeDbWeight) -> Weight {
    call_weight(
        Weight { ref_time: 4_953_000, proof_size: 51487 },
        Weight { ref_time: 0, proof_size: 0 },
        0,
        1,
        1,
        db,
    )
}

/// Processing one bid.
pub open spec fn process_bid_weight(db: RuntimeDbWeight) -> Weight {
    call_weight(
        Weight { ref_time: 5_093_000, proof_size: 0 },
        Weight { ref_time: 0, proof_size: 0 },
        0,
        0,
        1,
        db,
    )
}

/// The measured weights on a database whose operations weigh `db`.
#[derive(Debug, Clone, Copy, PartialEq, Eq, Structural)]
pub struct MeasuredWeights {
    /// What the database's operations weigh.
    pub db: RuntimeDbWeight,
}

impl MeasuredWeights {
    /// Placing a bid in a queue that holds `l` bids.
    pub fn place_bid(&self, l: u32) -> (w: Weight)
        ensures
            w == place_bid_weight(l, self.db),
    {
        weigh_call(
            Weight::from_parts(52_894_557, 51487),
            Weight::from_parts(48_441, 0),
            l as u64,
            3,
            3,
            self.db,
        )
    }

    /// Placing a bid in a queue that is full.
    pub fn place_bid_max(&self) -> (w: Weight)
        ensures
            w == place_bid_max_weight(self.db),
    {
        weigh_call(
            Weight::from_parts(114_966_000, 51487),
            Weight::from_parts(0, 0),
            0,
            3,
            3,
            self.db,
        )
    }

    /// Retracting a bid from a queue that holds `l` bids.
    pub fn retract_bid(&self, l: u32) -> (w: Weight)
        ensures
            w == retract_bid_weight(l, self.db),
    {
        weigh_call(
            Weight::from_parts(48_162_043, 51487),
            Weight::from_parts(38_372, 0),
            l as u64,
            3,
            3,
            self.db,
        )
    }

    /// Funding the deficit.
    pub fn fund_deficit(&self) -> (w: Weight)
        ensures
            w == fund_deficit_weight(self.db),
    {
        weigh_call(
            Weight::from_parts(32_922_000, 3593),
            Weight::from_parts(0, 0),
            0,
            2,
            1,
            self.db,
        )
    }

    /// Making a private receipt communal.
    pub fn communify(&self) -> (w: Weight)
        ensures
            w == communify_weight(self.db),
    {
        weigh_call(
            Weight::from_parts(76_192_000, 3675),
            Weight::from_parts(0, 0),
            0,
            6,
            6,
            self.db,
        )
    }

    /// Making a communal receipt private.
    pub fn privatize(&self) -> (w: Weight)
        ensures
            w == privatize_weight(self.db),
    {
        weigh_call(
            Weight::from_parts(96_561_000, 3675),
            Weight::from_parts(0, 0),
            0,
            6,
            6,
            self.db,
        )
    }

    /// Thawing a private receipt.
    pub fn thaw_private(&self) -> (w: Weight)
        ensures
            w == thaw_private_weight(self.db),
    {
        weigh_call(
            Weight::from_parts(51_361_000, 3658),
            Weight::from_parts(0, 0),
            0,
            4,
            3,
            self.db,
        )
    }

    /// Thawing a communal receipt.
    pub fn thaw_communal(&self) -> (w: Weight)
        ensures
            w == thaw_communal_weight(self.db),
    {
        weigh_call(
            Weight::from_parts(98_867_000, 3675),
            Weight::from_parts(0, 0),
            0,
            5,
            5,
            self.db,
        )
    }

    /// Processing the queues, apart from the work on each.
    pub fn process_queues(&self) -> (w: Weight)
        ensures
            w == process_queues_weight(self.db),
    {
        weigh_call(
            Weight::from_parts(22_057_000, 7487),
            Weight::from_parts(0, 0),
            0,
            3,
            2,
            self.db,
        )
    }

    /// Processing one queue, apart from the work on each bid.
    pub fn process_queue(&self) -> (w: Weight)
        ensures
            w == process_queue_weight(self.db),
    {
        weigh_call(
            Weight::from_parts(4_953_000, 51487),
            Weight::from_parts(0, 0),
            0,
            1,
            1,
            self.db,
        )
    }

    /// Processing one bid.
    pub fn process_bid(&self) -> (w: Weight)
        ensures
            w == process_bid_weight(self.db),
    {
        weigh_call(
            Weight::from_parts(5_093_000, 0),
            Weight::from_parts(0, 0),
            0,
            0,
            1,
            self.db,
        )
    }
}

/// Weights for `pallet_nis` using the Substrate node and recommended
/// hardware, on the database of the runtime `T`.
///
/// Each weight is the measured one for whatever `T` says its database
/// operations weigh (see [`MeasuredWeights`]).
pub struct SubstrateWeight<T>(pub PhantomData<T>);

impl<T: DbWeightSource> WeightInfo for SubstrateWeight<T> {
    fn place_bid(l: u32) -> (w: Weight)
        ensures
            exists|db: RuntimeDbWeight| w == place_bid_weight(l, db),
    {
        MeasuredWeights { db: T::db_weight() }.place_bid(l)
    }

    fn place_bid_max() -> (w: Weight)
        ensures
            exists|db: RuntimeDbWeight| w == place_bid_max_weight(db),
    {
        MeasuredWeights { db: T::db_weight() }.place_bid_max()
    }

    fn retract_bid(l: u32) -> (w: Weight)
        ensures
            exists|db: RuntimeDbWeight| w == retract_bid_weight(l, db),
    {
        MeasuredWeights { db: T::db_weight() }.retract_bid(l)
    }

    fn fund_deficit() -> (w: Weight)
        ensures
            exists|db: RuntimeDbWeight| w == fund_deficit_weight(db),
    {
        MeasuredWeights { db: T::db_weight() }.fund_deficit()
    }

    fn communify() -> (w: Weight)
        ensures
            exists|db: RuntimeDbWeight| w == communify_weight(db),
    {
        MeasuredWeights { db: T::db_weight() }.communify()
    }

    fn privatize() -> (w: Weight)
        ensures
            exists|db: RuntimeDbWeight| w == privatize_weight(db),
    {
        MeasuredWeights { db: T::db_weight() }.privatize()
    }

    fn thaw_private() -> (w: Weight)
        ensures
            exists|db: RuntimeDbWeight| w == thaw_private_weight(db),
    {
        MeasuredWeights { db: T::db_weight() }.thaw_private()
    }

    fn thaw_communal() -> (w: Weight)
        ensures
            exists|db: RuntimeDbWeight| w == thaw_communal_weight(db),
    {
        MeasuredWeights { db: T::db_weight() }.thaw_communal()
    }

    fn process_queues() -> (w: Weight)
        ensures
            exists|db: RuntimeDbWeight| w == process_queues_weight(db),
    {
        MeasuredWeights { db: T::db_weight() }.process_queues()
    }

    fn process_queue() -> (w: Weight)
        ensures
            exists|db: RuntimeDbWeight| w == process_queue_weight(db),
    {
        MeasuredWeights { db: T::db_weight() }.process_queue()
    }

    fn process_bid() -> (w: Weight)
        ensures
            exists|db: RuntimeDbWeight| w == process_bid_weight(db),
    {
        MeasuredWeights { db: T::db_weight() }.process_bid()
    }
}

// For backwards compatibility and tests.
impl WeightInfo for () {
    fn place_bid(l: u32) -> (w: Weight)
        ensures
            w == place_bid_weight(l, rocks_db_weight()),
    {
        MeasuredWeights { db: RocksDb::db_weight() }.place_bid(l)
    }

    fn place_bid_max() -> (w: Weight)
        ensures
            w == place_bid_max_weight(rocks_db_weight()),
    {
        MeasuredWeights { db: RocksDb::db_weight() }.place_bid_max()
    }

    fn retract_bid(l: u32) -> (w: Weight)
        ensures
            w == retract_bid_weight(l, rocks_db_weight()),
    {
        MeasuredWeights { db: RocksDb::db_weight() }.retract_bid(l)
    }

    fn fund_deficit() -> (w: Weight)
        ensures
            w == fund_deficit_weight(rocks_db_weight()),
    {
        MeasuredWeights { db: RocksDb::db_weight() }.fund_deficit()
    }

    fn communify() -> (w: Weight)
        ensures
            w == communify_weight(rocks_db_weight()),
    {
        MeasuredWeights { db: RocksDb::db_weight() }.communify()
    }

    fn privatize() -> (w: Weight)
        ensures
            w == privatize_weight(rocks_db_weight()),
    {
        MeasuredWeights { db: RocksDb::db_weight() }.privatize()
    }

    fn thaw_private() -> (w: Weight)
        ensures
            w == thaw_private_weight(rocks_db_weight()),
    {
        MeasuredWeights { db: RocksDb::db_weight() }.thaw_private()
    }

    fn thaw_communal() -> (w: Weight)
        ensures
            w == thaw_communal_weight(rocks_db_weight()),
    {
        MeasuredWeights { db: RocksDb::db_weight() }.thaw_communal()
    }

    fn process_queues() -> (w: Weight)
        ensures
            w == process_queues_weight(rocks_db_weight()),
    {
        MeasuredWeights { db: RocksDb::db_weight() }.process_queues()
    }

    fn process_queue() -> (w: Weight)
        ensures
            w == process_queue_weight(rocks_db_weight()),
    {
        MeasuredWeights { db: RocksDb::db_weight() }.process_queue()
    }

    fn process_bid() -> (w: Weight)
        ensures
            w == process_bid_weight(rocks_db_weight()),
    {
        MeasuredWeights { db: RocksDb::db_weight() }.process_bid()
    }
}

} // verus!
