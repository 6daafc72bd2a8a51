//! Weights for `pallet_message_queue`, measured for the Rococo coretime
//! chain.

use crate::weight::{call_weight, weigh_call, DbWeightSource, RuntimeDbWeight, Weight};
use core::marker::PhantomData;
use vstd::prelude::*;

verus! {

/// Adding a queue to the ring of ready queues.
pub open spec fn ready_ring_knit_weight(db: RuntimeDbWeight) -> Weight {
    call_weight(
        Weight { ref_time: 11_605_000, proof_size: 6044 },
        Weight { ref_time: 0, proof_size: 0 },
        0,
        3,
        2,
        db,
    )
}

/// Taking a queue out of the ring of ready queues.
pub open spec fn ready_ring_unknit_weight(db: RuntimeDbWeight) -> Weight {
    call_weight(
        Weight { ref_time: 10_300_000, proof_size: 6044 },
        Weight { ref_time: 0, proof_size: 0 },
        0,
        3,
        3,
        db,
    )
}

/// Servicing a queue, apart from the work on its pages.
pub open spec fn service_queue_base_weight(db: RuntimeDbWeight) -> Weight {
    call_weight(
        Weight { ref_time: 3_426_000, proof_size: 3517 },
        Weight { ref_time: 0, proof_size: 0 },
        0,
        1,
        1,
        db,
    )
}

/// Servicing a page that is then complete, apart from the work on its messages.
pub open spec fn service_page_base_completion_weight(db: RuntimeDbWeight) -> Weight {
    call_weight(
        Weight { ref_time: 5_237_000, proof_size: 69050 },
        Weight { ref_time: 0, proof_size: 0 },
        0,
        1,
        1,
        db,
    )
}

/// Servicing a page that is not complete afterwards, apart from the work on its messages.
pub open spec fn service_page_base_no_completion_weight(db: RuntimeDbWeight) -> Weight {
    call_weight(
        Weight { ref_time: 5_347_000, proof_size: 69050 },
        Weight { ref_time: 0, proof_size: 0 },
        0,
        1,
        1,
        db,
    )
}

/// Servicing one message of a page.
pub open spec fn service_page_item_weight(db: RuntimeDbWeight) -> Weight {
    call_weight(
        Weight { ref_time: 177_423_000, proof_size: 0 },
        Weight { ref_time: 0, proof_size: 0 },
        0,
        0,
        2,
        db,
    )
}

/// Moving the service head on to the next queue.
pub open spec fn bump_service_head_weight(db: RuntimeDbWeight) -> Weight {
    call_weight(
        Weight { ref_time: 6_953_000, proof_size: 3517 },
        Weight { ref_time: 0, proof_size: 0 },
        0,
        2,
        1,
        db,
    )
}

/// Removing a stale page.
pub open spec fn reap_page_weight(db: RuntimeDbWeight) -> Weight {
    call_weight(
        Weight { ref_time: 59_093_000, proof_size: 69050 },
        Weight { ref_time: 0, proof_size: 0 },
        0,
        2,
        2,
        db,
    )
}

/// Executing an overweight message whose page is then removed.
pub open spec fn execute_overweight_page_removed_weight(db: RuntimeDbWeight) -> Weight {
    call_weight(
        Weight { ref_time: 74_402_000, proof_size: 69050 },
        Weight { ref_time: 0, proof_size: 0 },
        0,
        2,
        2,
        db,
    )
}

/// Executing an overweight message whose page is then updated.
pub open spec fn execute_overweight_page_updated_weight(db: RuntimeDbWeight) -> Weight {
    call_weight(
        Weight { ref_time: 117_532_000, proof_size: 69050 },
        Weight { ref_time: 0, proof_size: 0 },
        0,
        2,
        2,
        db,
    )
}

/// The measured weights on a database whose operations weigh `db`.
#[derive(Debug, Clone, Copy, PartialEq, Eq, Structural)]
pub struct MeasuredWeights {
    /// What the database's operations weigh.
    pub db: RuntimeDbWeight,
}

impl MeasuredWeights {
    /// Adding a queue to the ring of ready queues.
    pub fn ready_ring_knit(&self) -> (w: Weight)
        ensures
            w == ready_ring_knit_weight(self.db),
    {
        weigh_call(
            Weight::from_parts(11_605_000, 0).saturating_add(Weight::from_parts(0, 6044)),
            Weight::zero(),
            0,
            3,
            2,
            self.db,
        )
    }

    /// Taking a queue out of the ring of ready queues.
    pub fn ready_ring_unknit(&self) -> (w: Weight)
        ensures
            w == ready_ring_unknit_weight(self.db),
    {
        weigh_call(
            Weight::from_parts(10_300_000, 0).saturating_add(Weight::from_parts(0, 6044)),
            Weight::zero(),
            0,
            3,
            3,
            self.db,
        )
    }

    /// Servicing a queue, apart from the work on its pages.
    pub fn service_queue_base(&self) -> (w: Weight)
        ensures
            w == service_queue_base_weight(self.db),
    {
        weigh_call(
            Weight::from_parts(3_426_000, 0).saturating_add(Weight::from_parts(0, 3517)),
            Weight::zero(),
            0,
            1,
            1,
            self.db,
        )
    }

    /// Servicing a page that is then complete, apart from the work on its messages.
    pub fn service_page_base_completion(&self) -> (w: Weight)
        ensures
            w == service_page_base_completion_weight(self.db),
    {
        weigh_call(
            Weight::from_parts(5_237_000, 0).saturating_add(Weight::from_parts(0, 69050)),
            Weight::zero(),
            0,
            1,
            1,
            self.db,
        )
    }

    /// Servicing a page that is not complete afterwards, apart from the work on its messages.
    pub fn service_page_base_no_completion(&self) -> (w: Weight)
        ensures
            w == service_page_base_no_completion_weight(self.db),
    {
        weigh_call(
            Weight::from_parts(5_347_000, 0).saturating_add(Weight::from_parts(0, 69050)),
            Weight::zero(),
            0,
            1,
            1,
            self.db,
        )
    }

    /// Servicing one message of a page.
    pub fn service_page_item(&self) -> (w: Weight)
        ensures
            w == service_page_item_weight(self.db),
    {
        weigh_call(
            Weight::from_parts(177_423_000, 0).saturating_add(Weight::from_parts(0, 0)),
            Weight::zero(),
            0,
            0,
            2,
            self.db,
        )
    }

    /// Moving the service head on to the next queue.
    pub fn bump_service_head(&self) -> (w: Weight)
        ensures
            w == bump_service_head_weight(self.db),
    {
        weigh_call(
            Weight::from_parts(6_953_000, 0).saturating_add(Weight::from_parts(0, 3517)),
            Weight::zero(),
            0,
            2,
            1,
            self.db,
        )
    }

    /// Removing a stale page.
    pub fn reap_page(&self) -> (w: Weight)
        ensures
            w == reap_page_weight(self.db),
    {
        weigh_call(
            Weight::from_parts(59_093_000, 0).saturating_add(Weight::from_parts(0, 69050)),
            Weight::zero(),
            0,
            2,
            2,
            self.db,
        )
    }

    /// Executing an overweight message whose page is then removed.
    pub fn execute_overweight_page_removed(&self) -> (w: Weight)
        ensures
            w == execute_overweight_page_removed_weight(self.db),
    {
        weigh_call(
            Weight::from_parts(74_402_000, 0).saturating_add(Weight::from_parts(0, 69050)),
            Weight::zero(),
            0,
            2,
            2,
            self.db,
        )
    }

    /// Executing an overweight message whose page is then updated.
    pub fn execute_overweight_page_updated(&self) -> (w: Weight)
        ensures
            w == execute_overweight_page_updated_weight(self.db),
    {
        weigh_call(
            Weight::from_parts(117_532_000, 0).saturating_add(Weight::from_parts(0, 69050)),
            Weight::zero(),
            0,
            2,
            2,
            self.db,
        )
    }
}

/// Weight functions for `pallet_message_queue`, on the database of the
/// runtime `T`.
///
/// Each weight is the measured one for whatever `T` says its database
/// operations weigh (see [`MeasuredWeights`]).
pub struct WeightInfo<T>(pub PhantomData<T>);

impl<T: DbWeightSource> WeightInfo<T> {
    /// Adding a queue to the ring of ready queues.
    pub fn ready_ring_knit() -> (w: Weight)
        ensures
            exists|db: RuntimeDbWeight| w == ready_ring_knit_weight(db),
    {
        MeasuredWeights { db: T::db_weight() }.ready_ring_knit()
    }

    /// Taking a queue out of the ring of ready queues.
    pub fn ready_ring_unknit() -> (w: Weight)
        ensures
            exists|db: RuntimeDbWeight| w == ready_ring_unknit_weight(db),
    {
        MeasuredWeights { db: T::db_weight() }.ready_ring_unknit()
    }

    /// Servicing a queue, apart from the work on its pages.
    pub fn service_queue_base() -> (w: Weight)
        ensures
            exists|db: RuntimeDbWeight| w == service_queue_base_weight(db),
    {
        MeasuredWeights { db: T::db_weight() }.service_queue_base()
    }

    /// Servicing a page that is then complete, apart from the work on its messages.
    pub fn service_page_base_completion() -> (w: Weight)
        ensures
            exists|db: RuntimeDbWeight| w == service_page_base_completion_weight(db),
    {
        MeasuredWeights { db: T::db_weight() }.service_page_base_completion()
    }

    /// Servicing a page that is not complete afterwards, apart from the work on its messages.
    pub fn service_page_base_no_completion() -> (w: Weight)
        ensures
            exists|db: RuntimeDbWeight| w == service_page_base_no_completion_weight(db),
    {
        MeasuredWeights { db: T::db_weight() }.service_page_base_no_completion()
    }

    /// Servicing one message of a page.
    pub fn service_page_item() -> (w: Weight)
        ensures
            exists|db: RuntimeDbWeight| w == service_page_item_weight(db),
    {
        MeasuredWeights { db: T::db_weight() }.service_page_item()
    }

    /// Moving the service head on to the next queue.
    pub fn bump_service_head() -> (w: Weight)
        ensures
            exists|db: RuntimeDbWeight| w == bump_service_head_weight(db),
    {
        MeasuredWeights { db: T::db_weight() }.bump_service_head()
    }

    /// Removing a stale page.
    pub fn reap_page() -> (w: Weight)
        ensures
            exists|db: RuntimeDbWeight| w == reap_page_weight(db),
    {
        MeasuredWeights { db: T::db_weight() }.reap_page()
    }

    /// Executing an overweight message whose page is then removed.
    pub fn execute_overweight_page_removed() -> (w: Weight)
        ensures
            exists|db: RuntimeDbWeight| w == execute_overweight_page_removed_weight(db),
    {
        MeasuredWeights { db: T::db_weight() }.execute_overweight_page_removed()
    }

    /// Executing an overweight message whose page is then updated.
    pub fn execute_overweight_page_updated() -> (w: Weight)
        ensures
            exists|db: RuntimeDbWeight| w == execute_overweight_page_updated_weight(db),
    {
        MeasuredWeights { db: T::db_weight() }.execute_overweight_page_updated()
    }
}

} // verus!
