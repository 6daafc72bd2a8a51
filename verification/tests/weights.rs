use pvf_host::message_queue_weights::{
    MeasuredWeights as MeasuredQueueWeights, WeightInfo as MessageQueueWeights,
};
use pvf_host::nis_weights::{MeasuredWeights, SubstrateWeight, WeightInfo};
use pvf_host::weight::{
    saturating_product, saturating_sum, weigh_call, DbWeightSource, RocksDb, RuntimeDbWeight,
    Weight,
};

struct TestDb;

impl DbWeightSource for TestDb {
    fn db_weight() -> RuntimeDbWeight {
        RuntimeDbWeight { read: 1_000, write: 10_000 }
    }
}

struct HugeDb;

impl DbWeightSource for HugeDb {
    fn db_weight() -> RuntimeDbWeight {
        RuntimeDbWeight { read: u64::MAX, write: u64::MAX / 2 }
    }
}

#[test]
fn saturating_arithmetic() {
    assert_eq!(saturating_sum(1, 2), 3);
    assert_eq!(saturating_sum(u64::MAX, 1), u64::MAX);
    assert_eq!(saturating_sum(u64::MAX - 1, 1), u64::MAX);
    assert_eq!(saturating_product(0, u64::MAX), 0);
    assert_eq!(saturating_product(u64::MAX, 0), 0);
    assert_eq!(saturating_product(3, 4), 12);
    assert_eq!(saturating_product(1 << 32, 1 << 32), u64::MAX);
    assert_eq!(saturating_product((1 << 32) - 1, 1 << 32), ((1u64 << 32) - 1) << 32);
    for (a, b) in [(0u64, 0u64), (5, 7), (u64::MAX, 2), (1 << 63, 2), (u64::MAX / 3, 3)] {
        assert_eq!(saturating_sum(a, b), a.saturating_add(b));
        assert_eq!(saturating_product(a, b), a.saturating_mul(b));
    }
}

#[test]
fn weight_arithmetic_is_part_by_part() {
    let w = Weight::from_parts(10, 20);
    assert_eq!((w.ref_time(), w.proof_size()), (10, 20));
    assert_eq!(Weight::zero(), Weight::from_parts(0, 0));
    assert_eq!(w.saturating_add(Weight::from_parts(1, 2)), Weight::from_parts(11, 22));
    assert_eq!(w.saturating_add(Weight::from_parts(u64::MAX, 0)), Weight::from_parts(u64::MAX, 20));
    assert_eq!(w.saturating_mul(3), Weight::from_parts(30, 60));
    assert_eq!(w.saturating_mul(u64::MAX), Weight::from_parts(u64::MAX, u64::MAX));
    assert_eq!(w.saturating_mul(0), Weight::zero());
}

#[test]
fn database_weights() {
    let db = RuntimeDbWeight { read: 25, write: 100 };
    assert_eq!(db.reads(3), Weight::from_parts(75, 0));
    assert_eq!(db.writes(2), Weight::from_parts(200, 0));
    assert_eq!(db.reads(0), Weight::zero());
    assert_eq!(db.writes(u64::MAX), Weight::from_parts(u64::MAX, 0));
    assert_eq!(RocksDb::db_weight(), RuntimeDbWeight { read: 25_000_000, write: 100_000_000 });
    assert_eq!(
        weigh_call(Weight::from_parts(1, 2), Weight::from_parts(10, 0), 5, 2, 3, db),
        Weight::from_parts(1 + 50 + 50 + 300, 2)
    );
}

#[test]
fn nis_weights_on_a_small_database() {
    type W = SubstrateWeight<TestDb>;
    assert_eq!(W::place_bid(0), Weight::from_parts(52_894_557 + 3_000 + 30_000, 51487));
    assert_eq!(
        W::place_bid(999),
        Weight::from_parts(52_894_557 + 48_441 * 999 + 3_000 + 30_000, 51487)
    );
    assert_eq!(W::place_bid_max(), Weight::from_parts(114_966_000 + 33_000, 51487));
    assert_eq!(
        W::retract_bid(1000),
        Weight::from_parts(48_162_043 + 38_372 * 1000 + 33_000, 51487)
    );
    assert_eq!(W::fund_deficit(), Weight::from_parts(32_922_000 + 2_000 + 10_000, 3593));
    assert_eq!(W::communify(), Weight::from_parts(76_192_000 + 6_000 + 60_000, 3675));
    assert_eq!(W::privatize(), Weight::from_parts(96_561_000 + 6_000 + 60_000, 3675));
    assert_eq!(W::thaw_private(), Weight::from_parts(51_361_000 + 4_000 + 30_000, 3658));
    assert_eq!(W::thaw_communal(), Weight::from_parts(98_867_000 + 5_000 + 50_000, 3675));
    assert_eq!(W::process_queues(), Weight::from_parts(22_057_000 + 3_000 + 20_000, 7487));
    assert_eq!(W::process_queue(), Weight::from_parts(4_953_000 + 1_000 + 10_000, 51487));
    assert_eq!(W::process_bid(), Weight::from_parts(5_093_000 + 10_000, 0));
}

#[test]
fn nis_weights_for_the_unit_type_use_rocksdb() {
    assert_eq!(
        <() as WeightInfo>::place_bid(10),
        Weight::from_parts(52_894_557 + 484_410 + 75_000_000 + 300_000_000, 51487)
    );
    assert_eq!(
        <() as WeightInfo>::fund_deficit(),
        Weight::from_parts(32_922_000 + 50_000_000 + 100_000_000, 3593)
    );
    assert_eq!(<() as WeightInfo>::process_bid(), Weight::from_parts(5_093_000 + 100_000_000, 0));
    assert_eq!(<() as WeightInfo>::place_bid(7), SubstrateWeight::<RocksDb>::place_bid(7));
    assert_eq!(<() as WeightInfo>::place_bid_max(), SubstrateWeight::<RocksDb>::place_bid_max());
    assert_eq!(<() as WeightInfo>::retract_bid(7), SubstrateWeight::<RocksDb>::retract_bid(7));
    assert_eq!(<() as WeightInfo>::communify(), SubstrateWeight::<RocksDb>::communify());
    assert_eq!(<() as WeightInfo>::privatize(), SubstrateWeight::<RocksDb>::privatize());
    assert_eq!(<() as WeightInfo>::thaw_private(), SubstrateWeight::<RocksDb>::thaw_private());
    assert_eq!(<() as WeightInfo>::thaw_communal(), SubstrateWeight::<RocksDb>::thaw_communal());
    assert_eq!(<() as WeightInfo>::process_queues(), SubstrateWeight::<RocksDb>::process_queues());
    assert_eq!(<() as WeightInfo>::process_queue(), SubstrateWeight::<RocksDb>::process_queue());
}

#[test]
fn weights_saturate_on_a_huge_database() {
    type W = SubstrateWeight<HugeDb>;
    assert_eq!(W::place_bid(5), Weight::from_parts(u64::MAX, 51487));
    assert_eq!(W::process_bid(), Weight::from_parts(5_093_000 + u64::MAX / 2, 0));
    assert_eq!(
        MessageQueueWeights::<HugeDb>::service_page_item(),
        Weight::from_parts(u64::MAX, 0)
    );
}

#[test]
fn message_queue_weights_on_a_small_database() {
    type W = MessageQueueWeights<TestDb>;
    assert_eq!(W::ready_ring_knit(), Weight::from_parts(11_605_000 + 3_000 + 20_000, 6044));
    assert_eq!(W::ready_ring_unknit(), Weight::from_parts(10_300_000 + 3_000 + 30_000, 6044));
    assert_eq!(W::service_queue_base(), Weight::from_parts(3_426_000 + 1_000 + 10_000, 3517));
    assert_eq!(
        W::service_page_base_completion(),
        Weight::from_parts(5_237_000 + 11_000, 69050)
    );
    assert_eq!(
        W::service_page_base_no_completion(),
        Weight::from_parts(5_347_000 + 11_000, 69050)
    );
    assert_eq!(W::service_page_item(), Weight::from_parts(177_423_000 + 20_000, 0));
    assert_eq!(W::bump_service_head(), Weight::from_parts(6_953_000 + 2_000 + 10_000, 3517));
    assert_eq!(W::reap_page(), Weight::from_parts(59_093_000 + 2_000 + 20_000, 69050));
    assert_eq!(
        W::execute_overweight_page_removed(),
        Weight::from_parts(74_402_000 + 22_000, 69050)
    );
    assert_eq!(
        W::execute_overweight_page_updated(),
        Weight::from_parts(117_532_000 + 22_000, 69050)
    );
}

#[test]
fn measured_weights_take_the_database_as_a_value() {
    let db = RuntimeDbWeight { read: 1_000, write: 10_000 };
    let table = MeasuredWeights { db };
    assert_eq!(table.place_bid(3), SubstrateWeight::<TestDb>::place_bid(3));
    assert_eq!(table.retract_bid(3), SubstrateWeight::<TestDb>::retract_bid(3));
    assert_eq!(table.process_bid(), Weight::from_parts(5_093_000 + 10_000, 0));
    let table = MeasuredQueueWeights { db };
    assert_eq!(table.reap_page(), MessageQueueWeights::<TestDb>::reap_page());
    assert_eq!(table.service_page_item(), Weight::from_parts(177_423_000 + 20_000, 0));
}

fn same(ours: Weight, theirs: sp_weights::Weight) -> bool {
    ours.ref_time() == theirs.ref_time() && ours.proof_size() == theirs.proof_size()
}

#[test]
fn weight_arithmetic_agrees_with_sp_weights() {
    let samples = [0u64, 1, 3, 1_000, 48_441, 52_894_557, 1 << 32, u64::MAX / 2, u64::MAX];
    for &a in &samples {
        for &b in &samples {
            let ours = Weight::from_parts(a, b);
            let theirs = sp_weights::Weight::from_parts(a, b);
            assert!(same(ours, theirs));
            for &c in &samples {
                assert!(same(ours.saturating_mul(c), theirs.saturating_mul(c)));
                assert!(same(
                    ours.saturating_add(Weight::from_parts(c, a)),
                    theirs.saturating_add(sp_weights::Weight::from_parts(c, a))
                ));
                let db = RuntimeDbWeight { read: a, write: b };
                let their_db = sp_weights::RuntimeDbWeight { read: a, write: b };
                assert!(same(db.reads(c), their_db.reads(c)));
                assert!(same(db.writes(c), their_db.writes(c)));
            }
        }
    }
}

#[test]
fn measured_weights_agree_with_the_formula_in_sp_weights() {
    for (read, write) in [(25_000_000u64, 100_000_000u64), (1, 1), (u64::MAX / 4, u64::MAX)] {
        let db = sp_weights::RuntimeDbWeight { read, write };
        let table = MeasuredWeights { db: RuntimeDbWeight { read, write } };
        for l in [0u32, 1, 999, 1000, u32::MAX] {
            let expected = sp_weights::Weight::from_parts(52_894_557, 51487)
                .saturating_add(sp_weights::Weight::from_parts(48_441, 0).saturating_mul(l.into()))
                .saturating_add(db.reads(3_u64))
                .saturating_add(db.writes(3_u64));
            assert!(same(table.place_bid(l), expected));
            let expected = sp_weights::Weight::from_parts(48_162_043, 51487)
                .saturating_add(sp_weights::Weight::from_parts(38_372, 0).saturating_mul(l.into()))
                .saturating_add(db.reads(3_u64))
                .saturating_add(db.writes(3_u64));
            assert!(same(table.retract_bid(l), expected));
        }
        let expected = sp_weights::Weight::from_parts(5_093_000, 0).saturating_add(db.writes(1_u64));
        assert!(same(table.process_bid(), expected));
        let queue = MeasuredQueueWeights { db: RuntimeDbWeight { read, write } };
        let expected = sp_weights::Weight::from_parts(11_605_000, 0)
            .saturating_add(sp_weights::Weight::from_parts(0, 6044))
            .saturating_add(db.reads(3))
            .saturating_add(db.writes(2));
        assert!(same(queue.ready_ring_knit(), expected));
        let expected = sp_weights::Weight::from_parts(177_423_000, 0)
            .saturating_add(sp_weights::Weight::from_parts(0, 0))
            .saturating_add(db.writes(2));
        assert!(same(queue.service_page_item(), expected));
    }
}
