use acala_service::dex_weights::WeightInfo;
use acala_service::weight::{mul_saturating, RuntimeDbWeight, Weight};

fn rocks_db() -> RuntimeDbWeight {
    RuntimeDbWeight { read: 25_000_000, write: 100_000_000 }
}

#[test]
fn fixed_weights_add_db_cost() {
    let info = WeightInfo::new(rocks_db());
    assert_eq!(info.enable_trading_pair(), Weight::from_ref_time(142_331_000));
    assert_eq!(info.disable_trading_pair().ref_time(), 18_452_000 + 25_000_000 + 100_000_000);
    assert_eq!(info.list_provisioning().ref_time(), 23_858_000 + 3 * 25_000_000 + 100_000_000);
    assert_eq!(info.update_provisioning_parameters().ref_time(), 10_948_000 + 125_000_000);
    assert_eq!(info.end_provisioning().ref_time(), 48_094_000 + 5 * 25_000_000 + 6 * 100_000_000);
    assert_eq!(info.add_provision().ref_time(), 76_656_000 + 5 * 25_000_000 + 5 * 100_000_000);
    assert_eq!(info.claim_dex_share().ref_time(), 69_164_000 + 7 * 25_000_000 + 5 * 100_000_000);
    assert_eq!(info.add_liquidity().ref_time(), 94_294_000 + 8 * 25_000_000 + 6 * 100_000_000);
    assert_eq!(
        info.add_liquidity_and_stake().ref_time(),
        131_607_000 + 11 * 25_000_000 + 9 * 100_000_000
    );
    assert_eq!(info.remove_liquidity().ref_time(), 88_510_000 + 6 * 25_000_000 + 6 * 100_000_000);
    assert_eq!(
        info.remove_liquidity_by_unstake().ref_time(),
        141_724_000 + 11 * 25_000_000 + 9 * 100_000_000
    );
    assert_eq!(info.refund_provision().ref_time(), 78_334_000 + 7 * 25_000_000 + 4 * 100_000_000);
    assert_eq!(info.abort_provisioning().ref_time(), 22_759_000 + 125_000_000);
    assert_eq!(info.abort_provisioning().proof_size(), 0);
}

#[test]
fn swap_weights_follow_path_length() {
    let info = WeightInfo::new(rocks_db());
    assert_eq!(info.swap_with_exact_supply(2).ref_time(), 598_824_433);
    assert_eq!(
        info.swap_with_exact_target(4).ref_time(),
        52_512_131 + 4 * 10_710_101 + 9 * 25_000_000 + 6 * 100_000_000
    );
    assert_eq!(info.swap_with_exact_supply(0).ref_time(), 52_471_993 + 25_000_000 + 200_000_000);
    assert_eq!(info.swap_with_exact_target(3).proof_size(), 0);
}

#[test]
fn longer_paths_weigh_more() {
    let info = WeightInfo::new(rocks_db());
    let mut last = 0;
    for u in [0u32, 1, 2, 3, 4, 100, u32::MAX] {
        let w = info.swap_with_exact_supply(u).ref_time();
        assert!(w >= last);
        last = w;
    }
}

#[test]
fn dearer_db_weighs_more() {
    let cheap = WeightInfo::new(RuntimeDbWeight { read: 1, write: 2 });
    let dear = WeightInfo::new(rocks_db());
    assert!(cheap.add_liquidity().ref_time() <= dear.add_liquidity().ref_time());
    assert!(cheap.swap_with_exact_target(3).ref_time() <= dear.swap_with_exact_target(3).ref_time());
    let free = WeightInfo::new(RuntimeDbWeight { read: 0, write: 0 });
    assert_eq!(free.add_liquidity().ref_time(), 94_294_000);
}

#[test]
fn weights_saturate() {
    let info = WeightInfo::new(RuntimeDbWeight { read: u64::MAX, write: 1 });
    assert_eq!(info.enable_trading_pair().ref_time(), u64::MAX);
    assert_eq!(info.swap_with_exact_supply(u32::MAX).ref_time(), u64::MAX);
    let huge = WeightInfo::new(RuntimeDbWeight { read: u64::MAX / 4, write: 0 });
    assert_eq!(huge.swap_with_exact_supply(2).ref_time(), u64::MAX);
}

#[test]
fn weight_arithmetic() {
    let a = Weight::from_parts(u64::MAX - 1, 5);
    let b = Weight::from_parts(3, 7);
    assert_eq!(a.saturating_add(b), Weight::from_parts(u64::MAX, 12));
    assert_eq!(b.saturating_mul(3), Weight::from_parts(9, 21));
    assert_eq!(a.saturating_mul(2), Weight::from_parts(u64::MAX, 10));
    assert_eq!(mul_saturating(1 << 32, 1 << 32), u64::MAX);
    assert_eq!(mul_saturating(6, 7), 42);
    let db = rocks_db();
    assert_eq!(db.reads(3), Weight::from_ref_time(75_000_000));
    assert_eq!(db.writes(2), Weight::from_ref_time(200_000_000));
    assert_eq!(db.reads(u64::MAX).ref_time(), u64::MAX);
}
