use check_weight::check::{BlockUsage, CheckWeight, InvalidTransaction, ValidTransaction};
use check_weight::consumed::ConsumedWeight;
use check_weight::dispatch::{DispatchClass, DispatchInfo, Pays, PostDispatchInfo, Weight};
use check_weight::limits::{BlockLength, BlockWeights, WeightsPerClass};
use check_weight::priority::LIMIT;

fn limits(operational_reserve: Weight) -> CheckWeight {
    let weights = BlockWeights {
        base_block: 10,
        max_block: 1024,
        normal: WeightsPerClass {
            base_extrinsic: 5,
            max_extrinsic: Some(763),
            max_total: Some(768),
            reserved: Some(0),
        },
        operational: WeightsPerClass {
            base_extrinsic: 5,
            max_extrinsic: Some(1019),
            max_total: Some(1024 + operational_reserve),
            reserved: Some(operational_reserve),
        },
        mandatory: WeightsPerClass {
            base_extrinsic: 5,
            max_extrinsic: None,
            max_total: None,
            reserved: None,
        },
    };
    CheckWeight::new(weights, BlockLength { normal: 768, operational: 1024, mandatory: 1024 })
}

fn start() -> BlockUsage {
    BlockUsage {
        block_weight: ConsumedWeight { normal: 0, operational: 0, mandatory: 10 },
        all_extrinsics_len: 0,
    }
}

fn op(weight: Weight) -> DispatchInfo {
    DispatchInfo::with_class(weight, DispatchClass::Operational)
}

fn mandatory(weight: Weight) -> DispatchInfo {
    DispatchInfo::with_class(weight, DispatchClass::Mandatory)
}

#[test]
fn overweight_refused_whatever_the_totals() {
    let c = limits(256);
    let heavy = DispatchInfo::normal(764);
    assert_eq!(c.check_extrinsic_weight(&heavy), Err(InvalidTransaction::ExhaustsResources));
    for normal in [0, 100, 768] {
        let mut usage = start();
        usage.block_weight.set(normal, DispatchClass::Normal);
        let before = usage;
        assert_eq!(c.do_pre_dispatch(&heavy, 0, &mut usage), Err(InvalidTransaction::ExhaustsResources));
        assert_eq!(usage, before);
        assert_eq!(c.do_validate(&heavy, 0, &usage), Err(InvalidTransaction::ExhaustsResources));
    }
    assert_eq!(c.check_extrinsic_weight(&op(1020)), Err(InvalidTransaction::ExhaustsResources));
    assert_eq!(c.check_extrinsic_weight(&op(1019)), Ok(()));
}

#[test]
fn admissions_within_limits_sum_exactly() {
    let c = limits(256);
    let mut usage = start();
    let items = [DispatchInfo::normal(100), op(50), DispatchInfo::normal(0), mandatory(7), op(200)];
    let mut expected: Weight = 10;
    for item in items.iter() {
        assert_eq!(c.do_pre_dispatch(item, 0, &mut usage), Ok(()));
        expected += item.weight + 5;
        assert_eq!(usage.block_weight.total(), expected);
    }
    assert_eq!(usage.block_weight.total(), 10 + 357 + 25);
    assert_eq!(usage.block_weight.get(DispatchClass::Normal), 110);
    assert_eq!(usage.block_weight.get(DispatchClass::Operational), 260);
    assert_eq!(usage.block_weight.get(DispatchClass::Mandatory), 22);
}

#[test]
fn admission_order_gives_same_totals() {
    let c = limits(256);
    let a = DispatchInfo::normal(300);
    let b = op(400);
    let mut ab = start();
    assert_eq!(c.do_pre_dispatch(&a, 3, &mut ab), Ok(()));
    assert_eq!(c.do_pre_dispatch(&b, 4, &mut ab), Ok(()));
    let mut ba = start();
    assert_eq!(c.do_pre_dispatch(&b, 4, &mut ba), Ok(()));
    assert_eq!(c.do_pre_dispatch(&a, 3, &mut ba), Ok(()));
    assert_eq!(ab, ba);
    assert_eq!(ab.block_weight, ConsumedWeight { normal: 305, operational: 405, mandatory: 10 });
    assert_eq!(ab.all_extrinsics_len, 7);
}

#[test]
fn full_block_admits_operational_within_reserve_only() {
    let c = limits(256);
    let mut full = start();
    full.block_weight.add(Weight::MAX, DispatchClass::Mandatory);

    let mut usage = full;
    assert_eq!(c.do_pre_dispatch(&op(251), 0, &mut usage), Ok(()));
    assert_eq!(usage.block_weight.get(DispatchClass::Operational), 256);

    let mut usage = full;
    assert_eq!(c.do_pre_dispatch(&op(252), 0, &mut usage), Err(InvalidTransaction::ExhaustsResources));
    assert_eq!(usage, full);

    // A class without a reserve gets nothing once the block is full.
    let mut no_reserve = c;
    no_reserve.weights.operational.reserved = None;
    let mut usage = full;
    assert_eq!(no_reserve.do_pre_dispatch(&op(0), 0, &mut usage), Err(InvalidTransaction::ExhaustsResources));
}

#[test]
fn class_limit_refuses_before_reserve() {
    let c = limits(256);
    let mut usage = start();
    usage.block_weight.set(1024 + 256 - 4, DispatchClass::Operational);
    assert_eq!(c.do_pre_dispatch(&op(0), 0, &mut usage), Err(InvalidTransaction::ExhaustsResources));
}

#[test]
fn mandatory_admitted_at_any_weight() {
    let c = limits(256);
    let mut usage = start();
    usage.block_weight.set(768, DispatchClass::Normal);
    assert_eq!(c.do_pre_dispatch(&mandatory(5000), 0, &mut usage), Ok(()));
    assert_eq!(usage.block_weight.total(), 768 + 10 + 5005);
    assert_eq!(c.pre_dispatch_unsigned(&mandatory(Weight::MAX), 0, &mut usage), Ok(()));
    assert_eq!(usage.block_weight.get(DispatchClass::Mandatory), Weight::MAX);
    // Only the length limit applies to it.
    let mut usage = start();
    assert_eq!(c.do_pre_dispatch(&mandatory(1), 1025, &mut usage), Err(InvalidTransaction::ExhaustsResources));
}

#[test]
fn failed_mandatory_is_bad() {
    let mut usage = start();
    let m = mandatory(100);
    let post = PostDispatchInfo { actual_weight: Some(10), pays_fee: Pays::No };
    let before = usage;
    assert_eq!(CheckWeight::post_dispatch(&m, &post, true, &mut usage), Err(InvalidTransaction::BadMandatory));
    assert_eq!(usage, before);
    // A mandatory dispatch that succeeded is refunded like any other.
    usage.block_weight.set(110, DispatchClass::Mandatory);
    assert_eq!(CheckWeight::post_dispatch(&m, &post, false, &mut usage), Ok(()));
    assert_eq!(usage.block_weight.get(DispatchClass::Mandatory), 20);
    // A failed normal dispatch is refunded too.
    let n = DispatchInfo::normal(100);
    usage.block_weight.set(105, DispatchClass::Normal);
    assert_eq!(CheckWeight::post_dispatch(&n, &post, true, &mut usage), Ok(()));
    assert_eq!(usage.block_weight.get(DispatchClass::Normal), 15);
}

#[test]
fn refund_is_the_unspent_declared_weight() {
    let c = limits(256);
    let item = DispatchInfo::normal(300);
    let mut usage = start();
    assert_eq!(c.do_pre_dispatch(&item, 0, &mut usage), Ok(()));
    assert_eq!(usage.block_weight.total(), 315);

    let admitted = usage;
    let unmeasured = PostDispatchInfo { actual_weight: None, pays_fee: Pays::Yes };
    assert_eq!(CheckWeight::post_dispatch(&item, &unmeasured, false, &mut usage), Ok(()));
    assert_eq!(usage, admitted);

    let exact = PostDispatchInfo { actual_weight: Some(300), pays_fee: Pays::Yes };
    assert_eq!(CheckWeight::post_dispatch(&item, &exact, false, &mut usage), Ok(()));
    assert_eq!(usage, admitted);

    let idle = PostDispatchInfo { actual_weight: Some(0), pays_fee: Pays::Yes };
    assert_eq!(CheckWeight::post_dispatch(&item, &idle, false, &mut usage), Ok(()));
    assert_eq!(usage.block_weight.total(), 15);
}

#[test]
fn unspent_weight_is_capped_at_declared() {
    let item = DispatchInfo::normal(50);
    let over = PostDispatchInfo { actual_weight: Some(80), pays_fee: Pays::Yes };
    assert_eq!(over.calc_actual_weight(&item), 50);
    assert_eq!(over.calc_unspent(&item), 0);
    let under = PostDispatchInfo { actual_weight: Some(20), pays_fee: Pays::Yes };
    assert_eq!(under.calc_actual_weight(&item), 20);
    assert_eq!(under.calc_unspent(&item), 30);
    let none = PostDispatchInfo { actual_weight: None, pays_fee: Pays::Yes };
    assert_eq!(none.calc_unspent(&item), 0);
}

#[test]
fn operational_priority_above_normal() {
    assert_eq!(CheckWeight::get_priority(&DispatchInfo::normal(Weight::MAX)), LIMIT - 1);
    assert_eq!(CheckWeight::get_priority(&op(0)), LIMIT);
    assert!(CheckWeight::get_priority(&op(0)) > CheckWeight::get_priority(&DispatchInfo::normal(Weight::MAX)));
    assert_eq!(CheckWeight::get_priority(&op(Weight::MAX)), Weight::MAX);
    assert_eq!(CheckWeight::get_priority(&mandatory(1000)), 0);
    assert!(CheckWeight::get_priority(&DispatchInfo::normal(7)) < CheckWeight::get_priority(&DispatchInfo::normal(8)));
}

#[test]
fn scenario_block_reaches_its_ceiling() {
    let c = limits(256);
    let mut usage = start();
    assert_eq!(c.do_pre_dispatch(&DispatchInfo::normal(753), 0, &mut usage), Ok(()));
    assert_eq!(usage.block_weight.total(), 768);
    assert_eq!(c.do_pre_dispatch(&op(251), 0, &mut usage), Ok(()));
    assert_eq!(usage.block_weight.total(), 1024);
    let full = usage;
    assert_eq!(c.do_pre_dispatch(&op(1), 0, &mut usage), Err(InvalidTransaction::ExhaustsResources));
    assert_eq!(usage, full);

    // A larger reserve covers a further operational dispatch.
    let roomy = limits(300);
    assert_eq!(roomy.do_pre_dispatch(&op(1), 0, &mut usage), Ok(()));
    assert_eq!(usage.block_weight.total(), 1030);
}

#[test]
fn mandatory_refused_as_transaction() {
    let c = limits(256);
    let mut usage = start();
    let before = usage;
    assert_eq!(c.pre_dispatch(&mandatory(0), 0, &mut usage), Err(InvalidTransaction::MandatoryDispatch));
    assert_eq!(usage, before);
    assert_eq!(c.validate(&mandatory(0), 0, &usage), Err(InvalidTransaction::MandatoryDispatch));
    assert_eq!(c.validate_unsigned(&mandatory(0), 0, &usage), Ok(ValidTransaction { priority: 0 }));
}

#[test]
fn validate_ignores_block_weight_and_keeps_totals() {
    let c = limits(256);
    let mut usage = start();
    usage.block_weight.set(768, DispatchClass::Normal);
    let item = DispatchInfo::normal(100);
    assert_eq!(c.validate(&item, 10, &usage), Ok(ValidTransaction { priority: 100 }));
    assert_eq!(c.validate_unsigned(&item, 10, &usage), Ok(ValidTransaction { priority: 100 }));
    usage.all_extrinsics_len = 760;
    assert_eq!(c.validate(&item, 9, &usage), Err(InvalidTransaction::ExhaustsResources));
}

#[test]
fn length_overflow_is_refused() {
    let c = limits(256);
    let info = DispatchInfo::normal(0);
    assert_eq!(c.check_block_length(&info, 0, usize::MAX), Err(InvalidTransaction::ExhaustsResources));
    assert_eq!(c.check_block_length(&info, u32::MAX, 1), Err(InvalidTransaction::ExhaustsResources));
    assert_eq!(c.check_block_length(&info, 700, 68), Ok(768));
    assert_eq!(c.check_block_length(&info, 700, 69), Err(InvalidTransaction::ExhaustsResources));
}

#[test]
fn weight_overflow_is_refused() {
    let mut c = limits(256);
    c.weights.normal.max_extrinsic = None;
    c.weights.normal.max_total = Some(Weight::MAX);
    let current = ConsumedWeight::new();
    assert_eq!(
        c.check_block_weight(&DispatchInfo::normal(Weight::MAX - 4), &current),
        Err(InvalidTransaction::ExhaustsResources)
    );
    let mut current = ConsumedWeight::new();
    current.set(6, DispatchClass::Normal);
    assert_eq!(
        c.check_block_weight(&DispatchInfo::normal(Weight::MAX - 10), &current),
        Err(InvalidTransaction::ExhaustsResources)
    );
}

#[test]
fn consumed_weight_arithmetic() {
    let mut w = ConsumedWeight::new();
    assert_eq!(w.total(), 0);
    assert_eq!(w.checked_add(5, DispatchClass::Operational), Ok(()));
    assert_eq!(w.get(DispatchClass::Operational), 5);
    w.set(Weight::MAX - 1, DispatchClass::Normal);
    let before = w;
    assert_eq!(w.checked_add(2, DispatchClass::Normal), Err(()));
    assert_eq!(w, before);
    assert_eq!(w.total(), Weight::MAX);
    w.add(10, DispatchClass::Normal);
    assert_eq!(w.get(DispatchClass::Normal), Weight::MAX);
    w.sub(3, DispatchClass::Operational);
    assert_eq!(w.get(DispatchClass::Operational), 2);
    w.sub(3, DispatchClass::Operational);
    assert_eq!(w.get(DispatchClass::Operational), 0);
}

#[test]
fn limits_per_class() {
    let c = limits(256);
    assert_eq!(c.weights.get(DispatchClass::Operational).reserved, Some(256));
    assert_eq!(c.weights.get(DispatchClass::Mandatory).max_total, None);
    assert_eq!(c.length.get(DispatchClass::Operational), 1024);
    let info = DispatchInfo::with_class(3, DispatchClass::Mandatory);
    assert_eq!(info.pays_fee, Pays::Yes);
}

#[test]
fn mandatory_not_held_to_single_dispatch_limit() {
    let mut c = limits(256);
    c.weights.mandatory.max_extrinsic = Some(0);
    let heavy = mandatory(1);
    assert_eq!(c.check_extrinsic_weight(&heavy), Err(InvalidTransaction::ExhaustsResources));
    let mut usage = start();
    assert_eq!(c.do_pre_dispatch(&heavy, 0, &mut usage), Ok(()));
    assert_eq!(usage.block_weight.get(DispatchClass::Mandatory), 16);
    assert_eq!(c.validate_unsigned(&heavy, 0, &usage), Err(InvalidTransaction::ExhaustsResources));
}

#[test]
fn overflowing_total_counts_as_full_block() {
    let mut c = limits(256);
    c.weights.max_block = Weight::MAX;
    c.weights.normal.max_extrinsic = None;
    c.weights.normal.max_total = Some(Weight::MAX);
    c.weights.normal.reserved = None;
    let mut current = ConsumedWeight::new();
    current.add(Weight::MAX, DispatchClass::Mandatory);
    assert_eq!(current.checked_total(), Some(Weight::MAX));
    assert_eq!(
        c.check_block_weight(&DispatchInfo::normal(1), &current),
        Err(InvalidTransaction::ExhaustsResources)
    );
    // With a reserve that covers it, the dispatch is admitted.
    c.weights.normal.reserved = Some(6);
    let next = c.check_block_weight(&DispatchInfo::normal(1), &current).unwrap();
    assert_eq!(next.get(DispatchClass::Normal), 6);
    assert_eq!(next.checked_total(), None);
    assert_eq!(next.total(), Weight::MAX);
}
