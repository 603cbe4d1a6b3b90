//! Properties of the admission protocol, stated over the specification
//! functions that the checker's contracts use.
use vstd::prelude::*;
use crate::check::{BlockUsage, CheckWeight};
use crate::consumed::{saturate, ConsumedWeight};
use crate::dispatch::{DispatchClass, DispatchInfo, PostDispatchInfo, Weight};
use crate::priority::priority_spec;

verus! {

/// The weight that admitting `info` adds: its declared weight plus the
/// overhead of its class.
pub open spec fn charge(check: CheckWeight, info: DispatchInfo) -> int {
    info.weight + check.weights.of(info.class).base_extrinsic
}

/// The sum of the charges of `infos`.
pub open spec fn total_charge(check: CheckWeight, infos: Seq<DispatchInfo>) -> int
    decreases infos.len(),
{
    if infos.len() == 0 {
        0
    } else {
        total_charge(check, infos.drop_last()) + charge(check, infos.last())
    }
}

/// The sum of the charges of those of `infos` that are of class `class`.
pub open spec fn class_charge(check: CheckWeight, infos: Seq<DispatchInfo>, class: DispatchClass) -> int
    decreases infos.len(),
{
    if infos.len() == 0 {
        0
    } else {
        class_charge(check, infos.drop_last(), class) + if infos.last().class == class {
            charge(check, infos.last())
        } else {
            0
        }
    }
}

/// The block weight after the block-weight check admits each of `infos` in
/// turn, starting from `start`; `None` once one is refused.
pub open spec fn admit_all(check: CheckWeight, infos: Seq<DispatchInfo>, start: ConsumedWeight) -> Option<ConsumedWeight>
    decreases infos.len(),
{
    if infos.len() == 0 {
        Some(start)
    } else {
        match admit_all(check, infos.drop_last(), start) {
            Some(w) => check.block_weight_spec(infos.last(), w),
            None => None,
        }
    }
}

/// A dispatch heavier than the single-dispatch limit of its class is refused
/// by validation, and by pre-dispatch unless it is mandatory, whatever the
/// running totals are.
pub proof fn lemma_overweight_refused(check: CheckWeight, info: DispatchInfo, len: usize, usage: BlockUsage)
    requires
        check.weights.of(info.class).max_extrinsic matches Some(max) && info.weight > max,
    ensures
        !check.extrinsic_ok(info),
        info.class != DispatchClass::Mandatory ==> check.pre_dispatch_spec(info, len, usage) is None,
{
}

/// While every capped class stays within its total limit and the block stays
/// within its nominal ceiling, every dispatch of a sequence is admitted, and
/// the block weight grows by exactly the declared weights plus overheads.
/// Its total is then the exact sum, so a block that started at `base_block`
/// ends at `base_block` plus those charges.
pub proof fn lemma_admit_within_limits(check: CheckWeight, infos: Seq<DispatchInfo>, start: ConsumedWeight)
    requires
        forall|c: DispatchClass| (#[trigger] check.weights.of(c)).max_total matches Some(max)
            ==> start.of(c) + class_charge(check, infos, c) <= max,
        start.sum() + total_charge(check, infos) <= check.weights.max_block,
    ensures
        admit_all(check, infos, start) matches Some(end) && {
            &&& end.sum() == start.sum() + total_charge(check, infos)
            &&& saturate(end.sum()) == end.sum()
            &&& forall|c: DispatchClass| #[trigger] end.of(c) == start.of(c) + class_charge(check, infos, c)
        },
    decreases infos.len(),
{
    if infos.len() > 0 {
        let prefix = infos.drop_last();
        let last = infos.last();
        assert forall|c: DispatchClass| (#[trigger] check.weights.of(c)).max_total is Some
            implies start.of(c) + class_charge(check, prefix, c) <= check.weights.of(c).max_total.unwrap() by {
            assert(class_charge(check, infos, c) >= class_charge(check, prefix, c));
        }
        lemma_admit_within_limits(check, prefix, start);
        let mid = admit_all(check, prefix, start).unwrap();
        assert(mid.of(last.class) == start.of(last.class) + class_charge(check, prefix, last.class));
        assert(class_charge(check, infos, last.class) == class_charge(check, prefix, last.class) + charge(check, last));
        let end = check.block_weight_spec(last, mid).unwrap();
        assert forall|c: DispatchClass| #[trigger] end.of(c) == start.of(c) + class_charge(check, infos, c) by {
            assert(mid.of(c) == start.of(c) + class_charge(check, prefix, c));
        }
    }
}

/// The sum of the first `n` lengths of `lens`.
pub open spec fn len_sum(lens: Seq<usize>, n: int) -> int
    decreases n,
{
    if n <= 0 {
        0
    } else {
        len_sum(lens, n - 1) + lens[n - 1]
    }
}

/// The running totals after pre-dispatch admits each of `infos` in turn,
/// the `k`th with length `lens[k]`, starting from `start`; `None` once one
/// is refused.
pub open spec fn pre_dispatch_all(check: CheckWeight, infos: Seq<DispatchInfo>, lens: Seq<usize>, start: BlockUsage) -> Option<BlockUsage>
    decreases infos.len(),
{
    if infos.len() == 0 {
        Some(start)
    } else {
        match pre_dispatch_all(check, infos.drop_last(), lens, start) {
            Some(u) => check.pre_dispatch_spec(infos.last(), lens[infos.len() - 1], u),
            None => None,
        }
    }
}

/// A sequence of pre-dispatches within every limit is admitted in full: when
/// each dispatch is within its single-dispatch limit, the running length
/// after each stays within the length limit of its class, and the weight
/// stays within the class and block limits, every dispatch is admitted and
/// the block weight's total grows by exactly the declared weights plus
/// overheads.
pub proof fn lemma_pre_dispatch_within_limits(check: CheckWeight, infos: Seq<DispatchInfo>, lens: Seq<usize>, start: BlockUsage)
    requires
        lens.len() >= infos.len(),
        forall|k: int| 0 <= k < infos.len() ==> check.extrinsic_ok(#[trigger] infos[k]),
        forall|k: int| 0 <= k < infos.len()
            ==> start.all_extrinsics_len + len_sum(lens, k + 1) <= check.length.of((#[trigger] infos[k]).class),
        forall|c: DispatchClass| (#[trigger] check.weights.of(c)).max_total matches Some(max)
            ==> start.block_weight.of(c) + class_charge(check, infos, c) <= max,
        start.block_weight.sum() + total_charge(check, infos) <= check.weights.max_block,
    ensures
        pre_dispatch_all(check, infos, lens, start) matches Some(end) && {
            &&& end.block_weight.total_spec() == start.block_weight.sum() + total_charge(check, infos)
            &&& end.all_extrinsics_len == start.all_extrinsics_len + len_sum(lens, infos.len() as int)
            &&& Some(end.block_weight) == admit_all(check, infos, start.block_weight)
        },
    decreases infos.len(),
{
    lemma_admit_within_limits(check, infos, start.block_weight);
    if infos.len() > 0 {
        let prefix = infos.drop_last();
        let n = infos.len() - 1;
        assert forall|c: DispatchClass| (#[trigger] check.weights.of(c)).max_total is Some
            implies start.block_weight.of(c) + class_charge(check, prefix, c) <= check.weights.of(c).max_total.unwrap() by {
            assert(class_charge(check, infos, c) >= class_charge(check, prefix, c));
        }
        assert forall|k: int| 0 <= k < prefix.len() implies check.extrinsic_ok(#[trigger] prefix[k]) by {
            assert(prefix[k] == infos[k]);
        }
        assert forall|k: int| 0 <= k < prefix.len() implies start.all_extrinsics_len + len_sum(lens, k + 1)
            <= check.length.of((#[trigger] prefix[k]).class) by {
            assert(prefix[k] == infos[k]);
        }
        lemma_pre_dispatch_within_limits(check, prefix, lens, start);
        assert(infos[n] == infos.last());
    }
}

/// Admitting `a` then `b` gives the same block weight as admitting `b` then
/// `a`, when both orders succeed.
pub proof fn lemma_order_independent(check: CheckWeight, a: DispatchInfo, b: DispatchInfo, start: ConsumedWeight)
    requires
        check.block_weight_spec(a, start) matches Some(wa) && check.block_weight_spec(b, wa) is Some,
        check.block_weight_spec(b, start) matches Some(wb) && check.block_weight_spec(a, wb) is Some,
    ensures
        check.block_weight_spec(b, check.block_weight_spec(a, start).unwrap())
            == check.block_weight_spec(a, check.block_weight_spec(b, start).unwrap()),
{
}

/// Once the block's total exceeds its nominal ceiling (already, or with the
/// dispatch added), a dispatch of a class with a total limit (an operational
/// one, chiefly) is admitted exactly when its class total after admission
/// stays within the class's reserve.
pub proof fn lemma_reserve_after_full_block(check: CheckWeight, info: DispatchInfo, current: ConsumedWeight)
    requires
        current.sum() + charge(check, info) > check.weights.max_block,
        check.weights.of(info.class).max_total matches Some(max)
            && (check.weights.of(info.class).reserved matches Some(r) ==> r <= max),
    ensures
        check.block_weight_spec(info, current) is Some <==> (check.weights.of(info.class).reserved matches Some(r)
            && current.of(info.class) + charge(check, info) <= r),
{
}

/// A mandatory dispatch passes the block-weight check whatever its weight,
/// where the mandatory class has no total limit; only the length check can
/// then refuse it at pre-dispatch.
pub proof fn lemma_mandatory_admitted(
    check: CheckWeight,
    info: DispatchInfo,
    len: usize,
    usage: BlockUsage,
)
    requires
        info.class == DispatchClass::Mandatory,
        check.weights.mandatory.max_total is None,
    ensures
        check.block_weight_spec(info, usage.block_weight) is Some,
        check.block_length_spec(info.class, usage.all_extrinsics_len, len) is Some
            ==> check.pre_dispatch_spec(info, len, usage) is Some,
{
}

/// After a dispatch is admitted and has run, reconciliation leaves its
/// charge at its actual cost: the measured weight plus the class overhead,
/// where that is below the declared weight plus overhead. The block weight
/// falls by exactly the difference, and by nothing when the actual cost is
/// at least the declared one or was not measured.
pub proof fn lemma_refund(check: CheckWeight, info: DispatchInfo, post: PostDispatchInfo, start: ConsumedWeight)
    requires
        check.block_weight_spec(info, start) is Some,
        start.of(info.class) + charge(check, info) <= u64::MAX,
    ensures
        ({
            let admitted = check.block_weight_spec(info, start).unwrap();
            let refunded = CheckWeight::refund_spec(info, post, admitted);
            let declared = charge(check, info);
            &&& admitted.sum() == start.sum() + declared
            &&& (post.actual_weight matches Some(a) ==> (a + check.weights.of(info.class).base_extrinsic <= declared
                ==> refunded.sum() == admitted.sum() - (declared - (a + check.weights.of(info.class).base_extrinsic))))
            &&& (post.actual_weight matches Some(a) ==> (a + check.weights.of(info.class).base_extrinsic >= declared
                ==> refunded == admitted))
            &&& post.actual_weight is None ==> refunded == admitted
        }),
{
}

/// Every operational priority is above every normal one; a mandatory
/// dispatch has the least priority; and within a class a heavier dispatch
/// never has a lower priority.
pub proof fn lemma_priority_order(w1: Weight, w2: Weight)
    ensures
        priority_spec(DispatchClass::Operational, w2) > priority_spec(DispatchClass::Normal, w1),
        forall|c: DispatchClass| priority_spec(DispatchClass::Mandatory, w1) <= #[trigger] priority_spec(c, w2),
        w1 <= w2 ==> forall|c: DispatchClass| #[trigger] priority_spec(c, w1) <= priority_spec(c, w2),
{
}

} // verus!
