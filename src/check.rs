//! The admission checker: the validate, pre-dispatch and post-dispatch
//! phases of a dispatch against the block's weight and length limits.
use vstd::prelude::*;
use crate::consumed::{saturate, ConsumedWeight};
use crate::dispatch::{unspent_spec, DispatchClass, DispatchInfo, PostDispatchInfo};
use crate::limits::{BlockLength, BlockWeights};
use crate::priority::{priority_spec, TransactionPriority, LIMIT};

verus! {

/// Why a dispatch is refused.
#[derive(Clone, Copy, Debug, PartialEq, Eq, Structural)]
pub enum InvalidTransaction {
    /// A weight or length limit would be exceeded, or a sum would overflow.
    ExhaustsResources,
    /// A mandatory dispatch was offered as a transaction.
    MandatoryDispatch,
    /// A mandatory dispatch failed while it ran.
    BadMandatory,
}

/// A transaction found valid, with the priority it competes by.
#[derive(Clone, Copy, Debug, PartialEq, Eq, Structural)]
pub struct ValidTransaction {
    pub priority: TransactionPriority,
}

/// The running totals of the block being built.
#[derive(Clone, Copy, Debug, PartialEq, Eq, Structural)]
pub struct BlockUsage {
    /// Weight consumed so far, per class.
    pub block_weight: ConsumedWeight,
    /// Bytes of all dispatches admitted so far.
    pub all_extrinsics_len: u32,
}

/// The block-weight check and length check against fixed limits.
#[derive(Clone, Copy, Debug, PartialEq, Eq, Structural)]
pub struct CheckWeight {
    pub weights: BlockWeights,
    pub length: BlockLength,
}

impl CheckWeight {
    /// Whether `info` stays within the per-dispatch weight limit of its class.
    pub open spec fn extrinsic_ok(self, info: DispatchInfo) -> bool {
        match self.weights.of(info.class).max_extrinsic {
            Some(max) => info.weight <= max,
            None => true,
        }
    }

    /// The block weight after admitting `info` to `current`, or `None` when
    /// the class limit, or the block limit beyond the class's reserve, is
    /// exceeded. The block is full when the exact sum of its classes is above
    /// `max_block`.
    pub open spec fn block_weight_spec(self, info: DispatchInfo, current: ConsumedWeight) -> Option<ConsumedWeight> {
        let limits = self.weights.of(info.class);
        let added = info.weight + limits.base_extrinsic;
        let per_class = current.of(info.class) + added;
        match limits.max_total {
            None => Some(current.with(info.class, saturate(per_class))),
            Some(max) => {
                let next = current.with(info.class, per_class as u64);
                if per_class > u64::MAX || per_class > max {
                    None
                } else if next.sum() > self.weights.max_block {
                    match limits.reserved {
                        Some(reserved) => if per_class <= reserved { Some(next) } else { None },
                        None => None,
                    }
                } else {
                    Some(next)
                }
            },
        }
    }

    /// The block length after admitting `len` bytes of class `class` to
    /// `current`, or `None` when that exceeds the class's length limit.
    pub open spec fn block_length_spec(self, class: DispatchClass, current: u32, len: usize) -> Option<u32> {
        if current + len <= self.length.of(class) {
            Some((current + len) as u32)
        } else {
            None
        }
    }

    /// The running totals after the pre-dispatch phase admits `info`, or
    /// `None` when it is refused. A mandatory dispatch is not held to the
    /// single-dispatch limit.
    pub open spec fn pre_dispatch_spec(self, info: DispatchInfo, len: usize, usage: BlockUsage) -> Option<BlockUsage> {
        match (
            self.block_length_spec(info.class, usage.all_extrinsics_len, len),
            self.block_weight_spec(info, usage.block_weight),
        ) {
            (Some(next_len), Some(next_weight)) => if info.class == DispatchClass::Mandatory || self.extrinsic_ok(info) {
                Some(BlockUsage { block_weight: next_weight, all_extrinsics_len: next_len })
            } else {
                None
            },
            _ => None,
        }
    }

    /// A checker for the given limits.
    pub fn new(weights: BlockWeights, length: BlockLength) -> (r: CheckWeight)
        ensures
            r.weights == weights,
            r.length == length,
    {
        CheckWeight { weights, length }
    }

    /// Checks that `info` does not exceed the largest weight of a single
    /// dispatch of its class. It reads no running total.
    pub fn check_extrinsic_weight(&self, info: &DispatchInfo) -> (r: Result<(), InvalidTransaction>)
        ensures
            r is Ok <==> self.extrinsic_ok(*info),
            r is Err ==> r == Err::<(), _>(InvalidTransaction::ExhaustsResources),
    {
        match self.weights.get(info.class).max_extrinsic {
            Some(max) => if info.weight > max {
                Err(InvalidTransaction::ExhaustsResources)
            } else {
                Ok(())
            },
            None => Ok(()),
        }
    }

    /// Checks that `info` fits into the block whose weight so far is
    /// `current`, and returns the block weight with `info` added.
    pub fn check_block_weight(&self, info: &DispatchInfo, current: &ConsumedWeight) -> (r: Result<ConsumedWeight, InvalidTransaction>)
        ensures
            match self.block_weight_spec(*info, *current) {
                Some(next) => r == Ok::<_, InvalidTransaction>(next),
                None => r == Err::<ConsumedWeight, _>(InvalidTransaction::ExhaustsResources),
            },
    {
        let limits = self.weights.get(info.class);
        let mut all_weight = *current;
        match limits.max_total {
            None => {
                all_weight.add(info.weight.saturating_add(limits.base_extrinsic), info.class);
                Ok(all_weight)
            },
            Some(max) => {
                let added = match info.weight.checked_add(limits.base_extrinsic) {
                    Some(a) => a,
                    None => return Err(InvalidTransaction::ExhaustsResources),
                };
                if all_weight.checked_add(added, info.class).is_err() {
                    return Err(InvalidTransaction::ExhaustsResources);
                }
                let per_class = all_weight.get(info.class);
                if per_class > max {
                    return Err(InvalidTransaction::ExhaustsResources);
                }
                let block_full = match all_weight.checked_total() {
                    Some(total) => total > self.weights.max_block,
                    None => true,
                };
                if block_full {
                    match limits.reserved {
                        Some(reserved) => if per_class > reserved {
                            return Err(InvalidTransaction::ExhaustsResources);
                        },
                        None => return Err(InvalidTransaction::ExhaustsResources),
                    }
                }
                Ok(all_weight)
            },
        }
    }

    /// Checks that `len` more bytes of class `info.class` fit into the block
    /// whose length so far is `current_len`, and returns the new length.
    pub fn check_block_length(&self, info: &DispatchInfo, current_len: u32, len: usize) -> (r: Result<u32, InvalidTransaction>)
        ensures
            match self.block_length_spec(info.class, current_len, len) {
                Some(next) => r == Ok::<_, InvalidTransaction>(next),
                None => r == Err::<u32, _>(InvalidTransaction::ExhaustsResources),
            },
    {
        let limit = self.length.get(info.class);
        if current_len > limit || len > (limit - current_len) as usize {
            Err(InvalidTransaction::ExhaustsResources)
        } else {
            Ok(current_len + len as u32)
        }
    }

    /// The priority of the dispatch `info`: a normal one by its weight, kept
    /// below `LIMIT`; an operational one by `LIMIT` plus its weight,
    /// saturating; a mandatory one the least priority.
    pub fn get_priority(info: &DispatchInfo) -> (r: TransactionPriority)
        ensures
            r == priority_spec(info.class, info.weight),
    {
        match info.class {
            DispatchClass::Normal => if info.weight < LIMIT { info.weight } else { LIMIT - 1 },
            DispatchClass::Operational => LIMIT.saturating_add(info.weight),
            DispatchClass::Mandatory => 0,
        }
    }
    /// The pre-dispatch phase: checks length, block weight and, but for a
    /// mandatory dispatch, the single-dispatch limit, and on success records the new totals in
    /// `usage`. On failure `usage` is left as it was.
    pub fn do_pre_dispatch(&self, info: &DispatchInfo, len: usize, usage: &mut BlockUsage) -> (r: Result<(), InvalidTransaction>)
        ensures
            match self.pre_dispatch_spec(*info, len, *old(usage)) {
                Some(next) => r is Ok && *final(usage) == next,
                None => r == Err::<(), _>(InvalidTransaction::ExhaustsResources) && *final(usage) == *old(usage),
            },
    {
        let next_len = match self.check_block_length(info, usage.all_extrinsics_len, len) {
            Ok(l) => l,
            Err(e) => return Err(e),
        };
        let next_weight = match self.check_block_weight(info, &usage.block_weight) {
            Ok(w) => w,
            Err(e) => return Err(e),
        };
        if info.class != DispatchClass::Mandatory {
            match self.check_extrinsic_weight(info) {
                Ok(()) => {},
                Err(e) => return Err(e),
            }
        }
        usage.all_extrinsics_len = next_len;
        usage.block_weight = next_weight;
        Ok(())
    }

    /// The validate phase: checks length and the single-dispatch limit, but
    /// not the block weight so far, and returns the priority. Reads `usage`
    /// only.
    pub fn do_validate(&self, info: &DispatchInfo, len: usize, usage: &BlockUsage) -> (r: Result<ValidTransaction, InvalidTransaction>)
        ensures
            if self.block_length_spec(info.class, usage.all_extrinsics_len, len) is Some && self.extrinsic_ok(*info) {
                r == Ok::<_, InvalidTransaction>(ValidTransaction { priority: priority_spec(info.class, info.weight) })
            } else {
                r == Err::<ValidTransaction, _>(InvalidTransaction::ExhaustsResources)
            },
    {
        match self.check_block_length(info, usage.all_extrinsics_len, len) {
            Ok(_) => {},
            Err(e) => return Err(e),
        }
        match self.check_extrinsic_weight(info) {
            Ok(()) => {},
            Err(e) => return Err(e),
        }
        Ok(ValidTransaction { priority: Self::get_priority(info) })
    }

    /// Pre-dispatch of a signed transaction: refuses a mandatory dispatch,
    /// and otherwise is `do_pre_dispatch`.
    pub fn pre_dispatch(&self, info: &DispatchInfo, len: usize, usage: &mut BlockUsage) -> (r: Result<(), InvalidTransaction>)
        ensures
            info.class == DispatchClass::Mandatory ==> r == Err::<(), _>(InvalidTransaction::MandatoryDispatch)
                && *final(usage) == *old(usage),
            info.class != DispatchClass::Mandatory ==> match self.pre_dispatch_spec(*info, len, *old(usage)) {
                Some(next) => r is Ok && *final(usage) == next,
                None => r == Err::<(), _>(InvalidTransaction::ExhaustsResources) && *final(usage) == *old(usage),
            },
    {
        if info.class == DispatchClass::Mandatory {
            return Err(InvalidTransaction::MandatoryDispatch);
        }
        self.do_pre_dispatch(info, len, usage)
    }

    /// Validation of a signed transaction: refuses a mandatory dispatch, and
    /// otherwise is `do_validate`.
    pub fn validate(&self, info: &DispatchInfo, len: usize, usage: &BlockUsage) -> (r: Result<ValidTransaction, InvalidTransaction>)
        ensures
            if info.class == DispatchClass::Mandatory {
                r == Err::<ValidTransaction, _>(InvalidTransaction::MandatoryDispatch)
            } else if self.block_length_spec(info.class, usage.all_extrinsics_len, len) is Some && self.extrinsic_ok(*info) {
                r == Ok::<_, InvalidTransaction>(ValidTransaction { priority: priority_spec(info.class, info.weight) })
            } else {
                r == Err::<ValidTransaction, _>(InvalidTransaction::ExhaustsResources)
            },
    {
        if info.class == DispatchClass::Mandatory {
            return Err(InvalidTransaction::MandatoryDispatch);
        }
        self.do_validate(info, len, usage)
    }

    /// Pre-dispatch of an unsigned dispatch, of any class.
    pub fn pre_dispatch_unsigned(&self, info: &DispatchInfo, len: usize, usage: &mut BlockUsage) -> (r: Result<(), InvalidTransaction>)
        ensures
            match self.pre_dispatch_spec(*info, len, *old(usage)) {
                Some(next) => r is Ok && *final(usage) == next,
                None => r == Err::<(), _>(InvalidTransaction::ExhaustsResources) && *final(usage) == *old(usage),
            },
    {
        self.do_pre_dispatch(info, len, usage)
    }

    /// Validation of an unsigned dispatch, of any class.
    pub fn validate_unsigned(&self, info: &DispatchInfo, len: usize, usage: &BlockUsage) -> (r: Result<ValidTransaction, InvalidTransaction>)
        ensures
            if self.block_length_spec(info.class, usage.all_extrinsics_len, len) is Some && self.extrinsic_ok(*info) {
                r == Ok::<_, InvalidTransaction>(ValidTransaction { priority: priority_spec(info.class, info.weight) })
            } else {
                r == Err::<ValidTransaction, _>(InvalidTransaction::ExhaustsResources)
            },
    {
        self.do_validate(info, len, usage)
    }

    /// The block weight after `info` ran and reported `post_info`: the
    /// unspent part of the declared weight is taken off its class.
    pub open spec fn refund_spec(info: DispatchInfo, post_info: PostDispatchInfo, current: ConsumedWeight) -> ConsumedWeight {
        let unspent = unspent_spec(post_info, info);
        let v = current.of(info.class);
        current.with(info.class, if v >= unspent { (v - unspent) as u64 } else { 0 })
    }

    /// Post-dispatch reconciliation. A mandatory dispatch whose execution
    /// failed makes the block invalid and is reported as `BadMandatory`,
    /// with nothing changed. Otherwise the declared weight that was not used
    /// is given back to the dispatch's class.
    pub fn post_dispatch(
        info: &DispatchInfo,
        post_info: &PostDispatchInfo,
        execution_failed: bool,
        usage: &mut BlockUsage,
    ) -> (r: Result<(), InvalidTransaction>)
        ensures
            info.class == DispatchClass::Mandatory && execution_failed ==> r == Err::<(), _>(InvalidTransaction::BadMandatory)
                && *final(usage) == *old(usage),
            !(info.class == DispatchClass::Mandatory && execution_failed) ==> r is Ok
                && final(usage).all_extrinsics_len == old(usage).all_extrinsics_len
                && final(usage).block_weight == Self::refund_spec(*info, *post_info, old(usage).block_weight),
    {
        if info.class == DispatchClass::Mandatory && execution_failed {
            return Err(InvalidTransaction::BadMandatory);
        }
        let unspent = post_info.calc_unspent(info);
        if unspent > 0 {
            usage.block_weight.sub(unspent, info.class);
        }
        Ok(())
    }
}


} // verus!
