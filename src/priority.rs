//! Transaction priorities derived from class and weight.
use vstd::prelude::*;
use crate::dispatch::{DispatchClass, Weight};

verus! {

/// Priority of a transaction; higher is better.
pub type TransactionPriority = u64;

/// Start of the operational range: every normal priority lies below it.
pub const LIMIT: TransactionPriority = 9223372036854775807;

/// The priority of a dispatch of the given class and weight.
pub open spec fn priority_spec(class: DispatchClass, weight: Weight) -> TransactionPriority {
    match class {
        DispatchClass::Normal => if weight < LIMIT { weight } else { (LIMIT - 1) as TransactionPriority },
        DispatchClass::Operational => if LIMIT + weight > u64::MAX {
            u64::MAX
        } else {
            (LIMIT + weight) as TransactionPriority
        },
        DispatchClass::Mandatory => 0,
    }
}

} // verus!
