//! Dispatch classes, the information declared for a dispatch, and the
//! information reported after it ran.
use vstd::prelude::*;

verus! {

/// Computational cost of a dispatch.
pub type Weight = u64;

/// The priority tier of a dispatch.
#[derive(Clone, Copy, Debug, PartialEq, Eq, Structural)]
pub enum DispatchClass {
    /// Ordinary user transactions.
    Normal,
    /// Operational transactions, which may use the reserved space of a full block.
    Operational,
    /// Inherent work that must always be included.
    Mandatory,
}

/// Whether a dispatch pays a fee.
#[derive(Clone, Copy, Debug, PartialEq, Eq, Structural)]
pub enum Pays {
    Yes,
    No,
}

/// What a dispatch declares before it runs.
#[derive(Clone, Copy, Debug, PartialEq, Eq, Structural)]
pub struct DispatchInfo {
    pub weight: Weight,
    pub class: DispatchClass,
    pub pays_fee: Pays,
}

impl DispatchInfo {
    /// A normal, fee-paying dispatch of the given weight.
    pub fn normal(weight: Weight) -> (r: DispatchInfo)
        ensures
            r.weight == weight,
            r.class == DispatchClass::Normal,
            r.pays_fee == Pays::Yes,
    {
        DispatchInfo { weight, class: DispatchClass::Normal, pays_fee: Pays::Yes }
    }

    /// A fee-paying dispatch of the given weight and class.
    pub fn with_class(weight: Weight, class: DispatchClass) -> (r: DispatchInfo)
        ensures
            r.weight == weight,
            r.class == class,
            r.pays_fee == Pays::Yes,
    {
        DispatchInfo { weight, class, pays_fee: Pays::Yes }
    }
}

/// What is reported after a dispatch ran.
#[derive(Clone, Copy, Debug, PartialEq, Eq, Structural)]
pub struct PostDispatchInfo {
    /// The weight actually used, when it was measured.
    pub actual_weight: Option<Weight>,
    pub pays_fee: Pays,
}

/// The weight that counts as used: the measured weight, capped at the declared one.
pub open spec fn actual_weight_spec(post: PostDispatchInfo, info: DispatchInfo) -> Weight {
    match post.actual_weight {
        Some(a) => if a < info.weight { a } else { info.weight },
        None => info.weight,
    }
}

/// The declared weight that was not used.
pub open spec fn unspent_spec(post: PostDispatchInfo, info: DispatchInfo) -> Weight {
    (info.weight - actual_weight_spec(post, info)) as Weight
}

impl PostDispatchInfo {
    /// The weight that counts as used, never more than was declared.
    pub fn calc_actual_weight(&self, info: &DispatchInfo) -> (r: Weight)
        ensures
            r == actual_weight_spec(*self, *info),
            r <= info.weight,
    {
        match self.actual_weight {
            Some(a) => if a < info.weight { a } else { info.weight },
            None => info.weight,
        }
    }

    /// The part of the declared weight that was not used.
    pub fn calc_unspent(&self, info: &DispatchInfo) -> (r: Weight)
        ensures
            r == unspent_spec(*self, *info),
            r as int == info.weight - actual_weight_spec(*self, *info),
    {
        info.weight - self.calc_actual_weight(info)
    }
}

} // verus!
