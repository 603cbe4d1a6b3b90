//! Configured weight and length limits of a block.
use vstd::prelude::*;
use crate::dispatch::{DispatchClass, Weight};

verus! {

/// Weight limits of one dispatch class.
#[derive(Clone, Copy, Debug, PartialEq, Eq, Structural)]
pub struct WeightsPerClass {
    /// Overhead charged to every dispatch of this class.
    pub base_extrinsic: Weight,
    /// Largest weight of a single dispatch; `None` for no limit.
    pub max_extrinsic: Option<Weight>,
    /// Largest total weight of this class in a block; `None` for no limit.
    pub max_total: Option<Weight>,
    /// Largest total weight of this class once the block as a whole is full;
    /// `None` for no such allowance.
    pub reserved: Option<Weight>,
}

/// Weight limits of a block.
#[derive(Clone, Copy, Debug, PartialEq, Eq, Structural)]
pub struct BlockWeights {
    /// Weight counted into every block from its start.
    pub base_block: Weight,
    /// Nominal ceiling of the block's total weight.
    pub max_block: Weight,
    pub normal: WeightsPerClass,
    pub operational: WeightsPerClass,
    pub mandatory: WeightsPerClass,
}

impl BlockWeights {
    /// The limits of one class.
    pub open spec fn of(self, class: DispatchClass) -> WeightsPerClass {
        match class {
            DispatchClass::Normal => self.normal,
            DispatchClass::Operational => self.operational,
            DispatchClass::Mandatory => self.mandatory,
        }
    }

    /// The limits of one class.
    pub fn get(&self, class: DispatchClass) -> (r: WeightsPerClass)
        ensures
            r == self.of(class),
    {
        match class {
            DispatchClass::Normal => self.normal,
            DispatchClass::Operational => self.operational,
            DispatchClass::Mandatory => self.mandatory,
        }
    }
}

/// Length limits of a block, in bytes, per class.
#[derive(Clone, Copy, Debug, PartialEq, Eq, Structural)]
pub struct BlockLength {
    pub normal: u32,
    pub operational: u32,
    pub mandatory: u32,
}

impl BlockLength {
    /// The length limit of one class.
    pub open spec fn of(self, class: DispatchClass) -> u32 {
        match class {
            DispatchClass::Normal => self.normal,
            DispatchClass::Operational => self.operational,
            DispatchClass::Mandatory => self.mandatory,
        }
    }

    /// The length limit of one class.
    pub fn get(&self, class: DispatchClass) -> (r: u32)
        ensures
            r == self.of(class),
    {
        match class {
            DispatchClass::Normal => self.normal,
            DispatchClass::Operational => self.operational,
            DispatchClass::Mandatory => self.mandatory,
        }
    }
}

} // verus!
