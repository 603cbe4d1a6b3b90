//! The weight consumed so far in a block, kept per dispatch class.
use vstd::prelude::*;
use crate::dispatch::{DispatchClass, Weight};

verus! {

/// The smaller of `x` and the largest `u64`.
pub open spec fn saturate(x: int) -> Weight {
    if x > u64::MAX { u64::MAX } else { x as Weight }
}

/// Weight used in the current block, per class.
#[derive(Clone, Copy, Debug, PartialEq, Eq, Structural)]
pub struct ConsumedWeight {
    pub normal: Weight,
    pub operational: Weight,
    pub mandatory: Weight,
}

impl ConsumedWeight {
    /// The weight of one class.
    pub open spec fn of(self, class: DispatchClass) -> Weight {
        match class {
            DispatchClass::Normal => self.normal,
            DispatchClass::Operational => self.operational,
            DispatchClass::Mandatory => self.mandatory,
        }
    }

    /// The exact sum over all classes.
    pub open spec fn sum(self) -> int {
        self.normal + self.operational + self.mandatory
    }

    /// The total over all classes, saturating at the largest weight.
    pub open spec fn total_spec(self) -> Weight {
        saturate(self.sum())
    }

    /// This record with the weight of one class replaced.
    pub open spec fn with(self, class: DispatchClass, w: Weight) -> ConsumedWeight {
        match class {
            DispatchClass::Normal => ConsumedWeight { normal: w, ..self },
            DispatchClass::Operational => ConsumedWeight { operational: w, ..self },
            DispatchClass::Mandatory => ConsumedWeight { mandatory: w, ..self },
        }
    }

    /// An empty record, as at the start of a block.
    pub fn new() -> (r: ConsumedWeight)
        ensures
            r.sum() == 0,
            forall|c: DispatchClass| r.of(c) == 0,
    {
        ConsumedWeight { normal: 0, operational: 0, mandatory: 0 }
    }

    /// The weight of one class.
    pub fn get(&self, class: DispatchClass) -> (r: Weight)
        ensures
            r == self.of(class),
    {
        match class {
            DispatchClass::Normal => self.normal,
            DispatchClass::Operational => self.operational,
            DispatchClass::Mandatory => self.mandatory,
        }
    }

    /// The total over all classes, saturating at the largest weight.
    pub fn total(&self) -> (r: Weight)
        ensures
            r == self.total_spec(),
    {
        self.normal.saturating_add(self.operational).saturating_add(self.mandatory)
    }

    /// The exact total over all classes, or `None` when it overflows.
    pub fn checked_total(&self) -> (r: Option<Weight>)
        ensures
            r == (if self.sum() <= u64::MAX { Some(self.sum() as Weight) } else { None::<Weight> }),
    {
        match self.normal.checked_add(self.operational) {
            Some(t) => t.checked_add(self.mandatory),
            None => None,
        }
    }

    /// Sets the weight of one class.
    pub fn set(&mut self, weight: Weight, class: DispatchClass)
        ensures
            *final(self) == old(self).with(class, weight),
    {
        match class {
            DispatchClass::Normal => self.normal = weight,
            DispatchClass::Operational => self.operational = weight,
            DispatchClass::Mandatory => self.mandatory = weight,
        }
    }

    /// Adds to one class, saturating at the largest weight.
    pub fn add(&mut self, weight: Weight, class: DispatchClass)
        ensures
            *final(self) == old(self).with(class, saturate(old(self).of(class) + weight)),
    {
        let v = self.get(class).saturating_add(weight);
        self.set(v, class);
    }

    /// Adds to one class; fails, leaving the record unchanged, on overflow.
    pub fn checked_add(&mut self, weight: Weight, class: DispatchClass) -> (r: Result<(), ()>)
        ensures
            r is Ok <==> old(self).of(class) + weight <= u64::MAX,
            r is Ok ==> *final(self) == old(self).with(class, (old(self).of(class) + weight) as Weight),
            r is Err ==> *final(self) == *old(self),
    {
        match self.get(class).checked_add(weight) {
            Some(v) => {
                self.set(v, class);
                Ok(())
            },
            None => Err(()),
        }
    }

    /// Subtracts from one class, stopping at zero.
    pub fn sub(&mut self, weight: Weight, class: DispatchClass)
        ensures
            *final(self) == old(self).with(
                class,
                if old(self).of(class) >= weight { (old(self).of(class) - weight) as Weight } else { 0 },
            ),
    {
        let v = self.get(class).saturating_sub(weight);
        self.set(v, class);
    }
}

} // verus!
