use vstd::prelude::*;

use crate::stat::{Stat, StatType};

verus! {

/// A minimum value that a stat of one kind must reach.
#[derive(Clone, Copy, Debug, PartialEq, Eq, Structural)]
pub struct StatRequirement {
    pub stat_type: StatType,
    pub amount: i32,
}

/// `st` satisfies `r`: same kind, and at least the required amount.
pub open spec fn met_by(r: StatRequirement, st: Stat) -> bool {
    r.stat_type == st.stat_type && r.amount <= st.value
}

impl StatRequirement {
    /// `stat` is of the required kind and at least the required amount.
    pub fn is_met(&self, stat: &Stat) -> (r: bool)
        ensures
            r == met_by(*self, *stat),
    {
        self.stat_type == stat.stat_type && self.amount <= stat.value
    }
}

/// An ordered collection of requirements; kinds may repeat.
#[derive(Debug)]
pub struct RequirementBlock {
    pub requirements: Vec<StatRequirement>,
}

impl Clone for RequirementBlock {
    fn clone(&self) -> (r: Self)
        ensures
            r.requirements@ == self.requirements@,
    {
        RequirementBlock { requirements: self.requirements.clone() }
    }
}

impl Default for RequirementBlock {
    fn default() -> (r: Self)
        ensures
            r.requirements@ == Seq::<StatRequirement>::empty(),
    {
        RequirementBlock { requirements: Vec::new() }
    }
}

} // verus!
