use crate::simulation::state::resource::ResourceType;
use crate::simulation::state::resource_bag::ResourceBag;
use vstd::prelude::*;

verus! {

/// A settlement anchored at a world cell, with its store of resources.
#[derive(Clone, Debug)]
pub struct Colony {
    pub resources: ResourceBag,
}

impl Colony {
    pub open spec fn wf(&self) -> bool {
        self.resources.wf()
    }

    /// A colony with an empty store.
    pub fn new() -> (r: Colony)
        ensures
            r.wf(),
            forall|t: ResourceType| r.resources.spec_total(t) == 0,
    {
        Colony { resources: ResourceBag::new() }
    }
}

impl Default for Colony {
    fn default() -> (r: Colony)
        ensures
            r.wf(),
            forall|t: ResourceType| r.resources.spec_total(t) == 0,
    {
        Colony::new()
    }
}

} // verus!
