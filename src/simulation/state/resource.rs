use crate::math::rgba::RGBA;
use vstd::prelude::*;

verus! {

/// The kinds of resource an asteroid can hold.
#[derive(Clone, Copy, Debug, PartialEq, Eq, Hash, Structural)]
pub enum ResourceType {
    Ice,
    Iron,
    Gold,
}

/// Number of resource types.
pub const RESOURCE_TYPE_COUNT: usize = 3;

impl ResourceType {
    /// The position of this type among all resource types.
    pub open spec fn spec_index(self) -> int {
        match self {
            ResourceType::Ice => 0,
            ResourceType::Iron => 1,
            ResourceType::Gold => 2,
        }
    }

    pub fn index(self) -> (r: usize)
        ensures
            r == self.spec_index(),
            r < RESOURCE_TYPE_COUNT,
    {
        match self {
            ResourceType::Ice => 0,
            ResourceType::Iron => 1,
            ResourceType::Gold => 2,
        }
    }

}

/// The display color of asteroids holding `t`.
pub open spec fn resource_color(t: ResourceType) -> RGBA {
    RGBA(
        match t {
            ResourceType::Ice => [98u8, 194, 207, 255],
            ResourceType::Iron => [165u8, 95, 75, 255],
            ResourceType::Gold => [207u8, 179, 84, 255],
        },
    )
}

impl From<ResourceType> for RGBA {
    fn from(resource_type: ResourceType) -> (c: RGBA) {
        match resource_type {
            ResourceType::Ice => RGBA([98, 194, 207, 255]),
            ResourceType::Iron => RGBA([165, 95, 75, 255]),
            ResourceType::Gold => RGBA([207, 179, 84, 255]),
        }
    }
}

impl vstd::std_specs::convert::FromSpecImpl<ResourceType> for RGBA {
    open spec fn obeys_from_spec() -> bool {
        true
    }

    open spec fn from_spec(v: ResourceType) -> RGBA {
        resource_color(v)
    }
}

} // verus!
