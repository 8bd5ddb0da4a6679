use vstd::prelude::*;

verus! {

/// Number of distinct goods (`Resource` variants).
pub const RESOURCE_COUNT: usize = 12;

/// Number of production recipes, which is also the number of working roles.
pub const RECIPE_COUNT: usize = 9;

/// Daily consumption rates, in thousandths of a unit per tick.
/// Flour eaten by most workers.
pub const FLOUR_CONSUMPTION: u32 = 1000;

/// Flour eaten by primary producers, who work the land.
pub const FIELD_FLOUR_CONSUMPTION: u32 = 1200;

/// Tools worn out by primary producers.
pub const TOOL_CONSUMPTION: u32 = 200;

/// Tools worn out by craftsmen.
pub const CRAFT_TOOL_CONSUMPTION: u32 = 300;

/// Planks used up for upkeep.
pub const PLANK_CONSUMPTION: u32 = 100;

/// Cloth worn out.
pub const CLOTH_CONSUMPTION: u32 = 100;

} // verus!
