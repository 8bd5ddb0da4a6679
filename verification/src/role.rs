use vstd::prelude::*;

use crate::config::{
    CLOTH_CONSUMPTION, CRAFT_TOOL_CONSUMPTION, FIELD_FLOUR_CONSUMPTION, FLOUR_CONSUMPTION, PLANK_CONSUMPTION,
    TOOL_CONSUMPTION,
};
use crate::recipe::{recipe_book, Recipe};
use crate::resource::Resource;

verus! {

/// The bundle of goods a worker uses up each tick, which depends on the
/// kind of work.
#[derive(Debug, Clone, Copy, PartialEq, Eq, Structural)]
pub enum ConsumptionProfile {
    /// Makes goods from nothing: eats more flour, wears tools, planks and cloth.
    PrimaryProducer,
    /// The blacksmith: flour, planks and cloth.
    Toolmaker,
    /// The weaver, who clothes himself: flour and tools.
    Weaver,
    /// Any other processor: flour, tools, planks and cloth.
    Processor,
}

pub open spec fn spec_role_name(output: Resource) -> &'static str {
    match output {
        Resource::Grain => "Farmer",
        Resource::Timber => "Lumber",
        Resource::IronOre => "Miner",
        Resource::Flour => "Miller",
        Resource::Planks => "Sawyer",
        Resource::IronIngots => "Smelter",
        Resource::Tools => "Smith",
        Resource::Wool => "Shepherd",
        Resource::Cloth => "Weaver",
        _ => "Worker",
    }
}

/// Name of the worker whose recipe makes `output`.
pub fn role_name(output: Resource) -> (name: &'static str)
    ensures
        name == spec_role_name(output),
{
    match output {
        Resource::Grain => "Farmer",
        Resource::Timber => "Lumber",
        Resource::IronOre => "Miner",
        Resource::Flour => "Miller",
        Resource::Planks => "Sawyer",
        Resource::IronIngots => "Smelter",
        Resource::Tools => "Smith",
        Resource::Wool => "Shepherd",
        Resource::Cloth => "Weaver",
        _ => "Worker",
    }
}

pub open spec fn spec_chart_role_name(output: Resource) -> &'static str {
    match output {
        Resource::Grain => "Farmer",
        Resource::Timber => "Lumberjack",
        Resource::IronOre => "Miner",
        Resource::Flour => "Miller",
        Resource::Planks => "Sawyer",
        Resource::IronIngots => "Smelter",
        Resource::Tools => "Smith",
        Resource::Wool => "Shepherd",
        Resource::Cloth => "Weaver",
        _ => "Unknown",
    }
}

/// Legend label of the role whose recipe makes `output` in the role chart.
pub fn chart_role_name(output: Resource) -> (name: &'static str)
    ensures
        name == spec_chart_role_name(output),
{
    match output {
        Resource::Grain => "Farmer",
        Resource::Timber => "Lumberjack",
        Resource::IronOre => "Miner",
        Resource::Flour => "Miller",
        Resource::Planks => "Sawyer",
        Resource::IronIngots => "Smelter",
        Resource::Tools => "Smith",
        Resource::Wool => "Shepherd",
        Resource::Cloth => "Weaver",
        _ => "Unknown",
    }
}

pub open spec fn spec_profile(recipe: (Resource, u32, Seq<(Resource, u32)>)) -> ConsumptionProfile {
    if recipe.2.len() == 0 {
        ConsumptionProfile::PrimaryProducer
    } else if recipe.0 == Resource::Tools {
        ConsumptionProfile::Toolmaker
    } else if recipe.0 == Resource::Cloth {
        ConsumptionProfile::Weaver
    } else {
        ConsumptionProfile::Processor
    }
}

/// The consumption profile of a worker following `recipe`.
pub fn consumption_profile(recipe: &Recipe) -> (p: ConsumptionProfile)
    ensures
        p == spec_profile(recipe@),
{
    if recipe.inputs.len() == 0 {
        ConsumptionProfile::PrimaryProducer
    } else if recipe.output == Resource::Tools {
        ConsumptionProfile::Toolmaker
    } else if recipe.output == Resource::Cloth {
        ConsumptionProfile::Weaver
    } else {
        ConsumptionProfile::Processor
    }
}

pub open spec fn spec_profile_consumption(p: ConsumptionProfile) -> Seq<(Resource, u32)> {
    match p {
        ConsumptionProfile::PrimaryProducer => seq![
            (Resource::Flour, FIELD_FLOUR_CONSUMPTION),
            (Resource::Tools, TOOL_CONSUMPTION),
            (Resource::Planks, PLANK_CONSUMPTION),
            (Resource::Cloth, CLOTH_CONSUMPTION),
        ],
        ConsumptionProfile::Toolmaker => seq![
            (Resource::Flour, FLOUR_CONSUMPTION),
            (Resource::Planks, PLANK_CONSUMPTION),
            (Resource::Cloth, CLOTH_CONSUMPTION),
        ],
        ConsumptionProfile::Weaver => seq![
            (Resource::Flour, FLOUR_CONSUMPTION),
            (Resource::Tools, CRAFT_TOOL_CONSUMPTION),
        ],
        ConsumptionProfile::Processor => seq![
            (Resource::Flour, FLOUR_CONSUMPTION),
            (Resource::Tools, CRAFT_TOOL_CONSUMPTION),
            (Resource::Planks, PLANK_CONSUMPTION),
            (Resource::Cloth, CLOTH_CONSUMPTION),
        ],
    }
}

/// The goods a worker of profile `p` uses up each tick, in thousandths.
pub fn profile_consumption(p: ConsumptionProfile) -> (v: Vec<(Resource, u32)>)
    ensures
        v@ == spec_profile_consumption(p),
{
    let mut v: Vec<(Resource, u32)> = Vec::new();
    match p {
        ConsumptionProfile::PrimaryProducer => {
            v.push((Resource::Flour, FIELD_FLOUR_CONSUMPTION));
            v.push((Resource::Tools, TOOL_CONSUMPTION));
            v.push((Resource::Planks, PLANK_CONSUMPTION));
            v.push((Resource::Cloth, CLOTH_CONSUMPTION));
        },
        ConsumptionProfile::Toolmaker => {
            v.push((Resource::Flour, FLOUR_CONSUMPTION));
            v.push((Resource::Planks, PLANK_CONSUMPTION));
            v.push((Resource::Cloth, CLOTH_CONSUMPTION));
        },
        ConsumptionProfile::Weaver => {
            v.push((Resource::Flour, FLOUR_CONSUMPTION));
            v.push((Resource::Tools, CRAFT_TOOL_CONSUMPTION));
        },
        ConsumptionProfile::Processor => {
            v.push((Resource::Flour, FLOUR_CONSUMPTION));
            v.push((Resource::Tools, CRAFT_TOOL_CONSUMPTION));
            v.push((Resource::Planks, PLANK_CONSUMPTION));
            v.push((Resource::Cloth, CLOTH_CONSUMPTION));
        },
    }
    assert(v@ =~= spec_profile_consumption(p));
    v
}

/// What a worker becomes when taking up a role.
pub struct RoleChange {
    /// The recipes the worker follows from now on: the role's own.
    pub recipes: Vec<usize>,
    pub role_index: usize,
    pub name: &'static str,
    /// What the worker uses up each tick, in thousandths.
    pub consumption: Vec<(Resource, u32)>,
}

/// Decides a switch to role `role_index`. Merchants keep trading, and a
/// worker who cannot pay the switching fee keeps his role; anyone else takes
/// up the role's recipe, name and consumption.
pub fn plan_role_switch(is_merchant: bool, can_afford: bool, role_index: usize, recipes: &Vec<Recipe>) -> (c: Option<RoleChange>)
    requires
        !is_merchant && can_afford ==> role_index < recipes@.len(),
    ensures
        c is None <==> (is_merchant || !can_afford),
        c matches Some(ch) ==> {
            &&& ch.recipes@ == seq![role_index]
            &&& ch.role_index == role_index
            &&& ch.name == spec_role_name(recipes@[role_index as int].output)
            &&& ch.consumption@ == spec_profile_consumption(spec_profile(recipes@[role_index as int]@))
        },
{
    if is_merchant || !can_afford {
        return None;
    }
    let recipe = &recipes[role_index];
    let mut own: Vec<usize> = Vec::new();
    own.push(role_index);
    assert(own@ =~= seq![role_index]);
    Some(RoleChange {
        recipes: own,
        role_index,
        name: role_name(recipe.output),
        consumption: profile_consumption(consumption_profile(recipe)),
    })
}

/// `bundle` names good `r`.
pub open spec fn bundle_has(bundle: Seq<(Resource, u32)>, r: Resource) -> bool {
    exists|k: int| 0 <= k < bundle.len() && (#[trigger] bundle[k]).0 == r
}

/// The kind of work decides the consumption profile: makers from nothing are
/// primary producers; among processors, the one making tools is the
/// toolmaker, the one making cloth the weaver, and every other (miller,
/// sawyer, smelter, ...) a plain processor.
pub proof fn law_profile_follows_the_work(recipe: (Resource, u32, Seq<(Resource, u32)>))
    ensures
        recipe.2.len() == 0 ==> spec_profile(recipe) == ConsumptionProfile::PrimaryProducer,
        recipe.2.len() > 0 ==> (spec_profile(recipe) == ConsumptionProfile::Toolmaker <==> recipe.0 == Resource::Tools),
        recipe.2.len() > 0 ==> (spec_profile(recipe) == ConsumptionProfile::Weaver <==> recipe.0 == Resource::Cloth),
        recipe.2.len() > 0 ==> (spec_profile(recipe) == ConsumptionProfile::Processor
            <==> (recipe.0 != Resource::Tools && recipe.0 != Resource::Cloth)),
{
}

/// What each profile uses up: everyone eats flour first (field workers the
/// larger ration); everyone but the toolmaker wears out tools (field workers
/// at the lighter rate); everyone but the weaver wears out planks and cloth;
/// nothing else is used, and no good is named twice.
pub proof fn law_bundle_of_each_profile(p: ConsumptionProfile)
    ensures
        spec_profile_consumption(p).len() > 0,
        spec_profile_consumption(p)[0] == (Resource::Flour, if p == ConsumptionProfile::PrimaryProducer {
            FIELD_FLOUR_CONSUMPTION
        } else {
            FLOUR_CONSUMPTION
        }),
        bundle_has(spec_profile_consumption(p), Resource::Tools) <==> p != ConsumptionProfile::Toolmaker,
        p == ConsumptionProfile::PrimaryProducer ==> spec_profile_consumption(p).contains((Resource::Tools, TOOL_CONSUMPTION)),
        p == ConsumptionProfile::Weaver || p == ConsumptionProfile::Processor
            ==> spec_profile_consumption(p).contains((Resource::Tools, CRAFT_TOOL_CONSUMPTION)),
        bundle_has(spec_profile_consumption(p), Resource::Planks) <==> p != ConsumptionProfile::Weaver,
        bundle_has(spec_profile_consumption(p), Resource::Cloth) <==> p != ConsumptionProfile::Weaver,
        p != ConsumptionProfile::Weaver ==> spec_profile_consumption(p).contains((Resource::Planks, PLANK_CONSUMPTION))
            && spec_profile_consumption(p).contains((Resource::Cloth, CLOTH_CONSUMPTION)),
        forall|k: int| 0 <= k < spec_profile_consumption(p).len() ==> {
            let g = (#[trigger] spec_profile_consumption(p)[k]).0;
            g == Resource::Flour || g == Resource::Tools || g == Resource::Planks || g == Resource::Cloth
        },
        forall|j: int, k: int| 0 <= j < k < spec_profile_consumption(p).len()
            ==> spec_profile_consumption(p)[j].0 != spec_profile_consumption(p)[k].0,
{
    let b = spec_profile_consumption(p);
    match p {
        ConsumptionProfile::PrimaryProducer => {
            assert(b[1].0 == Resource::Tools && b[2].0 == Resource::Planks && b[3].0 == Resource::Cloth);
            assert(b[1] == (Resource::Tools, TOOL_CONSUMPTION));
            assert(b[2] == (Resource::Planks, PLANK_CONSUMPTION));
            assert(b[3] == (Resource::Cloth, CLOTH_CONSUMPTION));
        },
        ConsumptionProfile::Toolmaker => {
            assert(b[1].0 == Resource::Planks && b[2].0 == Resource::Cloth);
            assert(b[1] == (Resource::Planks, PLANK_CONSUMPTION));
            assert(b[2] == (Resource::Cloth, CLOTH_CONSUMPTION));
            assert(!bundle_has(b, Resource::Tools)) by {
                if bundle_has(b, Resource::Tools) {
                    let k = choose|k: int| 0 <= k < b.len() && (#[trigger] b[k]).0 == Resource::Tools;
                    assert(k == 0 || k == 1 || k == 2);
                }
            }
        },
        ConsumptionProfile::Weaver => {
            assert(b[1] == (Resource::Tools, CRAFT_TOOL_CONSUMPTION));
            assert(b[1].0 == Resource::Tools);
            assert(!bundle_has(b, Resource::Planks)) by {
                if bundle_has(b, Resource::Planks) {
                    let k = choose|k: int| 0 <= k < b.len() && (#[trigger] b[k]).0 == Resource::Planks;
                    assert(k == 0 || k == 1);
                }
            }
            assert(!bundle_has(b, Resource::Cloth)) by {
                if bundle_has(b, Resource::Cloth) {
                    let k = choose|k: int| 0 <= k < b.len() && (#[trigger] b[k]).0 == Resource::Cloth;
                    assert(k == 0 || k == 1);
                }
            }
        },
        ConsumptionProfile::Processor => {
            assert(b[1].0 == Resource::Tools && b[2].0 == Resource::Planks && b[3].0 == Resource::Cloth);
            assert(b[1] == (Resource::Tools, CRAFT_TOOL_CONSUMPTION));
            assert(b[2] == (Resource::Planks, PLANK_CONSUMPTION));
            assert(b[3] == (Resource::Cloth, CLOTH_CONSUMPTION));
        },
    }
}

/// The role chart labels each role by its name, except that lumberjacks are
/// written out in full: for every good a recipe makes, the chart label agrees
/// with the worker's name, and timber is made by the "Lumberjack".
pub proof fn law_chart_labels_name_the_roles()
    ensures
        forall|i: int| 0 <= i < recipe_book().len() && (#[trigger] recipe_book()[i]).0 != Resource::Timber
            ==> spec_chart_role_name(recipe_book()[i].0) == spec_role_name(recipe_book()[i].0),
        spec_chart_role_name(Resource::Timber) == "Lumberjack",
        spec_role_name(Resource::Timber) == "Lumber",
{
}

} // verus!
