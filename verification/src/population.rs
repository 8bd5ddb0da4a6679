use vstd::prelude::*;

use crate::config::{
    CLOTH_CONSUMPTION, CRAFT_TOOL_CONSUMPTION, FIELD_FLOUR_CONSUMPTION, FLOUR_CONSUMPTION, PLANK_CONSUMPTION,
    RECIPE_COUNT, TOOL_CONSUMPTION,
};
use crate::recipe::recipe_book;
use crate::resource::Resource;
use crate::role::{spec_profile, spec_profile_consumption, spec_role_name, ConsumptionProfile};

verus! {

/// A group of workers of one role in the starting population.
pub struct RoleSeat {
    pub name: &'static str,
    /// Index of the role's recipe.
    pub role_index: usize,
    /// What each of them uses up per tick, in thousandths.
    pub consumption: Vec<(Resource, u32)>,
    /// How many workers start in the role.
    pub count: usize,
}

impl View for RoleSeat {
    type V = (&'static str, usize, Seq<(Resource, u32)>, usize);

    open spec fn view(&self) -> (&'static str, usize, Seq<(Resource, u32)>, usize) {
        (self.name, self.role_index, self.consumption@, self.count)
    }
}

/// The starting population, some thirty workers, role by role.
pub open spec fn roster_book() -> Seq<(&'static str, usize, Seq<(Resource, u32)>, usize)> {
    seq![
        ("Farmer", 0usize, seq![
            (Resource::Flour, FIELD_FLOUR_CONSUMPTION),
            (Resource::Tools, TOOL_CONSUMPTION),
            (Resource::Planks, PLANK_CONSUMPTION),
            (Resource::Cloth, CLOTH_CONSUMPTION),
        ], 5usize),
        ("Miller", 3usize, seq![
            (Resource::Flour, FLOUR_CONSUMPTION),
            (Resource::Tools, CRAFT_TOOL_CONSUMPTION),
            (Resource::Planks, PLANK_CONSUMPTION),
            (Resource::Cloth, CLOTH_CONSUMPTION),
        ], 4usize),
        ("Lumber", 1usize, seq![
            (Resource::Flour, FIELD_FLOUR_CONSUMPTION),
            (Resource::Tools, TOOL_CONSUMPTION),
            (Resource::Planks, PLANK_CONSUMPTION),
            (Resource::Cloth, CLOTH_CONSUMPTION),
        ], 4usize),
        ("Sawyer", 4usize, seq![
            (Resource::Flour, FLOUR_CONSUMPTION),
            (Resource::Tools, CRAFT_TOOL_CONSUMPTION),
            (Resource::Cloth, CLOTH_CONSUMPTION),
        ], 2usize),
        ("Miner", 2usize, seq![
            (Resource::Flour, FIELD_FLOUR_CONSUMPTION),
            (Resource::Tools, TOOL_CONSUMPTION),
            (Resource::Planks, PLANK_CONSUMPTION),
            (Resource::Cloth, CLOTH_CONSUMPTION),
        ], 3usize),
        ("Smelter", 5usize, seq![
            (Resource::Flour, FLOUR_CONSUMPTION),
            (Resource::Tools, CRAFT_TOOL_CONSUMPTION),
            (Resource::Planks, PLANK_CONSUMPTION),
            (Resource::Cloth, CLOTH_CONSUMPTION),
        ], 2usize),
        ("Smith", 6usize, seq![
            (Resource::Flour, FLOUR_CONSUMPTION),
            (Resource::Planks, PLANK_CONSUMPTION),
            (Resource::Cloth, CLOTH_CONSUMPTION),
        ], 3usize),
        ("Shepherd", 7usize, seq![
            (Resource::Flour, FIELD_FLOUR_CONSUMPTION),
            (Resource::Tools, TOOL_CONSUMPTION),
            (Resource::Planks, PLANK_CONSUMPTION),
            (Resource::Cloth, CLOTH_CONSUMPTION),
        ], 3usize),
        ("Weaver", 8usize, seq![
            (Resource::Flour, FLOUR_CONSUMPTION),
            (Resource::Tools, CRAFT_TOOL_CONSUMPTION),
        ], 2usize),
    ]
}

fn four(a: (Resource, u32), b: (Resource, u32), c: (Resource, u32), d: (Resource, u32)) -> (v: Vec<(Resource, u32)>)
    ensures
        v@ == seq![a, b, c, d],
{
    let mut v: Vec<(Resource, u32)> = Vec::new();
    v.push(a);
    v.push(b);
    v.push(c);
    v.push(d);
    assert(v@ =~= seq![a, b, c, d]);
    v
}

fn three(a: (Resource, u32), b: (Resource, u32), c: (Resource, u32)) -> (v: Vec<(Resource, u32)>)
    ensures
        v@ == seq![a, b, c],
{
    let mut v: Vec<(Resource, u32)> = Vec::new();
    v.push(a);
    v.push(b);
    v.push(c);
    assert(v@ =~= seq![a, b, c]);
    v
}

fn two(a: (Resource, u32), b: (Resource, u32)) -> (v: Vec<(Resource, u32)>)
    ensures
        v@ == seq![a, b],
{
    let mut v: Vec<(Resource, u32)> = Vec::new();
    v.push(a);
    v.push(b);
    assert(v@ =~= seq![a, b]);
    v
}

fn field_worker(name: &'static str, role_index: usize, count: usize) -> (s: RoleSeat)
    ensures
        s@ == (name, role_index, seq![
            (Resource::Flour, FIELD_FLOUR_CONSUMPTION),
            (Resource::Tools, TOOL_CONSUMPTION),
            (Resource::Planks, PLANK_CONSUMPTION),
            (Resource::Cloth, CLOTH_CONSUMPTION),
        ], count),
{
    RoleSeat {
        name,
        role_index,
        consumption: four(
            (Resource::Flour, FIELD_FLOUR_CONSUMPTION),
            (Resource::Tools, TOOL_CONSUMPTION),
            (Resource::Planks, PLANK_CONSUMPTION),
            (Resource::Cloth, CLOTH_CONSUMPTION),
        ),
        count,
    }
}

fn processor(name: &'static str, role_index: usize, count: usize) -> (s: RoleSeat)
    ensures
        s@ == (name, role_index, seq![
            (Resource::Flour, FLOUR_CONSUMPTION),
            (Resource::Tools, CRAFT_TOOL_CONSUMPTION),
            (Resource::Planks, PLANK_CONSUMPTION),
            (Resource::Cloth, CLOTH_CONSUMPTION),
        ], count),
{
    RoleSeat {
        name,
        role_index,
        consumption: four(
            (Resource::Flour, FLOUR_CONSUMPTION),
            (Resource::Tools, CRAFT_TOOL_CONSUMPTION),
            (Resource::Planks, PLANK_CONSUMPTION),
            (Resource::Cloth, CLOTH_CONSUMPTION),
        ),
        count,
    }
}

/// The starting population, role by role (see `roster_book`).
pub fn starting_roster() -> (v: Vec<RoleSeat>)
    ensures
        v@.len() == roster_book().len(),
        forall|i: int| 0 <= i < v@.len() ==> (#[trigger] v@[i])@ == roster_book()[i],
{
    let mut v: Vec<RoleSeat> = Vec::new();
    v.push(field_worker("Farmer", 0, 5));
    v.push(processor("Miller", 3, 4));
    v.push(field_worker("Lumber", 1, 4));
    v.push(RoleSeat {
        name: "Sawyer",
        role_index: 4,
        consumption: three(
            (Resource::Flour, FLOUR_CONSUMPTION),
            (Resource::Tools, CRAFT_TOOL_CONSUMPTION),
            (Resource::Cloth, CLOTH_CONSUMPTION),
        ),
        count: 2,
    });
    v.push(field_worker("Miner", 2, 3));
    v.push(processor("Smelter", 5, 2));
    v.push(RoleSeat {
        name: "Smith",
        role_index: 6,
        consumption: three(
            (Resource::Flour, FLOUR_CONSUMPTION),
            (Resource::Planks, PLANK_CONSUMPTION),
            (Resource::Cloth, CLOTH_CONSUMPTION),
        ),
        count: 3,
    });
    v.push(field_worker("Shepherd", 7, 3));
    v.push(RoleSeat {
        name: "Weaver",
        role_index: 8,
        consumption: two((Resource::Flour, FLOUR_CONSUMPTION), (Resource::Tools, CRAFT_TOOL_CONSUMPTION)),
        count: 2,
    });
    v
}

pub open spec fn spec_starting_stock(role_index: usize) -> Seq<(Resource, u32)> {
    if role_index == 3 {
        seq![(Resource::Grain, 20u32)]
    } else if role_index == 4 {
        seq![(Resource::Timber, 15u32)]
    } else if role_index == 5 {
        seq![(Resource::IronOre, 10u32), (Resource::Timber, 5u32)]
    } else if role_index == 6 {
        seq![(Resource::IronIngots, 5u32), (Resource::Planks, 5u32)]
    } else if role_index == 8 {
        seq![(Resource::Wool, 15u32)]
    } else {
        Seq::empty()
    }
}

/// Whole units of working stock a new worker of role `role_index` starts
/// with, on top of his food, tools and cloth.
pub fn starting_stock(role_index: usize) -> (v: Vec<(Resource, u32)>)
    ensures
        v@ == spec_starting_stock(role_index),
{
    let mut v: Vec<(Resource, u32)> = Vec::new();
    if role_index == 3 {
        v.push((Resource::Grain, 20));
    } else if role_index == 4 {
        v.push((Resource::Timber, 15));
    } else if role_index == 5 {
        v.push((Resource::IronOre, 10));
        v.push((Resource::Timber, 5));
    } else if role_index == 6 {
        v.push((Resource::IronIngots, 5));
        v.push((Resource::Planks, 5));
    } else if role_index == 8 {
        v.push((Resource::Wool, 15));
    }
    assert(v@ =~= spec_starting_stock(role_index));
    v
}

/// What the merchant uses up per tick, in thousandths.
pub fn merchant_consumption() -> (v: Vec<(Resource, u32)>)
    ensures
        v@ == seq![
            (Resource::Flour, FLOUR_CONSUMPTION),
            (Resource::Planks, PLANK_CONSUMPTION),
            (Resource::Cloth, CLOTH_CONSUMPTION),
        ],
{
    three(
        (Resource::Flour, FLOUR_CONSUMPTION),
        (Resource::Planks, PLANK_CONSUMPTION),
        (Resource::Cloth, CLOTH_CONSUMPTION),
    )
}

/// Whole units the merchant starts with.
pub fn merchant_stock() -> (v: Vec<(Resource, u32)>)
    ensures
        v@ == seq![(Resource::Flour, 20u32), (Resource::Planks, 3u32), (Resource::Cloth, 3u32)],
{
    three((Resource::Flour, 20), (Resource::Planks, 3), (Resource::Cloth, 3))
}

/// `stock` holds a positive amount of `r`.
pub open spec fn has_stock_of(stock: Seq<(Resource, u32)>, r: Resource) -> bool {
    exists|s: int| 0 <= s < stock.len() && (#[trigger] stock[s]).0 == r && stock[s].1 > 0
}

/// Number of workers of the first `n` groups of `roster`.
pub open spec fn workers_in(roster: Seq<(&'static str, usize, Seq<(Resource, u32)>, usize)>, n: int) -> int
    decreases n,
{
    if n <= 0 {
        0
    } else {
        workers_in(roster, n - 1) + roster[n - 1].3
    }
}

/// The starting population staffs every role exactly once, names each group
/// after its role, counts twenty-eight workers, and gives every processing
/// role some stock of each input of its recipe.
pub proof fn law_roster_staffs_each_role()
    ensures
        roster_book().len() == RECIPE_COUNT,
        forall|i: int, j: int| 0 <= i < j < roster_book().len() ==> roster_book()[i].1 != roster_book()[j].1,
        forall|i: int| 0 <= i < roster_book().len() ==> (#[trigger] roster_book()[i]).1 < RECIPE_COUNT,
        forall|i: int| 0 <= i < roster_book().len() ==> (#[trigger] roster_book()[i]).0 == spec_role_name(recipe_book()[roster_book()[i].1 as int].0),
        workers_in(roster_book(), roster_book().len() as int) == 28,
        forall|i: int, k: int|
            0 <= i < roster_book().len() && 0 <= k < recipe_book()[roster_book()[i].1 as int].2.len()
            ==> has_stock_of(spec_starting_stock(roster_book()[i].1), (#[trigger] recipe_book()[roster_book()[i].1 as int].2[k]).0),
{
    reveal_with_fuel(workers_in, 10);
    assert forall|i: int, k: int|
        0 <= i < roster_book().len() && 0 <= k < recipe_book()[roster_book()[i].1 as int].2.len()
        implies has_stock_of(spec_starting_stock(roster_book()[i].1), (#[trigger] recipe_book()[roster_book()[i].1 as int].2[k]).0) by {
        let r = roster_book()[i].1;
        let st = spec_starting_stock(r);
        let want = recipe_book()[r as int].2[k].0;
        if r == 5 && k == 1 {
            assert(st[1].0 == want && st[1].1 > 0);
        } else if r == 6 && k == 1 {
            assert(st[1].0 == want && st[1].1 > 0);
        } else {
            assert(st[0].0 == want && st[0].1 > 0);
        }
    }
}

/// Every starting group uses up the bundle of its kind of work, that is the
/// consumption profile of its role's recipe, save the sawyers, who make
/// their own planks: theirs is the processor bundle without planks.
pub proof fn law_roster_bundles_follow_profiles()
    ensures
        forall|i: int| 0 <= i < roster_book().len() && (#[trigger] roster_book()[i]).1 != 4
            ==> roster_book()[i].2 == spec_profile_consumption(spec_profile(recipe_book()[roster_book()[i].1 as int])),
        forall|i: int| 0 <= i < roster_book().len() && (#[trigger] roster_book()[i]).1 == 4 ==> {
            &&& spec_profile(recipe_book()[4]) == ConsumptionProfile::Processor
            &&& roster_book()[i].2 == spec_profile_consumption(ConsumptionProfile::Processor).remove(2)
            &&& spec_profile_consumption(ConsumptionProfile::Processor)[2].0 == Resource::Planks
        },
{
    assert(spec_profile_consumption(ConsumptionProfile::Processor).remove(2) =~= seq![
        (Resource::Flour, FLOUR_CONSUMPTION),
        (Resource::Tools, CRAFT_TOOL_CONSUMPTION),
        (Resource::Cloth, CLOTH_CONSUMPTION),
    ]);
}

/// Working stock by kind of work: workers who make goods from nothing start
/// with none; the miller starts with 20 grain, the sawyer with 15 timber,
/// the smelter with 10 iron ore and 5 timber, the smith with 5 iron ingots
/// and 5 planks, and the weaver with 15 wool.
pub proof fn law_starting_stock_by_work()
    ensures
        forall|i: int| 0 <= i < roster_book().len() ==> {
            let role = (#[trigger] roster_book()[i]).1;
            let out = recipe_book()[role as int].0;
            let stock = spec_starting_stock(role);
            &&& recipe_book()[role as int].2.len() == 0 <==> stock.len() == 0
            &&& out == Resource::Flour ==> stock == seq![(Resource::Grain, 20u32)]
            &&& out == Resource::Planks ==> stock == seq![(Resource::Timber, 15u32)]
            &&& out == Resource::IronIngots ==> stock == seq![(Resource::IronOre, 10u32), (Resource::Timber, 5u32)]
            &&& out == Resource::Tools ==> stock == seq![(Resource::IronIngots, 5u32), (Resource::Planks, 5u32)]
            &&& out == Resource::Cloth ==> stock == seq![(Resource::Wool, 15u32)]
        },
{
}

} // verus!
