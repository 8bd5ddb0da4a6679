use vstd::prelude::*;

use crate::config::RECIPE_COUNT;
use crate::resource::Resource;

verus! {

/// A production recipe. Quantities are counted in thousandths of a unit.
pub struct Recipe {
    pub output: Resource,
    /// Units made by one run, in thousandths.
    pub output_qty: u32,
    /// Goods used up by one run, with their quantities in thousandths.
    pub inputs: Vec<(Resource, u32)>,
}

impl View for Recipe {
    type V = (Resource, u32, Seq<(Resource, u32)>);

    open spec fn view(&self) -> (Resource, u32, Seq<(Resource, u32)>) {
        (self.output, self.output_qty, self.inputs@)
    }
}

/// The production chains of the economy, one recipe per working role:
/// farmer, lumberjack, miner, miller, sawyer, smelter, blacksmith,
/// shepherd and weaver.
pub open spec fn recipe_book() -> Seq<(Resource, u32, Seq<(Resource, u32)>)> {
    seq![
        (Resource::Grain, 2500u32, Seq::empty()),
        (Resource::Timber, 1500u32, Seq::empty()),
        (Resource::IronOre, 1000u32, Seq::empty()),
        (Resource::Flour, 3000u32, seq![(Resource::Grain, 1000u32)]),
        (Resource::Planks, 2000u32, seq![(Resource::Timber, 1000u32)]),
        (Resource::IronIngots, 1500u32, seq![(Resource::IronOre, 1000u32), (Resource::Timber, 500u32)]),
        (Resource::Tools, 3000u32, seq![(Resource::IronIngots, 1000u32), (Resource::Planks, 1000u32)]),
        (Resource::Wool, 1500u32, Seq::empty()),
        (Resource::Cloth, 2000u32, seq![(Resource::Wool, 1000u32)]),
    ]
}

fn primary(output: Resource, qty: u32) -> (r: Recipe)
    ensures
        r@ == (output, qty, Seq::<(Resource, u32)>::empty()),
{
    Recipe { output, output_qty: qty, inputs: Vec::new() }
}

fn processing(output: Resource, qty: u32, input: (Resource, u32)) -> (r: Recipe)
    ensures
        r@ == (output, qty, seq![input]),
{
    let mut inputs: Vec<(Resource, u32)> = Vec::new();
    inputs.push(input);
    assert(inputs@ =~= seq![input]);
    Recipe { output, output_qty: qty, inputs }
}

fn combining(output: Resource, qty: u32, first: (Resource, u32), second: (Resource, u32)) -> (r: Recipe)
    ensures
        r@ == (output, qty, seq![first, second]),
{
    let mut inputs: Vec<(Resource, u32)> = Vec::new();
    inputs.push(first);
    inputs.push(second);
    assert(inputs@ =~= seq![first, second]);
    Recipe { output, output_qty: qty, inputs }
}

/// All recipes, indexed by role.
pub fn all_recipes() -> (v: Vec<Recipe>)
    ensures
        v@.len() == RECIPE_COUNT,
        forall|i: int| 0 <= i < v@.len() ==> (#[trigger] v@[i])@ == recipe_book()[i],
{
    let mut v: Vec<Recipe> = Vec::new();
    v.push(primary(Resource::Grain, 2500));
    v.push(primary(Resource::Timber, 1500));
    v.push(primary(Resource::IronOre, 1000));
    v.push(processing(Resource::Flour, 3000, (Resource::Grain, 1000)));
    v.push(processing(Resource::Planks, 2000, (Resource::Timber, 1000)));
    v.push(combining(Resource::IronIngots, 1500, (Resource::IronOre, 1000), (Resource::Timber, 500)));
    v.push(combining(Resource::Tools, 3000, (Resource::IronIngots, 1000), (Resource::Planks, 1000)));
    v.push(primary(Resource::Wool, 1500));
    v.push(processing(Resource::Cloth, 2000, (Resource::Wool, 1000)));
    v
}

/// The production chains close up: a recipe without inputs makes one of the
/// four raw goods (grain, timber, iron ore, wool); every input of every recipe
/// is made by some recipe; no recipe yields less than it uses; and stone,
/// clay and herbs are neither made nor used.
pub proof fn law_production_chains_close()
    ensures
        forall|i: int| 0 <= i < recipe_book().len() ==> ((#[trigger] recipe_book()[i]).2.len() == 0 <==> (
            recipe_book()[i].0 == Resource::Grain || recipe_book()[i].0 == Resource::Timber
            || recipe_book()[i].0 == Resource::IronOre || recipe_book()[i].0 == Resource::Wool)),
        forall|i: int, k: int| 0 <= i < recipe_book().len() && 0 <= k < recipe_book()[i].2.len()
            ==> exists|j: int| 0 <= j < recipe_book().len() && (#[trigger] recipe_book()[j]).0 == (#[trigger] recipe_book()[i].2[k]).0,
        forall|i: int| 0 <= i < recipe_book().len() ==> total_input(#[trigger] recipe_book()[i].2, recipe_book()[i].2.len() as int) <= recipe_book()[i].1,
        forall|i: int| 0 <= i < recipe_book().len() ==> !unused_good((#[trigger] recipe_book()[i]).0),
        forall|i: int, k: int| 0 <= i < recipe_book().len() && 0 <= k < recipe_book()[i].2.len()
            ==> !unused_good((#[trigger] recipe_book()[i].2[k]).0),
{
    reveal_with_fuel(total_input, 3);
    assert forall|i: int, k: int| 0 <= i < recipe_book().len() && 0 <= k < recipe_book()[i].2.len()
        implies exists|j: int| 0 <= j < recipe_book().len() && (#[trigger] recipe_book()[j]).0 == (#[trigger] recipe_book()[i].2[k]).0 by {
        let want = recipe_book()[i].2[k].0;
        if want == Resource::Grain {
            assert(recipe_book()[0].0 == want);
        } else if want == Resource::Timber {
            assert(recipe_book()[1].0 == want);
        } else if want == Resource::IronOre {
            assert(recipe_book()[2].0 == want);
        } else if want == Resource::IronIngots {
            assert(recipe_book()[5].0 == want);
        } else if want == Resource::Planks {
            assert(recipe_book()[4].0 == want);
        } else {
            assert(recipe_book()[7].0 == want);
        }
    }
}

/// Goods that exist but take no part in production.
pub open spec fn unused_good(r: Resource) -> bool {
    r == Resource::Stone || r == Resource::Clay || r == Resource::Herbs
}

/// Thousandths used up by one run, over the first `n` inputs.
pub open spec fn total_input(inputs: Seq<(Resource, u32)>, n: int) -> int
    decreases n,
{
    if n <= 0 {
        0
    } else {
        total_input(inputs, n - 1) + inputs[n - 1].1 as int
    }
}

/// The documented production chains, recipe by recipe, keyed by what each
/// makes: grain (2.5 units a run), timber (1.5), iron ore (1) and wool (1.5)
/// come from nothing; flour (3) is milled from one unit of grain, planks (2)
/// sawn from one unit of timber, cloth (2) woven from one unit of wool, iron
/// ingots (1.5) smelted from one unit of iron ore and half a unit of timber,
/// and tools (3) forged from one unit of iron ingots and one unit of planks.
/// Each good is made by exactly one recipe.
pub proof fn law_recipe_inputs_by_output()
    ensures
        forall|i: int| 0 <= i < recipe_book().len() ==> {
            let r = #[trigger] recipe_book()[i];
            &&& r.1 == match r.0 {
                Resource::Grain => 2500u32,
                Resource::Timber => 1500u32,
                Resource::IronOre => 1000u32,
                Resource::Wool => 1500u32,
                Resource::Flour => 3000u32,
                Resource::Planks => 2000u32,
                Resource::Cloth => 2000u32,
                Resource::IronIngots => 1500u32,
                Resource::Tools => 3000u32,
                _ => 0u32,
            }
            &&& (r.0 == Resource::Grain || r.0 == Resource::Timber || r.0 == Resource::IronOre
                || r.0 == Resource::Wool) ==> r.2 == Seq::<(Resource, u32)>::empty()
            &&& r.0 == Resource::Flour ==> r.2 == seq![(Resource::Grain, 1000u32)]
            &&& r.0 == Resource::Planks ==> r.2 == seq![(Resource::Timber, 1000u32)]
            &&& r.0 == Resource::Cloth ==> r.2 == seq![(Resource::Wool, 1000u32)]
            &&& r.0 == Resource::IronIngots ==> r.2 == seq![(Resource::IronOre, 1000u32), (Resource::Timber, 500u32)]
            &&& r.0 == Resource::Tools ==> r.2 == seq![(Resource::IronIngots, 1000u32), (Resource::Planks, 1000u32)]
        },
        forall|i: int, j: int| 0 <= i < j < recipe_book().len() ==> recipe_book()[i].0 != recipe_book()[j].0,
{
}

} // verus!
