use medieval_market::config::{CLOTH_CONSUMPTION, FLOUR_CONSUMPTION, PLANK_CONSUMPTION, RECIPE_COUNT};
use medieval_market::planning::{
    consumption_candidates, input_candidates, is_primary_producer, merchant_reserve, production_plan, sell_candidates,
};
use medieval_market::population::{merchant_consumption, merchant_stock, starting_roster, starting_stock};
use medieval_market::recipe::all_recipes;
use medieval_market::resource::Resource;
use medieval_market::role::{
    chart_role_name, consumption_profile, plan_role_switch, profile_consumption, role_name, ConsumptionProfile,
};
use medieval_market::stats::role_counts;

#[test]
fn recipes_match_the_production_chains() {
    let rs = all_recipes();
    assert_eq!(rs.len(), RECIPE_COUNT);
    assert_eq!(rs[0].output, Resource::Grain);
    assert_eq!(rs[0].output_qty, 2500);
    assert!(rs[0].inputs.is_empty());
    assert_eq!(rs[5].output, Resource::IronIngots);
    assert_eq!(rs[5].inputs, vec![(Resource::IronOre, 1000), (Resource::Timber, 500)]);
    assert_eq!(rs[6].output, Resource::Tools);
    assert_eq!(rs[6].inputs, vec![(Resource::IronIngots, 1000), (Resource::Planks, 1000)]);
    assert_eq!(rs[8].output, Resource::Cloth);
    assert_eq!(rs[8].output_qty, 2000);
}

#[test]
fn role_names_follow_outputs() {
    assert_eq!(role_name(Resource::Grain), "Farmer");
    assert_eq!(role_name(Resource::Timber), "Lumber");
    assert_eq!(role_name(Resource::Tools), "Smith");
    assert_eq!(role_name(Resource::Stone), "Worker");
    assert_eq!(chart_role_name(Resource::Timber), "Lumberjack");
    assert_eq!(chart_role_name(Resource::Clay), "Unknown");
}

#[test]
fn consumption_profiles_by_kind_of_work() {
    let rs = all_recipes();
    assert_eq!(consumption_profile(&rs[0]), ConsumptionProfile::PrimaryProducer);
    assert_eq!(consumption_profile(&rs[6]), ConsumptionProfile::Toolmaker);
    assert_eq!(consumption_profile(&rs[8]), ConsumptionProfile::Weaver);
    assert_eq!(consumption_profile(&rs[3]), ConsumptionProfile::Processor);
    assert_eq!(
        profile_consumption(ConsumptionProfile::Weaver),
        vec![(Resource::Flour, FLOUR_CONSUMPTION), (Resource::Tools, 300)]
    );
    assert_eq!(profile_consumption(ConsumptionProfile::PrimaryProducer)[0], (Resource::Flour, 1200));
}

#[test]
fn role_switch_decisions() {
    let rs = all_recipes();
    assert!(plan_role_switch(true, true, 3, &rs).is_none());
    assert!(plan_role_switch(false, false, 3, &rs).is_none());
    // Refusals do not look at the role index at all.
    assert!(plan_role_switch(true, true, 99, &rs).is_none());
    let change = plan_role_switch(false, true, 6, &rs).unwrap();
    assert_eq!(change.recipes, vec![6]);
    assert_eq!(change.role_index, 6);
    assert_eq!(change.name, "Smith");
    assert_eq!(
        change.consumption,
        vec![
            (Resource::Flour, FLOUR_CONSUMPTION),
            (Resource::Planks, PLANK_CONSUMPTION),
            (Resource::Cloth, CLOTH_CONSUMPTION)
        ]
    );
}

#[test]
fn smelter_plan() {
    let rs = all_recipes();
    let plan = production_plan(&vec![5], &rs);
    assert_eq!(plan.produced, vec![Resource::IronIngots]);
    assert_eq!(plan.needed_inputs, vec![Resource::IronOre, Resource::Timber]);
    assert_eq!(plan.output_rates[Resource::IronIngots.index()], 1500);
    assert_eq!(plan.input_rates[Resource::IronOre.index()], 1000);
    assert_eq!(plan.input_rates[Resource::Timber.index()], 500);
    assert_eq!(plan.input_rates[Resource::Grain.index()], 0);
    assert_eq!(sell_candidates(&plan), vec![Resource::IronIngots]);
    assert_eq!(input_candidates(&plan), vec![Resource::Timber, Resource::IronOre]);
}

#[test]
fn plan_with_repeated_and_shared_inputs() {
    let rs = all_recipes();
    // Smelter, sawmill and smelter again: timber is needed by both recipes.
    let plan = production_plan(&vec![5, 4, 5], &rs);
    assert_eq!(plan.produced, vec![Resource::IronIngots, Resource::Planks, Resource::IronIngots]);
    assert_eq!(plan.needed_inputs, vec![Resource::IronOre, Resource::Timber]);
    assert_eq!(plan.output_rates[Resource::IronIngots.index()], 3000);
    assert_eq!(plan.input_rates[Resource::Timber.index()], 2000);
    assert_eq!(sell_candidates(&plan), vec![Resource::Planks, Resource::IronIngots]);
}

#[test]
fn own_output_is_not_bought_as_input() {
    let rs = all_recipes();
    // Lumberjack and sawyer: timber is made, so it is not shopped for.
    let plan = production_plan(&vec![1, 4], &rs);
    assert_eq!(input_candidates(&plan), Vec::<Resource>::new());
    let mut consumes = vec![false; 12];
    consumes[Resource::Flour.index()] = true;
    consumes[Resource::Planks.index()] = true;
    consumes[Resource::Cloth.index()] = true;
    assert_eq!(consumption_candidates(&plan, &consumes), vec![Resource::Flour, Resource::Cloth]);
}

#[test]
fn merchant_plan_is_empty() {
    let rs = all_recipes();
    let plan = production_plan(&vec![], &rs);
    assert!(plan.produced.is_empty());
    assert!(plan.needed_inputs.is_empty());
    assert!(plan.output_rates.iter().all(|x| *x == 0));
    assert!(!is_primary_producer(&vec![], &rs));
}

#[test]
fn primary_producers() {
    let rs = all_recipes();
    assert!(is_primary_producer(&vec![0], &rs));
    assert!(is_primary_producer(&vec![3, 7], &rs));
    assert!(!is_primary_producer(&vec![3, 6], &rs));
}

#[test]
fn merchant_holds_back_flour_only() {
    assert_eq!(merchant_reserve(Resource::Flour), 5);
    assert_eq!(merchant_reserve(Resource::Grain), 0);
    assert_eq!(merchant_stock(), vec![(Resource::Flour, 20), (Resource::Planks, 3), (Resource::Cloth, 3)]);
    assert_eq!(merchant_consumption().len(), 3);
}

#[test]
fn roster_staffs_every_role() {
    let rs = all_recipes();
    let roster = starting_roster();
    assert_eq!(roster.len(), RECIPE_COUNT);
    let total: usize = roster.iter().map(|s| s.count).sum();
    assert_eq!(total, 28);
    for seat in &roster {
        assert_eq!(seat.name, role_name(rs[seat.role_index].output));
    }
    assert_eq!(roster[3].name, "Sawyer");
    assert_eq!(roster[3].consumption.len(), 3);
    assert_eq!(starting_stock(5), vec![(Resource::IronOre, 10), (Resource::Timber, 5)]);
    assert_eq!(starting_stock(0), vec![]);
    assert_eq!(starting_stock(8), vec![(Resource::Wool, 15)]);
}

#[test]
fn role_counts_per_role() {
    let roles = vec![Some(0), Some(0), None, Some(8), Some(42), Some(3)];
    let counts = role_counts(&roles);
    assert_eq!(counts.len(), RECIPE_COUNT);
    assert_eq!(counts[0], 2);
    assert_eq!(counts[3], 1);
    assert_eq!(counts[8], 1);
    assert_eq!(counts[1], 0);
    assert_eq!(counts.iter().sum::<u32>(), 4);
}
