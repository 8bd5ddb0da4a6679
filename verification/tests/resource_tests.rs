use medieval_market::config::RESOURCE_COUNT;
use medieval_market::resource::{Resource, SpoilageClass};

#[test]
fn index_round_trip_for_every_good() {
    for r in Resource::all() {
        let i = r.index();
        assert!(i < RESOURCE_COUNT);
        assert_eq!(Resource::from_index(i), Some(r));
    }
    assert_eq!(Resource::from_index(RESOURCE_COUNT), None);
    assert_eq!(Resource::from_index(usize::MAX), None);
}

#[test]
fn all_lists_goods_in_declaration_order() {
    let all = Resource::all();
    assert_eq!(all.len(), 12);
    assert_eq!(all[0], Resource::Grain);
    assert_eq!(all[3], Resource::IronOre);
    assert_eq!(all[7], Resource::Flour);
    assert_eq!(all[11], Resource::Cloth);
    for (i, r) in all.iter().enumerate() {
        assert_eq!(r.index(), i);
    }
}

#[test]
fn short_names_are_five_wide() {
    assert_eq!(Resource::Grain.short_name(), "Grain");
    assert_eq!(Resource::Timber.short_name(), "Timbr");
    assert_eq!(Resource::IronOre.short_name(), "IrOre");
    assert_eq!(Resource::Wool.short_name(), "Wool ");
    assert_eq!(Resource::Clay.short_name(), "Clay ");
    assert_eq!(Resource::Planks.short_name(), "Plank");
    assert_eq!(Resource::IronIngots.short_name(), "Ingot");
    for r in Resource::all() {
        assert_eq!(r.short_name().len(), 5);
    }
}

#[test]
fn names_match_debug_output() {
    for r in Resource::all() {
        assert_eq!(r.name(), format!("{:?}", r));
    }
    assert_eq!(Resource::IronIngots.name(), "IronIngots");
}

#[test]
fn spoilage_classes_and_rates() {
    assert_eq!(Resource::Grain.spoilage_class(), SpoilageClass::Perishable);
    assert_eq!(Resource::Flour.spoilage_class(), SpoilageClass::Perishable);
    assert_eq!(Resource::Herbs.spoilage_class(), SpoilageClass::Perishable);
    assert_eq!(Resource::Stone.spoilage_class(), SpoilageClass::Raw);
    assert_eq!(Resource::IronOre.spoilage_class(), SpoilageClass::Raw);
    assert_eq!(Resource::Tools.spoilage_class(), SpoilageClass::Processed);
    assert_eq!(Resource::Flour.spoilage_percent(), 5);
    assert_eq!(Resource::Timber.spoilage_percent(), 2);
    assert_eq!(Resource::Cloth.spoilage_percent(), 1);
}
