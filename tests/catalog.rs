use logistics_game::{
    Building, BuildingType, QuantityInfo, Resource, ResourceMap, ScaledValidRecipe, TerrainType,
    Tile, ValidRecipe,
};

#[test]
fn texture_ids() {
    assert_eq!(Resource::Money.get_texture_id(), "money");
    assert_eq!(Resource::Ore.get_texture_id(), "rocks");
    assert_eq!(Resource::Log.get_texture_id(), "logs");
    assert_eq!(Resource::Plank.get_texture_id(), "planks");
    assert_eq!(Resource::Furniture.get_texture_id(), "chair");
    assert_eq!(Resource::RawOil.get_texture_id(), "raw_oil");
}

#[test]
fn ordinals_follow_declaration_order() {
    assert_eq!(Resource::Money.ordinal(), 0);
    assert_eq!(Resource::Plastic.ordinal(), 14);
    for i in 0..15usize {
        assert_eq!(Resource::from_ordinal(i).ordinal(), i);
    }
    assert!(Resource::Money < Resource::Energy);
}

#[test]
fn fixed_recipes() {
    assert_eq!(
        ValidRecipe::OreMining.get_recipe().resources,
        vec![(Resource::Energy, -1), (Resource::Ore, 1)]
    );
    assert_eq!(
        ValidRecipe::MetalRefining.get_recipe().resources,
        vec![(Resource::Ore, -2), (Resource::Wire, 1), (Resource::Gold, 1)]
    );
    assert_eq!(
        ValidRecipe::FurnitureProduction.get_recipe().resources,
        vec![(Resource::Plank, -4), (Resource::Furniture, 1)]
    );
    assert_eq!(
        ValidRecipe::OilDrilling.get_recipe().resources,
        vec![(Resource::Money, -1), (Resource::Energy, -1), (Resource::RawOil, 4)]
    );
}

#[test]
fn trade_recipes_use_the_price_table() {
    assert_eq!(
        ValidRecipe::ResourceImport(Resource::Gold).get_recipe().resources,
        vec![(Resource::Money, -8), (Resource::Gold, 1)]
    );
    assert_eq!(
        ValidRecipe::ResourceExport(Resource::Sand).get_recipe().resources,
        vec![(Resource::Sand, -2), (Resource::Money, 1)]
    );
    assert_eq!(
        ValidRecipe::ResourceImport(Resource::Money).get_recipe().resources,
        vec![(Resource::Money, -1), (Resource::Money, 1)]
    );
    assert_eq!(Resource::Computer.trade_terms(), (1, 8));
}

#[test]
fn building_recipes_and_costs() {
    assert_eq!(
        BuildingType::EnergyMarket.get_valid_recipes(),
        vec![
            ValidRecipe::ResourceImport(Resource::Energy),
            ValidRecipe::ResourceExport(Resource::Energy),
        ]
    );
    assert_eq!(BuildingType::LocalMarket.get_valid_recipes().len(), 10);
    assert_eq!(BuildingType::ComputerFactory.get_construction_cost(), 150);
    assert_eq!(BuildingType::WindEnergyFarm.get_construction_cost(), 200);
    assert_eq!(BuildingType::FurnitureFactory.get_construction_cost(), 60);
}

#[test]
fn new_building_runs_every_recipe_idle() {
    let b = Building::new(BuildingType::ComputerFactory);
    assert_eq!(b.building_type, BuildingType::ComputerFactory);
    assert_eq!(
        b.production_scale,
        vec![
            ScaledValidRecipe { valid_recipe: ValidRecipe::ChipProduction, scale: 0, max_scale: 5 },
            ScaledValidRecipe { valid_recipe: ValidRecipe::ComputerAssembly, scale: 0, max_scale: 5 },
        ]
    );
}

#[test]
fn terrain_supports() {
    assert_eq!(
        TerrainType::Desert.supported_building_types(),
        vec![BuildingType::SolarEnergyFarm, BuildingType::SandPlant, BuildingType::OilRig]
    );
    assert!(TerrainType::Mountain.supported_building_types().is_empty());
    assert!(TerrainType::WaterDeep.supported_building_types().is_empty());
    assert_eq!(TerrainType::Industrial.supported_building_types().len(), 9);
}

#[test]
fn new_tile_is_unclaimed_and_empty() {
    let t = Tile::new(&TerrainType::Hills);
    assert_eq!(t.terrain_type, TerrainType::Hills);
    assert_eq!(t.owner_id, None);
    assert!(t.building.is_none());
    assert_eq!(t.get_acquisition_cost(), 100);
}

fn report(lines: &[(Resource, i32, i32, i32)]) -> ResourceMap<QuantityInfo> {
    let mut m = ResourceMap::new();
    for (r, quantity, gross_in, gross_out) in lines {
        m.insert(*r, QuantityInfo { quantity: *quantity, gross_in: *gross_in, gross_out: *gross_out });
    }
    m
}

fn scaled(valid_recipe: ValidRecipe, scale: i32) -> ScaledValidRecipe {
    ScaledValidRecipe { valid_recipe, scale, max_scale: 5 }
}

#[test]
fn clicks_ask_for_one_step_within_bounds() {
    let mid = scaled(ValidRecipe::OreMining, 2);
    assert_eq!(mid.requested_increment(true, true, false), 1);
    assert_eq!(mid.requested_increment(true, false, true), -1);
    assert_eq!(mid.requested_increment(false, true, false), 0);
    assert_eq!(mid.requested_increment(true, true, true), 0);
    assert_eq!(scaled(ValidRecipe::OreMining, 5).requested_increment(true, true, false), 0);
    assert_eq!(scaled(ValidRecipe::OreMining, 0).requested_increment(true, false, true), 0);
}

#[test]
fn increment_needs_projected_stock_of_consumed_inputs() {
    let sr = scaled(ValidRecipe::OreMining, 0);
    assert!(!sr.can_apply_increment(1, &report(&[])));
    assert!(!sr.can_apply_increment(1, &report(&[(Resource::Energy, 0, 0, 0)])));
    assert!(sr.can_apply_increment(1, &report(&[(Resource::Energy, 1, 0, 0)])));
    assert!(!sr.can_apply_increment(1, &report(&[(Resource::Energy, 1, 0, 1)])));
    assert!(sr.can_apply_increment(1, &report(&[(Resource::Energy, 0, 2, 1)])));
    assert!(!sr.can_apply_increment(0, &report(&[(Resource::Energy, 9, 0, 0)])));
}

#[test]
fn decrement_needs_projected_stock_of_outputs() {
    let sr = scaled(ValidRecipe::OreMining, 1);
    assert!(!sr.can_apply_increment(-1, &report(&[(Resource::Ore, 0, 1, 1)])));
    assert!(sr.can_apply_increment(-1, &report(&[(Resource::Ore, 0, 1, 0)])));
    assert!(!sr.can_apply_increment(-1, &report(&[])));
}

#[test]
fn click_applies_only_affordable_changes() {
    let stock = report(&[(Resource::Energy, 3, 0, 0)]);
    let mut sr = scaled(ValidRecipe::OreMining, 0);
    assert!(sr.apply_click(true, true, false, &stock));
    assert_eq!(sr.scale, 1);
    assert!(!sr.apply_click(true, true, false, &report(&[])));
    assert_eq!(sr.scale, 1);
    assert!(sr.apply_click(true, false, true, &report(&[(Resource::Ore, 0, 1, 0)])));
    assert_eq!(sr.scale, 0);
    assert!(!sr.apply_click(true, false, true, &stock));
    assert_eq!(sr.scale, 0);
}

#[test]
fn purchase_needs_stock_beyond_net_flow() {
    let line = QuantityInfo { quantity: 250, gross_in: 0, gross_out: 30 };
    assert!(line.can_afford(220));
    assert!(!line.can_afford(221));
    let gaining = QuantityInfo { quantity: 100, gross_in: 40, gross_out: 10 };
    assert!(gaining.can_afford(70));
    assert!(!gaining.can_afford(71));
}
