use logistics_game::{
    Building, BuildingType, Business, GameData, QuantityInfo, Resource, ResourceMap,
    ScaledValidRecipe, TerrainType, Tile, ValidRecipe,
};

fn info(quantity: i32, gross_in: i32, gross_out: i32) -> QuantityInfo {
    QuantityInfo { quantity, gross_in, gross_out }
}

fn stock_of(pairs: &[(Resource, i32)]) -> ResourceMap<i32> {
    let mut m = ResourceMap::new();
    for (r, q) in pairs {
        m.insert(*r, *q);
    }
    m
}

fn site(owner: Option<usize>, building_type: BuildingType, recipes: Vec<(ValidRecipe, i32)>) -> Tile {
    let mut tile = Tile::new(&TerrainType::Industrial);
    tile.owner_id = owner;
    tile.building = Some(Building {
        building_type,
        production_scale: recipes
            .into_iter()
            .map(|(valid_recipe, scale)| ScaledValidRecipe { valid_recipe, scale, max_scale: 5 })
            .collect(),
    });
    tile
}

fn world(tiles: Vec<Vec<Tile>>, stocks: Vec<ResourceMap<i32>>) -> GameData {
    GameData {
        tiles,
        businesses: stocks.into_iter().map(|resources| Business { resources }).collect(),
    }
}

fn holdings(g: &GameData, owner: usize) -> Vec<(Resource, i32)> {
    g.businesses[owner].resources.entries()
}

#[test]
fn mining_site_report_and_turn() {
    let mut g = world(
        vec![vec![site(Some(0), BuildingType::Mine, vec![(ValidRecipe::OreMining, 3)])]],
        vec![stock_of(&[(Resource::Money, 250)])],
    );
    let report = g.get_resource_stock(0);
    assert_eq!(
        report.entries(),
        vec![
            (Resource::Money, info(250, 0, 0)),
            (Resource::Energy, info(0, 0, 3)),
            (Resource::Ore, info(0, 3, 0)),
        ]
    );
    g.update_business_resources(0);
    assert_eq!(
        holdings(&g, 0),
        vec![(Resource::Money, 250), (Resource::Energy, -3), (Resource::Ore, 3)]
    );
}

#[test]
fn gold_import_report_and_turn() {
    let mut g = world(
        vec![vec![site(
            Some(0),
            BuildingType::LocalMarket,
            vec![(ValidRecipe::ResourceImport(Resource::Gold), 2)],
        )]],
        vec![stock_of(&[(Resource::Money, 20)])],
    );
    let report = g.get_resource_stock(0);
    assert_eq!(report.get(&Resource::Money), Some(info(20, 0, 16)));
    assert_eq!(report.get(&Resource::Gold), Some(info(0, 2, 0)));
    assert_eq!(report.len(), 2);
    g.update_business_resources(0);
    assert_eq!(holdings(&g, 0), vec![(Resource::Money, 4), (Resource::Gold, 2)]);
}

#[test]
fn owner_without_sites_sees_only_stock() {
    let g = world(
        vec![vec![
            site(Some(1), BuildingType::Mine, vec![(ValidRecipe::OreMining, 3)]),
            site(None, BuildingType::Sawmill, vec![(ValidRecipe::PlankProduction, 2)]),
            Tile::new(&TerrainType::Forrest),
        ]],
        vec![stock_of(&[(Resource::Money, 250), (Resource::Log, 7)]), stock_of(&[])],
    );
    let report = g.get_resource_stock(0);
    assert_eq!(
        report.entries(),
        vec![(Resource::Money, info(250, 0, 0)), (Resource::Log, info(7, 0, 0))]
    );
}

#[test]
fn owned_tile_without_building_adds_nothing() {
    let mut tile = Tile::new(&TerrainType::Urban);
    tile.owner_id = Some(0);
    let g = world(vec![vec![tile]], vec![stock_of(&[(Resource::Money, 5)])]);
    assert_eq!(g.get_resource_stock(0).entries(), vec![(Resource::Money, info(5, 0, 0))]);
}

#[test]
fn empty_stock_and_no_sites_gives_empty_report() {
    let g = world(vec![], vec![stock_of(&[])]);
    let report = g.get_resource_stock(0);
    assert_eq!(report.len(), 0);
    assert!(report.entries().is_empty());
}

#[test]
fn idle_recipes_add_no_lines() {
    let g = world(
        vec![vec![site(
            Some(0),
            BuildingType::ComputerFactory,
            vec![(ValidRecipe::ChipProduction, 0), (ValidRecipe::ComputerAssembly, 0)],
        )]],
        vec![stock_of(&[(Resource::Money, 250)])],
    );
    assert_eq!(g.get_resource_stock(0).entries(), vec![(Resource::Money, info(250, 0, 0))]);
}

#[test]
fn idle_recipe_beside_active_one_adds_nothing() {
    let g = world(
        vec![vec![site(
            Some(0),
            BuildingType::ComputerFactory,
            vec![(ValidRecipe::ChipProduction, 0), (ValidRecipe::ComputerAssembly, 1)],
        )]],
        vec![stock_of(&[])],
    );
    assert_eq!(
        g.get_resource_stock(0).entries(),
        vec![
            (Resource::Chip, info(0, 0, 1)),
            (Resource::Wire, info(0, 0, 1)),
            (Resource::Computer, info(0, 1, 0)),
        ]
    );
}

#[test]
fn reading_twice_gives_the_same_report() {
    let g = world(
        vec![
            vec![site(Some(0), BuildingType::OilRig, vec![(ValidRecipe::OilDrilling, 2)])],
            vec![site(Some(0), BuildingType::OilRefinery, vec![(ValidRecipe::OilRefining, 4)])],
        ],
        vec![stock_of(&[(Resource::Money, 100)])],
    );
    let first = g.get_resource_stock(0).entries();
    let second = g.get_resource_stock(0).entries();
    assert_eq!(first, second);
    assert_eq!(
        first,
        vec![
            (Resource::Money, info(100, 0, 2)),
            (Resource::Energy, info(0, 0, 2)),
            (Resource::RawOil, info(0, 8, 4)),
            (Resource::Oil, info(0, 8, 0)),
        ]
    );
}

#[test]
fn two_turns_commit_the_flow_twice() {
    let mut g = world(
        vec![vec![site(Some(0), BuildingType::GlassFactory, vec![(ValidRecipe::GlassProduction, 2)])]],
        vec![stock_of(&[(Resource::Money, 250), (Resource::Sand, 10)])],
    );
    g.update_business_resources(0);
    assert_eq!(
        holdings(&g, 0),
        vec![(Resource::Money, 250), (Resource::Sand, 8), (Resource::Glass, 2)]
    );
    g.update_business_resources(0);
    assert_eq!(
        holdings(&g, 0),
        vec![(Resource::Money, 250), (Resource::Sand, 6), (Resource::Glass, 4)]
    );
}

#[test]
fn conversion_moves_exactly_the_scale_and_may_go_negative() {
    let mut g = world(
        vec![vec![
            site(Some(0), BuildingType::GlassFactory, vec![(ValidRecipe::GlassProduction, 4)]),
            site(Some(0), BuildingType::Mine, vec![(ValidRecipe::OreMining, 1)]),
        ]],
        vec![stock_of(&[(Resource::Sand, 1), (Resource::Glass, 3)])],
    );
    g.update_business_resources(0);
    let after = g.businesses[0].resources;
    assert_eq!(after.get(&Resource::Sand), Some(-3));
    assert_eq!(after.get(&Resource::Glass), Some(7));
}

#[test]
fn report_is_listed_in_resource_order() {
    let g = world(
        vec![vec![
            site(Some(0), BuildingType::OilEnergyPlant, vec![(ValidRecipe::OilBurning, 1)]),
            site(Some(0), BuildingType::PlasticFactory, vec![(ValidRecipe::PlasticProduction, 1)]),
            site(Some(0), BuildingType::Sawmill, vec![(ValidRecipe::PlankProduction, 1)]),
        ]],
        vec![stock_of(&[(Resource::Gold, 1), (Resource::Money, 9)])],
    );
    let keys: Vec<Resource> = g.get_resource_stock(0).entries().into_iter().map(|(r, _)| r).collect();
    assert_eq!(
        keys,
        vec![
            Resource::Money,
            Resource::Energy,
            Resource::Gold,
            Resource::Log,
            Resource::Plank,
            Resource::Oil,
            Resource::Plastic,
        ]
    );
    for pair in keys.windows(2) {
        assert!(pair[0] < pair[1]);
    }
}

#[test]
fn flows_of_several_sites_are_summed_gross() {
    let g = world(
        vec![
            vec![site(Some(0), BuildingType::OilEnergyPlant, vec![(ValidRecipe::OilBurning, 3)])],
            vec![site(Some(0), BuildingType::Mine, vec![(ValidRecipe::OreMining, 5)])],
        ],
        vec![stock_of(&[(Resource::Energy, 1)])],
    );
    let report = g.get_resource_stock(0);
    assert_eq!(report.get(&Resource::Energy), Some(info(1, 6, 5)));
    assert_eq!(report.get(&Resource::Oil), Some(info(0, 0, 3)));
    assert_eq!(report.get(&Resource::Ore), Some(info(0, 5, 0)));
}

#[test]
fn turn_leaves_other_businesses_alone() {
    let mut g = world(
        vec![vec![site(Some(1), BuildingType::TreeFarm, vec![(ValidRecipe::Forestation, 2)])]],
        vec![stock_of(&[(Resource::Money, 250)]), stock_of(&[(Resource::Money, 3)])],
    );
    g.update_business_resources(1);
    assert_eq!(holdings(&g, 0), vec![(Resource::Money, 250)]);
    assert_eq!(
        holdings(&g, 1),
        vec![(Resource::Money, 3), (Resource::Energy, -2), (Resource::Log, 2)]
    );
}

#[test]
fn net_in_and_net_out() {
    let line = info(10, 7, 3);
    assert_eq!(line.net_in(), 4);
    assert_eq!(line.net_out(), -4);
}

#[test]
fn new_business_holds_starting_money() {
    let b = Business::new();
    assert_eq!(b.resources.entries(), vec![(Resource::Money, 250)]);
    let empty = Business::default();
    assert_eq!(empty.resources.len(), 0);
}

#[test]
fn resource_map_insert_replaces() {
    let mut m: ResourceMap<i32> = ResourceMap::new();
    assert!(!m.contains_key(&Resource::Oil));
    m.insert(Resource::Oil, 1);
    m.insert(Resource::Chip, 2);
    m.insert(Resource::Oil, 5);
    assert!(m.contains_key(&Resource::Oil));
    assert_eq!(m.get(&Resource::Oil), Some(5));
    assert_eq!(m.get(&Resource::Sand), None);
    assert_eq!(m.entries(), vec![(Resource::Chip, 2), (Resource::Oil, 5)]);
    assert_eq!(m.len(), 2);
}

#[test]
fn new_game_gives_every_business_its_starting_money() {
    let g = GameData::new(vec![vec![Tile::new(&TerrainType::Urban)]], 3);
    assert_eq!(g.tiles.len(), 1);
    assert_eq!(g.businesses.len(), 3);
    for owner in 0..3 {
        assert_eq!(holdings(&g, owner), vec![(Resource::Money, 250)]);
    }
}

#[test]
fn checked_report_matches_plain_report() {
    let g = world(
        vec![vec![site(Some(0), BuildingType::Mine, vec![(ValidRecipe::OreMining, 3)])]],
        vec![stock_of(&[(Resource::Money, 250)])],
    );
    let checked = g.try_get_resource_stock(0).expect("in range");
    assert_eq!(checked.entries(), g.get_resource_stock(0).entries());
}

#[test]
fn checked_report_refuses_gross_sums_beyond_i32() {
    let at_limit = world(
        vec![vec![site(Some(0), BuildingType::Mine, vec![(ValidRecipe::OreMining, i32::MAX)])]],
        vec![stock_of(&[])],
    );
    let report = at_limit.try_get_resource_stock(0).expect("exactly at the limit");
    assert_eq!(report.get(&Resource::Energy), Some(info(0, 0, i32::MAX)));
    let beyond = world(
        vec![
            vec![site(Some(0), BuildingType::Mine, vec![(ValidRecipe::OreMining, i32::MAX)])],
            vec![site(Some(0), BuildingType::Mine, vec![(ValidRecipe::OreMining, 1)])],
        ],
        vec![stock_of(&[])],
    );
    assert!(beyond.try_get_resource_stock(0).is_none());
}

#[test]
fn checked_turn_commits_like_the_plain_one() {
    let mut plain = world(
        vec![vec![site(Some(0), BuildingType::TreeFarm, vec![(ValidRecipe::Forestation, 4)])]],
        vec![stock_of(&[(Resource::Energy, 10)])],
    );
    let mut checked = world(
        vec![vec![site(Some(0), BuildingType::TreeFarm, vec![(ValidRecipe::Forestation, 4)])]],
        vec![stock_of(&[(Resource::Energy, 10)])],
    );
    plain.update_business_resources(0);
    assert!(checked.try_update_business_resources(0));
    assert_eq!(holdings(&checked, 0), holdings(&plain, 0));
    assert_eq!(holdings(&checked, 0), vec![(Resource::Energy, 6), (Resource::Log, 4)]);
}

#[test]
fn checked_turn_refuses_stock_beyond_i32_and_changes_nothing() {
    let mut g = world(
        vec![vec![site(
            Some(0),
            BuildingType::EnergyMarket,
            vec![(ValidRecipe::ResourceExport(Resource::Energy), 1)],
        )]],
        vec![stock_of(&[(Resource::Money, i32::MAX - 1), (Resource::Energy, 5)])],
    );
    assert!(!g.try_update_business_resources(0));
    assert_eq!(
        holdings(&g, 0),
        vec![(Resource::Money, i32::MAX - 1), (Resource::Energy, 5)]
    );
}
