use logistics_game::{
    get_player_color, BuildingType, GameData, QuantityInfo, Resource, ScaledValidRecipe,
    TerrainType, Tile, ValidRecipe,
};

fn money(g: &GameData, owner: usize) -> Option<i32> {
    g.businesses[owner].resources.get(&Resource::Money)
}

fn small_world() -> GameData {
    GameData::new(
        vec![
            vec![Tile::new(&TerrainType::Desert), Tile::new(&TerrainType::Mountain)],
            vec![Tile::new(&TerrainType::Industrial), Tile::new(&TerrainType::Urban)],
        ],
        2,
    )
}

#[test]
fn buying_a_free_tile_claims_it_and_costs_its_price() {
    let mut g = small_world();
    assert!(g.buy_tile(0, 1, 1));
    assert_eq!(g.tiles[0][1].owner_id, Some(1));
    assert_eq!(money(&g, 1), Some(150));
    assert_eq!(money(&g, 0), Some(250));
    assert_eq!(g.tiles[0][0].owner_id, None);
}

#[test]
fn a_claimed_tile_cannot_be_bought_again() {
    let mut g = small_world();
    assert!(g.buy_tile(1, 0, 0));
    assert!(!g.buy_tile(1, 0, 1));
    assert_eq!(g.tiles[1][0].owner_id, Some(0));
    assert_eq!(money(&g, 1), Some(250));
}

#[test]
fn buying_needs_money_beyond_the_turns_net_flow() {
    let mut g = small_world();
    assert!(g.buy_tile(0, 0, 0));
    assert!(g.buy_tile(0, 1, 0));
    assert_eq!(money(&g, 0), Some(50));
    assert!(!g.buy_tile(1, 1, 0));
    assert_eq!(g.tiles[1][1].owner_id, None);
    assert_eq!(money(&g, 0), Some(50));
}

#[test]
fn building_on_an_owned_tile_installs_idle_recipes() {
    let mut g = small_world();
    assert!(g.buy_tile(0, 0, 0));
    assert!(g.construct_building(0, 0, 0, BuildingType::OilRig));
    assert_eq!(money(&g, 0), Some(50));
    let building = g.tiles[0][0].building.as_ref().expect("built");
    assert_eq!(building.building_type, BuildingType::OilRig);
    assert_eq!(
        building.production_scale,
        vec![ScaledValidRecipe { valid_recipe: ValidRecipe::OilDrilling, scale: 0, max_scale: 5 }]
    );
    assert!(!g.construct_building(0, 0, 0, BuildingType::SandPlant));
}

#[test]
fn building_is_refused_on_foreign_free_or_unsuitable_tiles() {
    let mut g = small_world();
    assert!(!g.construct_building(0, 0, 0, BuildingType::OilRig));
    assert!(g.buy_tile(0, 0, 1));
    assert!(!g.construct_building(0, 0, 0, BuildingType::OilRig));
    assert!(!g.construct_building(0, 0, 1, BuildingType::Mine));
    assert!(g.tiles[0][0].building.is_none());
    assert_eq!(money(&g, 1), Some(150));
}

#[test]
fn building_needs_the_price() {
    let mut g = small_world();
    assert!(g.buy_tile(1, 0, 0));
    assert!(g.buy_tile(0, 0, 0));
    assert_eq!(money(&g, 0), Some(50));
    assert!(!g.construct_building(1, 0, 0, BuildingType::MetalRefinery));
    assert!(g.construct_building(1, 0, 0, BuildingType::GlassFactory));
    assert_eq!(money(&g, 0), Some(0));
}

#[test]
fn turns_rotate_through_the_businesses() {
    let g = small_world();
    assert_eq!(g.next_business_id(0), 1);
    assert_eq!(g.next_business_id(1), 0);
}

#[test]
fn recipe_icons_put_inputs_left_of_the_arrow() {
    let row = ValidRecipe::ChipProduction.icon_row();
    let expected: Vec<(String, i32)> = vec![
        ("sand".to_string(), 1),
        ("energy".to_string(), 1),
        ("right_arrow".to_string(), 1),
        ("chip".to_string(), 1),
    ];
    assert_eq!(row, expected);
    let row = ValidRecipe::FurnitureProduction.icon_row();
    let expected: Vec<(String, i32)> = vec![
        ("planks".to_string(), 4),
        ("right_arrow".to_string(), 1),
        ("chair".to_string(), 1),
    ];
    assert_eq!(row, expected);
}

#[test]
fn colours() {
    assert_eq!(TerrainType::Grassland.get_color(), 0x68B75C);
    assert_eq!(TerrainType::WaterDeep.get_color(), 0x45818E);
    assert_eq!(get_player_color(0), 0xB3CDE3);
    assert_eq!(get_player_color(2), 0xCCEBC5);
    assert_eq!(BuildingType::Mine.get_texture_id(), "minecart");
    assert_eq!(BuildingType::TreeFarm.get_texture_id(), "forrest_farm");
}

#[test]
fn affordability_uses_report_lines() {
    let line = QuantityInfo { quantity: 0, gross_in: 0, gross_out: 0 };
    assert!(line.can_afford(0));
    assert!(!line.can_afford(1));
}
