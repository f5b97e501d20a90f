use vstd::prelude::*;

use crate::recipe::{ScaledValidRecipe, ValidRecipe};
use crate::resource::Resource;

verus! {

/// Number of units per turn to which a new building can scale each recipe.
pub const MAX_SCALE: i32 = 5;

/// Price of claiming a tile.
pub const TILE_ACQUISITION_COST: i32 = 100;

/// The kinds of production site.
#[derive(PartialEq, Eq, Structural, Clone, Copy, Debug)]
pub enum BuildingType {
    LocalMarket,
    EnergyMarket,
    Sawmill,
    FurnitureFactory,
    WoodWorkingMarket,
    ComputerFactory,
    SandPlant,
    Mine,
    MetalRefinery,
    GlassFactory,
    OilRig,
    OilRefinery,
    PlasticFactory,
    OilEnergyPlant,
    TreeFarm,
    SolarEnergyFarm,
    WindEnergyFarm,
}

/// The recipes a kind of building runs, in the order it lists them.
pub open spec fn valid_recipes_of(t: BuildingType) -> Seq<ValidRecipe> {
    match t {
        BuildingType::LocalMarket => seq![
            ValidRecipe::ResourceExport(Resource::Glass),
            ValidRecipe::ResourceImport(Resource::Wire),
            ValidRecipe::ResourceExport(Resource::Wire),
            ValidRecipe::ResourceExport(Resource::Chip),
            ValidRecipe::ResourceExport(Resource::Gold),
            ValidRecipe::ResourceExport(Resource::Ore),
            ValidRecipe::ResourceImport(Resource::Log),
            ValidRecipe::ResourceExport(Resource::Log),
            ValidRecipe::ResourceExport(Resource::Plastic),
            ValidRecipe::ResourceExport(Resource::Computer),
        ],
        BuildingType::EnergyMarket => seq![
            ValidRecipe::ResourceImport(Resource::Energy),
            ValidRecipe::ResourceExport(Resource::Energy),
        ],
        BuildingType::WoodWorkingMarket => seq![
            ValidRecipe::ResourceImport(Resource::Plank),
            ValidRecipe::ResourceExport(Resource::Plank),
            ValidRecipe::ResourceExport(Resource::Furniture),
        ],
        BuildingType::ComputerFactory => seq![
            ValidRecipe::ChipProduction,
            ValidRecipe::ComputerAssembly,
        ],
        BuildingType::TreeFarm => seq![ValidRecipe::Forestation],
        BuildingType::Sawmill => seq![ValidRecipe::PlankProduction],
        BuildingType::FurnitureFactory => seq![ValidRecipe::FurnitureProduction],
        BuildingType::SandPlant => seq![ValidRecipe::SandCollecting],
        BuildingType::GlassFactory => seq![ValidRecipe::GlassProduction],
        BuildingType::Mine => seq![ValidRecipe::OreMining],
        BuildingType::MetalRefinery => seq![ValidRecipe::MetalRefining],
        BuildingType::OilRig => seq![ValidRecipe::OilDrilling],
        BuildingType::OilRefinery => seq![ValidRecipe::OilRefining],
        BuildingType::OilEnergyPlant => seq![ValidRecipe::OilBurning],
        BuildingType::PlasticFactory => seq![ValidRecipe::PlasticProduction],
        BuildingType::SolarEnergyFarm => seq![ValidRecipe::ResourceExport(Resource::Energy)],
        BuildingType::WindEnergyFarm => seq![ValidRecipe::ResourceExport(Resource::Energy)],
    }
}

/// Price of putting up a building of a kind.
pub open spec fn construction_cost_of(t: BuildingType) -> i32 {
    match t {
        BuildingType::LocalMarket => 20,
        BuildingType::EnergyMarket => 20,
        BuildingType::Sawmill => 80,
        BuildingType::FurnitureFactory => 60,
        BuildingType::WoodWorkingMarket => 20,
        BuildingType::ComputerFactory => 150,
        BuildingType::TreeFarm => 50,
        BuildingType::SandPlant => 80,
        BuildingType::Mine => 100,
        BuildingType::MetalRefinery => 100,
        BuildingType::GlassFactory => 50,
        BuildingType::OilRig => 100,
        BuildingType::OilRefinery => 100,
        BuildingType::PlasticFactory => 100,
        BuildingType::OilEnergyPlant => 100,
        BuildingType::SolarEnergyFarm => 200,
        BuildingType::WindEnergyFarm => 200,
    }
}

/// Name of the picture that shows a kind of building.
pub open spec fn building_texture_of(t: BuildingType) -> &'static str {
    match t {
        BuildingType::LocalMarket => "market",
        BuildingType::EnergyMarket => "market",
        BuildingType::Sawmill => "saw",
        BuildingType::FurnitureFactory => "factory",
        BuildingType::WoodWorkingMarket => "market",
        BuildingType::ComputerFactory => "factory",
        BuildingType::SandPlant => "digger",
        BuildingType::Mine => "minecart",
        BuildingType::MetalRefinery => "factory",
        BuildingType::GlassFactory => "factory",
        BuildingType::OilRig => "oil_rig",
        BuildingType::OilRefinery => "oil_refinery",
        BuildingType::PlasticFactory => "factory",
        BuildingType::OilEnergyPlant => "fossil_plant",
        BuildingType::TreeFarm => "forrest_farm",
        BuildingType::SolarEnergyFarm => "solar_plant",
        BuildingType::WindEnergyFarm => "wind_plant",
    }
}

impl BuildingType {
    /// The recipes this kind of building runs.
    pub fn get_valid_recipes(&self) -> (v: Vec<ValidRecipe>)
        ensures
            v@ == valid_recipes_of(*self),
    {
        let v: Vec<ValidRecipe> = match self {
            BuildingType::LocalMarket => vec![
                ValidRecipe::ResourceExport(Resource::Glass),
                ValidRecipe::ResourceImport(Resource::Wire),
                ValidRecipe::ResourceExport(Resource::Wire),
                ValidRecipe::ResourceExport(Resource::Chip),
                ValidRecipe::ResourceExport(Resource::Gold),
                ValidRecipe::ResourceExport(Resource::Ore),
                ValidRecipe::ResourceImport(Resource::Log),
                ValidRecipe::ResourceExport(Resource::Log),
                ValidRecipe::ResourceExport(Resource::Plastic),
                ValidRecipe::ResourceExport(Resource::Computer),
            ],
            BuildingType::EnergyMarket => vec![
                ValidRecipe::ResourceImport(Resource::Energy),
                ValidRecipe::ResourceExport(Resource::Energy),
            ],
            BuildingType::WoodWorkingMarket => vec![
                ValidRecipe::ResourceImport(Resource::Plank),
                ValidRecipe::ResourceExport(Resource::Plank),
                ValidRecipe::ResourceExport(Resource::Furniture),
            ],
            BuildingType::ComputerFactory => vec![
                ValidRecipe::ChipProduction,
                ValidRecipe::ComputerAssembly,
            ],
            BuildingType::TreeFarm => vec![ValidRecipe::Forestation],
            BuildingType::Sawmill => vec![ValidRecipe::PlankProduction],
            BuildingType::FurnitureFactory => vec![ValidRecipe::FurnitureProduction],
            BuildingType::SandPlant => vec![ValidRecipe::SandCollecting],
            BuildingType::GlassFactory => vec![ValidRecipe::GlassProduction],
            BuildingType::Mine => vec![ValidRecipe::OreMining],
            BuildingType::MetalRefinery => vec![ValidRecipe::MetalRefining],
            BuildingType::OilRig => vec![ValidRecipe::OilDrilling],
            BuildingType::OilRefinery => vec![ValidRecipe::OilRefining],
            BuildingType::OilEnergyPlant => vec![ValidRecipe::OilBurning],
            BuildingType::PlasticFactory => vec![ValidRecipe::PlasticProduction],
            BuildingType::SolarEnergyFarm => vec![ValidRecipe::ResourceExport(Resource::Energy)],
            BuildingType::WindEnergyFarm => vec![ValidRecipe::ResourceExport(Resource::Energy)],
        };
        assert(v@ =~= valid_recipes_of(*self));
        v
    }

    /// Price of putting up a building of this kind.
    pub fn get_construction_cost(&self) -> (c: i32)
        ensures
            c == construction_cost_of(*self),
    {
        match self {
            BuildingType::LocalMarket => 20,
            BuildingType::EnergyMarket => 20,
            BuildingType::Sawmill => 80,
            BuildingType::FurnitureFactory => 60,
            BuildingType::WoodWorkingMarket => 20,
            BuildingType::ComputerFactory => 150,
            BuildingType::TreeFarm => 50,
            BuildingType::SandPlant => 80,
            BuildingType::Mine => 100,
            BuildingType::MetalRefinery => 100,
            BuildingType::GlassFactory => 50,
            BuildingType::OilRig => 100,
            BuildingType::OilRefinery => 100,
            BuildingType::PlasticFactory => 100,
            BuildingType::OilEnergyPlant => 100,
            BuildingType::SolarEnergyFarm => 200,
            BuildingType::WindEnergyFarm => 200,
        }
    }

    /// Name of the picture that shows a building of this kind.
    pub fn get_texture_id(&self) -> (s: &'static str)
        ensures
            s@ == building_texture_of(*self)@,
    {
        match self {
            BuildingType::LocalMarket => "market",
            BuildingType::EnergyMarket => "market",
            BuildingType::Sawmill => "saw",
            BuildingType::FurnitureFactory => "factory",
            BuildingType::WoodWorkingMarket => "market",
            BuildingType::ComputerFactory => "factory",
            BuildingType::SandPlant => "digger",
            BuildingType::Mine => "minecart",
            BuildingType::MetalRefinery => "factory",
            BuildingType::GlassFactory => "factory",
            BuildingType::OilRig => "oil_rig",
            BuildingType::OilRefinery => "oil_refinery",
            BuildingType::PlasticFactory => "factory",
            BuildingType::OilEnergyPlant => "fossil_plant",
            BuildingType::TreeFarm => "forrest_farm",
            BuildingType::SolarEnergyFarm => "solar_plant",
            BuildingType::WindEnergyFarm => "wind_plant",
        }
    }
}

/// A production site: its kind and the recipes it runs, each at its scale.
#[derive(Clone, Debug)]
pub struct Building {
    pub building_type: BuildingType,
    pub production_scale: Vec<ScaledValidRecipe>,
}

/// A recipe as a new building runs it: idle, scalable up to `MAX_SCALE`.
pub open spec fn idle_recipe(v: ValidRecipe) -> ScaledValidRecipe {
    ScaledValidRecipe { valid_recipe: v, scale: 0, max_scale: MAX_SCALE }
}

impl Building {
    /// A new building of kind `building_type`, running each of its recipes at
    /// scale 0.
    pub fn new(building_type: BuildingType) -> (b: Self)
        ensures
            b.building_type == building_type,
            b.production_scale@ == valid_recipes_of(building_type).map_values(
                |v: ValidRecipe| idle_recipe(v),
            ),
    {
        let recipes = building_type.get_valid_recipes();
        let mut production_scale: Vec<ScaledValidRecipe> = Vec::new();
        let mut i: usize = 0;
        while i < recipes.len()
            invariant
                i <= recipes.len(),
                recipes@ == valid_recipes_of(building_type),
                production_scale@ == recipes@.take(i as int).map_values(
                    |v: ValidRecipe| idle_recipe(v),
                ),
            decreases recipes.len() - i,
        {
            production_scale.push(
                ScaledValidRecipe { valid_recipe: recipes[i], scale: 0, max_scale: MAX_SCALE },
            );
            assert(recipes@.take(i + 1) =~= recipes@.take(i as int).push(recipes@[i as int]));
            i = i + 1;
        }
        assert(recipes@.take(recipes.len() as int) =~= recipes@);
        Building { building_type, production_scale }
    }
}

/// The kinds of map tile.
#[derive(PartialEq, Eq, Structural, Clone, Copy, Debug)]
pub enum TerrainType {
    Grassland,
    Forrest,
    Desert,
    Hills,
    Mountain,
    Urban,
    Industrial,
    WaterShallow,
    WaterDeep,
}

/// The kinds of building a terrain can carry, in the order it lists them.
pub open spec fn supported_building_types_of(t: TerrainType) -> Seq<BuildingType> {
    match t {
        TerrainType::Grassland => seq![
            BuildingType::SolarEnergyFarm,
            BuildingType::WindEnergyFarm,
        ],
        TerrainType::Forrest => seq![BuildingType::TreeFarm],
        TerrainType::Desert => seq![
            BuildingType::SolarEnergyFarm,
            BuildingType::SandPlant,
            BuildingType::OilRig,
        ],
        TerrainType::Hills => seq![BuildingType::OilRig],
        TerrainType::Mountain => seq![],
        TerrainType::Urban => seq![BuildingType::LocalMarket],
        TerrainType::Industrial => seq![
            BuildingType::EnergyMarket,
            BuildingType::FurnitureFactory,
            BuildingType::MetalRefinery,
            BuildingType::GlassFactory,
            BuildingType::OilRefinery,
            BuildingType::Sawmill,
            BuildingType::PlasticFactory,
            BuildingType::OilEnergyPlant,
            BuildingType::WoodWorkingMarket,
        ],
        TerrainType::WaterShallow => seq![],
        TerrainType::WaterDeep => seq![],
    }
}

/// The colour a terrain is drawn in, as `0xRRGGBB`.
pub open spec fn terrain_color_of(t: TerrainType) -> u32 {
    match t {
        TerrainType::Grassland => 0x68B75C,
        TerrainType::Forrest => 0x146842,
        TerrainType::Desert => 0xE4C670,
        TerrainType::Hills => 0xAD7135,
        TerrainType::Mountain => 0x5F4632,
        TerrainType::Urban => 0x7D847C,
        TerrainType::Industrial => 0xCCEBC5,
        TerrainType::WaterShallow => 0x76A5AF,
        TerrainType::WaterDeep => 0x45818E,
    }
}

/// Number of players that have a colour of their own.
pub const PLAYER_COLOR_COUNT: usize = 3;

/// The colour a player's markers are drawn in, as `0xRRGGBB`.
pub open spec fn player_color_of(player_id: usize) -> u32 {
    if player_id == 0 {
        0xB3CDE3
    } else if player_id == 1 {
        0xFBB4AE
    } else {
        0xCCEBC5
    }
}

/// The colour a player's markers are drawn in, as `0xRRGGBB`.
pub fn get_player_color(player_id: usize) -> (c: u32)
    requires
        player_id < PLAYER_COLOR_COUNT,
    ensures
        c == player_color_of(player_id),
{
    if player_id == 0 {
        0xB3CDE3
    } else if player_id == 1 {
        0xFBB4AE
    } else {
        0xCCEBC5
    }
}

impl TerrainType {
    /// The kinds of building this terrain can carry.
    pub fn supported_building_types(&self) -> (v: Vec<BuildingType>)
        ensures
            v@ == supported_building_types_of(*self),
    {
        let v: Vec<BuildingType> = match self {
            TerrainType::Grassland => vec![
                BuildingType::SolarEnergyFarm,
                BuildingType::WindEnergyFarm,
            ],
            TerrainType::Forrest => vec![BuildingType::TreeFarm],
            TerrainType::Desert => vec![
                BuildingType::SolarEnergyFarm,
                BuildingType::SandPlant,
                BuildingType::OilRig,
            ],
            TerrainType::Hills => vec![BuildingType::OilRig],
            TerrainType::Mountain => Vec::new(),
            TerrainType::Urban => vec![BuildingType::LocalMarket],
            TerrainType::Industrial => vec![
                BuildingType::EnergyMarket,
                BuildingType::FurnitureFactory,
                BuildingType::MetalRefinery,
                BuildingType::GlassFactory,
                BuildingType::OilRefinery,
                BuildingType::Sawmill,
                BuildingType::PlasticFactory,
                BuildingType::OilEnergyPlant,
                BuildingType::WoodWorkingMarket,
            ],
            TerrainType::WaterShallow => Vec::new(),
            TerrainType::WaterDeep => Vec::new(),
        };
        assert(v@ =~= supported_building_types_of(*self));
        v
    }

    /// The colour this terrain is drawn in, as `0xRRGGBB`.
    pub fn get_color(&self) -> (c: u32)
        ensures
            c == terrain_color_of(*self),
    {
        match self {
            TerrainType::Grassland => 0x68B75C,
            TerrainType::Forrest => 0x146842,
            TerrainType::Desert => 0xE4C670,
            TerrainType::Hills => 0xAD7135,
            TerrainType::Mountain => 0x5F4632,
            TerrainType::Urban => 0x7D847C,
            TerrainType::Industrial => 0xCCEBC5,
            TerrainType::WaterShallow => 0x76A5AF,
            TerrainType::WaterDeep => 0x45818E,
        }
    }
}

/// A map tile: its terrain, who owns it (if anyone) and what stands on it.
#[derive(Clone, Debug)]
pub struct Tile {
    pub terrain_type: TerrainType,
    pub owner_id: Option<usize>,
    pub building: Option<Building>,
}

impl Tile {
    /// An unclaimed, empty tile of the given terrain.
    pub fn new(terrain_type: &TerrainType) -> (t: Self)
        ensures
            t.terrain_type == *terrain_type,
            t.owner_id is None,
            t.building is None,
    {
        Tile { terrain_type: *terrain_type, owner_id: None, building: None }
    }

    /// Price of claiming this tile.
    pub fn get_acquisition_cost(&self) -> (c: i32)
        ensures
            c == TILE_ACQUISITION_COST,
    {
        TILE_ACQUISITION_COST
    }
}

} // verus!
