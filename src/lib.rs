//! Resource accounting for an economic strategy game: recipes, production
//! sites and the per-business ledger that turns production into stock.
pub mod acquisition;
pub mod building;
pub mod flow;
pub mod laws;
pub mod ledger;
pub mod recipe;
pub mod resource;
pub mod resource_map;
pub mod screening;

pub use building::{
    get_player_color, Building, BuildingType, TerrainType, Tile, MAX_SCALE, PLAYER_COLOR_COUNT,
    TILE_ACQUISITION_COST,
};
pub use ledger::{Business, GameData, QuantityInfo, STARTING_MONEY};
pub use recipe::{Recipe, ScaledValidRecipe, ValidRecipe};
pub use resource::{Resource, RESOURCE_COUNT};
pub use resource_map::ResourceMap;
