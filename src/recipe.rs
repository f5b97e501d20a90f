use vstd::prelude::*;

use crate::flow::Flow;
use crate::resource::{texture_id_of, trade_terms_of, Resource};

verus! {

/// The material deltas of one unit of production: negative amounts are
/// consumed, positive ones produced.
#[derive(Clone, Debug)]
pub struct Recipe {
    pub resources: Vec<(Resource, i32)>,
}

/// The production processes a building can run.
///
/// Import and export are parameterized by the resource traded.
#[derive(PartialEq, Eq, Structural, Hash, Clone, Copy, Debug)]
pub enum ValidRecipe {
    ResourceImport(Resource),
    ResourceExport(Resource),
    ComputerAssembly,
    PlankProduction,
    FurnitureProduction,
    OreMining,
    MetalRefining,
    SandCollecting,
    ChipProduction,
    GlassProduction,
    OilDrilling,
    OilRefining,
    OilBurning,
    PlasticProduction,
    Forestation,
}

/// The deltas of one unit of a recipe, in the order the catalog lists them.
pub open spec fn recipe_deltas(v: ValidRecipe) -> Seq<(Resource, i32)> {
    match v {
        ValidRecipe::ResourceImport(r) => {
            let (quantity, price) = trade_terms_of(r);
            let cost = (-price) as i32;
            seq![(Resource::Money, cost), (r, quantity)]
        },
        ValidRecipe::ResourceExport(r) => {
            let (quantity, price) = trade_terms_of(r);
            let sold = (-quantity) as i32;
            seq![(r, sold), (Resource::Money, price)]
        },
        ValidRecipe::GlassProduction => seq![(Resource::Sand, -1i32), (Resource::Glass, 1i32)],
        ValidRecipe::OilDrilling => seq![
            (Resource::Money, -1i32),
            (Resource::Energy, -1i32),
            (Resource::RawOil, 4i32),
        ],
        ValidRecipe::OilRefining => seq![(Resource::RawOil, -1i32), (Resource::Oil, 2i32)],
        ValidRecipe::OilBurning => seq![(Resource::Oil, -1i32), (Resource::Energy, 2i32)],
        ValidRecipe::ComputerAssembly => seq![
            (Resource::Chip, -1i32),
            (Resource::Wire, -1i32),
            (Resource::Computer, 1i32),
        ],
        ValidRecipe::PlankProduction => seq![(Resource::Log, -1i32), (Resource::Plank, 4i32)],
        ValidRecipe::FurnitureProduction => seq![(Resource::Plank, -4i32), (Resource::Furniture, 1i32)],
        ValidRecipe::OreMining => seq![(Resource::Energy, -1i32), (Resource::Ore, 1i32)],
        ValidRecipe::MetalRefining => seq![
            (Resource::Ore, -2i32),
            (Resource::Wire, 1i32),
            (Resource::Gold, 1i32),
        ],
        ValidRecipe::SandCollecting => seq![(Resource::Energy, -1i32), (Resource::Sand, 2i32)],
        ValidRecipe::Forestation => seq![(Resource::Energy, -1i32), (Resource::Log, 1i32)],
        ValidRecipe::ChipProduction => seq![
            (Resource::Energy, -1i32),
            (Resource::Sand, -1i32),
            (Resource::Chip, 1i32),
        ],
        ValidRecipe::PlasticProduction => seq![(Resource::Oil, -1i32), (Resource::Plastic, 4i32)],
    }
}

impl ValidRecipe {
    /// The catalog entry of this recipe.
    pub fn get_recipe(&self) -> (r: Recipe)
        ensures
            r.resources@ == recipe_deltas(*self),
    {
        let resources: Vec<(Resource, i32)> = match self {
            ValidRecipe::ResourceImport(resource) => {
                let (quantity, price) = resource.trade_terms();
                let cost: i32 = -price;
                vec![(Resource::Money, cost), (*resource, quantity)]
            },
            ValidRecipe::ResourceExport(resource) => {
                let (quantity, price) = resource.trade_terms();
                let sold: i32 = -quantity;
                vec![(*resource, sold), (Resource::Money, price)]
            },
            ValidRecipe::GlassProduction => vec![(Resource::Sand, -1), (Resource::Glass, 1)],
            ValidRecipe::OilDrilling => vec![
                (Resource::Money, -1),
                (Resource::Energy, -1),
                (Resource::RawOil, 4),
            ],
            ValidRecipe::OilRefining => vec![(Resource::RawOil, -1), (Resource::Oil, 2)],
            ValidRecipe::OilBurning => vec![(Resource::Oil, -1), (Resource::Energy, 2)],
            ValidRecipe::ComputerAssembly => vec![
                (Resource::Chip, -1),
                (Resource::Wire, -1),
                (Resource::Computer, 1),
            ],
            ValidRecipe::PlankProduction => vec![(Resource::Log, -1), (Resource::Plank, 4)],
            ValidRecipe::FurnitureProduction => vec![
                (Resource::Plank, -4),
                (Resource::Furniture, 1),
            ],
            ValidRecipe::OreMining => vec![(Resource::Energy, -1), (Resource::Ore, 1)],
            ValidRecipe::MetalRefining => vec![
                (Resource::Ore, -2),
                (Resource::Wire, 1),
                (Resource::Gold, 1),
            ],
            ValidRecipe::SandCollecting => vec![(Resource::Energy, -1), (Resource::Sand, 2)],
            ValidRecipe::Forestation => vec![(Resource::Energy, -1), (Resource::Log, 1)],
            ValidRecipe::ChipProduction => vec![
                (Resource::Energy, -1),
                (Resource::Sand, -1),
                (Resource::Chip, 1),
            ],
            ValidRecipe::PlasticProduction => vec![(Resource::Oil, -1), (Resource::Plastic, 4)],
        };
        assert(resources@ =~= recipe_deltas(*self));
        Recipe { resources }
    }
}

/// Every catalog delta is a small amount, between -8 and 8.
pub proof fn lemma_deltas_small(v: ValidRecipe)
    ensures
        forall|i: int|
            0 <= i < recipe_deltas(v).len() ==> -8 <= (#[trigger] recipe_deltas(v)[i]).1 <= 8,
{
    match v {
        ValidRecipe::ResourceImport(r) => match r {
            Resource::Money => {},
            Resource::Energy => {},
            Resource::Sand => {},
            Resource::Ore => {},
            Resource::Gold => {},
            Resource::Chip => {},
            Resource::Wire => {},
            Resource::Computer => {},
            Resource::Log => {},
            Resource::Plank => {},
            Resource::Furniture => {},
            Resource::RawOil => {},
            Resource::Oil => {},
            Resource::Glass => {},
            Resource::Plastic => {},
        },
        ValidRecipe::ResourceExport(r) => match r {
            Resource::Money => {},
            Resource::Energy => {},
            Resource::Sand => {},
            Resource::Ore => {},
            Resource::Gold => {},
            Resource::Chip => {},
            Resource::Wire => {},
            Resource::Computer => {},
            Resource::Log => {},
            Resource::Plank => {},
            Resource::Furniture => {},
            Resource::RawOil => {},
            Resource::Oil => {},
            Resource::Glass => {},
            Resource::Plastic => {},
        },
        _ => {},
    }
}

/// One icon of a recipe's picture: the texture and the amount shown beside it.
pub type Icon = (Seq<char>, int);

/// The icons that show a recipe's deltas around an arrow: what it consumes,
/// the last listed first, left of the arrow; what it produces, in order, right
/// of it. Each amount is shown without its sign.
pub open spec fn icon_row_of(deltas: Seq<(Resource, i32)>) -> Seq<Icon>
    decreases deltas.len(),
{
    if deltas.len() == 0 {
        seq![("right_arrow"@, 1int)]
    } else {
        let d = deltas.last();
        let amount: int = if d.1 < 0 {
            -d.1
        } else {
            d.1 as int
        };
        let icon: Icon = (texture_id_of(d.0)@, amount);
        let row = icon_row_of(deltas.drop_last());
        if d.1 > 0 {
            row.push(icon)
        } else {
            seq![icon] + row
        }
    }
}

/// A row of icons as plain texture names and amounts.
pub open spec fn icons_view(row: Seq<(String, i32)>) -> Seq<Icon> {
    row.map_values(|p: (String, i32)| (p.0@, p.1 as int))
}

impl ValidRecipe {
    /// The icons that show this recipe: consumed resources, an arrow,
    /// produced resources.
    pub fn icon_row(&self) -> (row: Vec<(String, i32)>)
        ensures
            icons_view(row@) == icon_row_of(recipe_deltas(*self)),
    {
        let recipe = self.get_recipe();
        proof {
            lemma_deltas_small(*self);
        }
        let mut row: Vec<(String, i32)> = Vec::new();
        row.push(("right_arrow".to_string(), 1));
        assert(icons_view(row@) =~= icon_row_of(recipe.resources@.take(0)));
        let mut m: usize = 0;
        while m < recipe.resources.len()
            invariant
                m <= recipe.resources.len(),
                recipe.resources@ == recipe_deltas(*self),
                forall|i: int|
                    0 <= i < recipe.resources@.len() ==> -8 <= (#[trigger] recipe.resources@[i]).1
                        <= 8,
                icons_view(row@) == icon_row_of(recipe.resources@.take(m as int)),
            decreases recipe.resources.len() - m,
        {
            let (resource, quantity) = recipe.resources[m];
            let amount: i32 = if quantity < 0 {
                -quantity
            } else {
                quantity
            };
            let icon = (resource.get_texture_id(), amount);
            let ghost prev = row@;
            let ghost deltas = recipe.resources@.take(m + 1);
            assert(deltas.drop_last() =~= recipe.resources@.take(m as int));
            if quantity > 0 {
                row.push(icon);
                assert(icons_view(row@) =~= icons_view(prev).push((icon.0@, amount as int)));
            } else {
                row.insert(0, icon);
                assert(icons_view(row@) =~= seq![(icon.0@, amount as int)] + icons_view(prev));
            }
            m = m + 1;
        }
        assert(recipe.resources@.take(m as int) =~= recipe.resources@);
        row
    }
}

/// A recipe as run by one building: `scale` units of it per turn, up to
/// `max_scale`.
#[derive(PartialEq, Eq, Structural, Clone, Copy, Debug)]
pub struct ScaledValidRecipe {
    pub valid_recipe: ValidRecipe,
    pub scale: i32,
    pub max_scale: i32,
}

/// The flows of one turn of a scaled recipe: each delta times the scale, or
/// nothing at all when the recipe is idle.
pub open spec fn scaled_flows(sr: ScaledValidRecipe) -> Seq<Flow> {
    if sr.scale == 0 {
        seq![]
    } else {
        recipe_deltas(sr.valid_recipe).map_values(
            |d: (Resource, i32)| (d.0, d.1 as int * sr.scale as int),
        )
    }
}

} // verus!
